use vstd::prelude::*;
use std::path::PathBuf;
use std::time::Duration;

use crate::clock::Timestamp;

verus! {

#[verifier::external_type_specification]
#[verifier::external_body]
pub struct ExPathBuf(PathBuf);

/// Status of a managed onion service.
#[derive(Clone, Copy, Debug, PartialEq, Eq, Structural)]
pub enum ServiceStatus {
    Stopped,
    Starting,
    Running,
    Error,
}

impl ServiceStatus {
    /// The lowercase name of the status.
    pub open spec fn spec_text(self) -> Seq<char> {
        match self {
            ServiceStatus::Stopped => "stopped"@,
            ServiceStatus::Starting => "starting"@,
            ServiceStatus::Running => "running"@,
            ServiceStatus::Error => "error"@,
        }
    }

    pub fn to_string(&self) -> (r: String)
        ensures
            r@ == self.spec_text(),
    {
        match self {
            ServiceStatus::Stopped => String::from_str("stopped"),
            ServiceStatus::Starting => String::from_str("starting"),
            ServiceStatus::Running => String::from_str("running"),
            ServiceStatus::Error => String::from_str("error"),
        }
    }
}

/// Configuration for creating an onion service.
#[derive(Debug, PartialEq, Eq)]
pub struct ServiceConfig {
    /// Human-readable name for the service.
    pub name: String,
    /// Address of the upstream target (e.g. `127.0.0.1`).
    pub target_addr: String,
    /// Port on the upstream target.
    pub target_port: u16,
    /// Port exposed on the .onion address.
    pub onion_port: u16,
    /// Whether to persist the key material across restarts.
    pub persistent: bool,
    /// Optional vanity prefix (lowercase base32 chars).
    pub vanity_prefix: Option<String>,
}

impl Clone for ServiceConfig {
    fn clone(&self) -> (r: Self)
        ensures
            r.name@ == self.name@,
            r.target_addr@ == self.target_addr@,
            r.target_port == self.target_port,
            r.onion_port == self.onion_port,
            r.persistent == self.persistent,
            match (r.vanity_prefix, self.vanity_prefix) {
                (Some(a), Some(b)) => a@ == b@,
                (None, None) => true,
                _ => false,
            },
    {
        ServiceConfig {
            name: self.name.clone(),
            target_addr: self.target_addr.clone(),
            target_port: self.target_port,
            onion_port: self.onion_port,
            persistent: self.persistent,
            vanity_prefix: match &self.vanity_prefix {
                Some(p) => Some(p.clone()),
                None => None,
            },
        }
    }
}

/// A running or registered onion service.
#[derive(Debug, PartialEq, Eq)]
pub struct OnionService {
    pub name: String,
    pub onion_address: String,
    pub target_addr: String,
    pub target_port: u16,
    pub status: ServiceStatus,
    pub created_at: Timestamp,
}

/// What an onion service holds, as mathematical values.
pub struct OnionServiceView {
    pub name: Seq<char>,
    pub onion_address: Seq<char>,
    pub target_addr: Seq<char>,
    pub target_port: u16,
    pub status: ServiceStatus,
    pub created_at: Timestamp,
}

impl View for OnionService {
    type V = OnionServiceView;

    open spec fn view(&self) -> OnionServiceView {
        OnionServiceView {
            name: self.name@,
            onion_address: self.onion_address@,
            target_addr: self.target_addr@,
            target_port: self.target_port,
            status: self.status,
            created_at: self.created_at,
        }
    }
}

impl OnionServiceView {
    /// The same service with another status.
    pub open spec fn with_status(self, status: ServiceStatus) -> OnionServiceView {
        OnionServiceView { status, ..self }
    }
}

impl Clone for OnionService {
    fn clone(&self) -> (r: Self)
        ensures
            r@ == self@,
    {
        OnionService {
            name: self.name.clone(),
            onion_address: self.onion_address.clone(),
            target_addr: self.target_addr.clone(),
            target_port: self.target_port,
            status: self.status,
            created_at: self.created_at,
        }
    }
}

/// Copies a path with `<PathBuf as Clone>::clone`; nothing is stated of the
/// copy, since a path has no view here.
pub assume_specification[ <PathBuf as Clone>::clone ](path: &PathBuf) -> PathBuf;

/// Result of a vanity address generation run.
#[derive(Debug, PartialEq, Eq)]
pub struct VanityResult {
    /// The generated `.onion` address.
    pub address: String,
    /// Filesystem path to the generated keypair.
    pub keypair_path: PathBuf,
    /// Number of keypairs attempted before finding a match.
    pub attempts: u64,
    /// Wall-clock time spent generating.
    pub duration: Duration,
}

impl Clone for VanityResult {
    fn clone(&self) -> (r: Self)
        ensures
            r.address@ == self.address@,
            r.attempts == self.attempts,
            r.duration == self.duration,
    {
        VanityResult {
            address: self.address.clone(),
            keypair_path: self.keypair_path.clone(),
            attempts: self.attempts,
            duration: self.duration,
        }
    }
}

/// Types of cryptographic keys in the Tor v3 onion service key hierarchy.
///
/// Tor v3 onion services use a three-tier key hierarchy: a long-term
/// identity key (ed25519), a medium-term descriptor signing key, and
/// short-term introduction point authentication keys.
#[derive(Clone, Copy, Debug, PartialEq, Eq, Structural)]
pub enum KeyType {
    /// Long-term identity key (ed25519). Derives the `.onion` address.
    Identity,
    /// Medium-term descriptor signing key, rotated periodically.
    DescriptorSigning,
    /// Short-term introduction point authentication key.
    IntroPointAuth,
}

impl KeyType {
    pub open spec fn spec_text(self) -> Seq<char> {
        match self {
            KeyType::Identity => "identity"@,
            KeyType::DescriptorSigning => "descriptor_signing"@,
            KeyType::IntroPointAuth => "intro_point_auth"@,
        }
    }

    pub fn to_string(&self) -> (r: String)
        ensures
            r@ == self.spec_text(),
    {
        match self {
            KeyType::Identity => String::from_str("identity"),
            KeyType::DescriptorSigning => String::from_str("descriptor_signing"),
            KeyType::IntroPointAuth => String::from_str("intro_point_auth"),
        }
    }
}

/// Lifecycle state of an onion service descriptor.
///
/// Tracks the publication state of the hidden service descriptor that
/// is uploaded to the HSDir ring so clients can discover the service.
#[derive(Clone, Copy, Debug, PartialEq, Eq, Structural)]
pub enum DescriptorState {
    /// Descriptor has not been published yet.
    Unpublished,
    /// Descriptor upload is in progress.
    Publishing,
    /// Descriptor is live on the HSDir ring.
    Published,
    /// Descriptor has expired and is no longer valid.
    Expired,
    /// Descriptor publication failed.
    Failed,
}

impl Default for DescriptorState {
    fn default() -> (r: Self)
        ensures
            r == DescriptorState::Unpublished,
    {
        DescriptorState::Unpublished
    }
}

impl DescriptorState {
    pub open spec fn spec_text(self) -> Seq<char> {
        match self {
            DescriptorState::Unpublished => "unpublished"@,
            DescriptorState::Publishing => "publishing"@,
            DescriptorState::Published => "published"@,
            DescriptorState::Expired => "expired"@,
            DescriptorState::Failed => "failed"@,
        }
    }

    pub fn to_string(&self) -> (r: String)
        ensures
            r@ == self.spec_text(),
    {
        match self {
            DescriptorState::Unpublished => String::from_str("unpublished"),
            DescriptorState::Publishing => String::from_str("publishing"),
            DescriptorState::Published => String::from_str("published"),
            DescriptorState::Expired => String::from_str("expired"),
            DescriptorState::Failed => String::from_str("failed"),
        }
    }

    /// Whether the descriptor is currently active (published and not expired).
    pub fn is_active(&self) -> (r: bool)
        ensures
            r == (*self == DescriptorState::Published),
    {
        match self {
            DescriptorState::Published => true,
            _ => false,
        }
    }
}

/// Strategy for distributing traffic across backend onion service instances.
///
/// Modelled after OnionBalance's load balancing capabilities for
/// distributing traffic across multiple backend `.onion` instances
/// behind a single frontend address.
#[derive(Clone, Copy, Debug, PartialEq, Eq, Structural)]
pub enum LoadBalanceStrategy {
    /// Distribute requests evenly in sequential order.
    RoundRobin,
    /// Route to the backend with the fewest active connections.
    LeastConnections,
    /// Choose a random backend for each request.
    Random,
    /// Round-robin weighted by the `weight` field on each backend.
    WeightedRoundRobin,
}

impl Default for LoadBalanceStrategy {
    fn default() -> (r: Self)
        ensures
            r == LoadBalanceStrategy::RoundRobin,
    {
        LoadBalanceStrategy::RoundRobin
    }
}

impl LoadBalanceStrategy {
    pub open spec fn spec_text(self) -> Seq<char> {
        match self {
            LoadBalanceStrategy::RoundRobin => "round_robin"@,
            LoadBalanceStrategy::LeastConnections => "least_connections"@,
            LoadBalanceStrategy::Random => "random"@,
            LoadBalanceStrategy::WeightedRoundRobin => "weighted_round_robin"@,
        }
    }

    pub fn to_string(&self) -> (r: String)
        ensures
            r@ == self.spec_text(),
    {
        match self {
            LoadBalanceStrategy::RoundRobin => String::from_str("round_robin"),
            LoadBalanceStrategy::LeastConnections => String::from_str("least_connections"),
            LoadBalanceStrategy::Random => String::from_str("random"),
            LoadBalanceStrategy::WeightedRoundRobin => String::from_str("weighted_round_robin"),
        }
    }
}

/// A backend onion service instance behind an OnionBalance frontend.
#[derive(Debug, PartialEq)]
pub struct BackendInstance {
    /// Human-readable name for this backend.
    pub name: String,
    /// The `.onion` address of this backend instance.
    pub onion_address: String,
    /// Relative weight for weighted round-robin (0 = excluded).
    pub weight: u32,
    /// Whether this backend is currently reachable.
    pub healthy: bool,
    /// ISO 8601 timestamp of last successful health check.
    pub last_seen: Option<String>,
}

impl Clone for BackendInstance {
    fn clone(&self) -> (r: Self)
        ensures
            r.name@ == self.name@,
            r.onion_address@ == self.onion_address@,
            r.weight == self.weight,
            r.healthy == self.healthy,
            match (r.last_seen, self.last_seen) {
                (Some(a), Some(b)) => a@ == b@,
                (None, None) => true,
                _ => false,
            },
    {
        BackendInstance {
            name: self.name.clone(),
            onion_address: self.onion_address.clone(),
            weight: self.weight,
            healthy: self.healthy,
            last_seen: match &self.last_seen {
                Some(t) => Some(t.clone()),
                None => None,
            },
        }
    }
}

/// Access control mode for an onion service.
///
/// Tor v3 supports restricting access to a set of authorized clients
/// who hold x25519 keys. `Public` means anyone can connect;
/// `AuthorizedClients` restricts access to pre-shared key holders.
#[derive(Clone, Copy, Debug, PartialEq, Eq, Structural)]
pub enum AccessMode {
    /// Service is accessible to anyone who knows the `.onion` address.
    Public,
    /// Only clients with pre-shared x25519 keys can connect.
    AuthorizedClients,
}

impl Default for AccessMode {
    fn default() -> (r: Self)
        ensures
            r == AccessMode::Public,
    {
        AccessMode::Public
    }
}

impl AccessMode {
    pub open spec fn spec_text(self) -> Seq<char> {
        match self {
            AccessMode::Public => "public"@,
            AccessMode::AuthorizedClients => "authorized_clients"@,
        }
    }

    pub fn to_string(&self) -> (r: String)
        ensures
            r@ == self.spec_text(),
    {
        match self {
            AccessMode::Public => String::from_str("public"),
            AccessMode::AuthorizedClients => String::from_str("authorized_clients"),
        }
    }
}

} // verus!
