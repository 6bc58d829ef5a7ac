use std::path::PathBuf;
use std::time::Duration;

use kakureyado::{
    AccessMode, DescriptorState, Error, KeyType, LoadBalanceStrategy, ServiceStatus, VanityResult,
};

#[test]
fn service_status_display() {
    assert_eq!(ServiceStatus::Stopped.to_string(), "stopped");
    assert_eq!(ServiceStatus::Starting.to_string(), "starting");
    assert_eq!(ServiceStatus::Running.to_string(), "running");
    assert_eq!(ServiceStatus::Error.to_string(), "error");
}

#[test]
fn error_display_variants() {
    assert_eq!(
        Error::ServiceNotFound("web".into()).to_string(),
        "service not found: web"
    );
    assert_eq!(
        Error::AlreadyExists("web".into()).to_string(),
        "service already exists: web"
    );
    assert_eq!(
        Error::BootstrapFailed("timeout".into()).to_string(),
        "tor bootstrap failed: timeout"
    );
    assert_eq!(
        Error::Config("bad yaml".into()).to_string(),
        "config error: bad yaml"
    );
}

#[test]
fn error_partial_eq() {
    assert_eq!(
        Error::ServiceNotFound("a".into()),
        Error::ServiceNotFound("a".into())
    );
    assert_ne!(
        Error::ServiceNotFound("a".into()),
        Error::AlreadyExists("a".into())
    );
    assert_eq!(
        Error::VanityTimeout(Duration::from_secs(10)),
        Error::VanityTimeout(Duration::from_secs(10))
    );
}

#[test]
fn error_is_retryable() {
    assert!(Error::BootstrapFailed("fail".into()).is_retryable());
    assert!(Error::VanityTimeout(Duration::from_secs(10)).is_retryable());
    assert!(!Error::ServiceNotFound("web".into()).is_retryable());
    assert!(!Error::AlreadyExists("web".into()).is_retryable());
    assert!(!Error::Config("bad".into()).is_retryable());
}

#[test]
fn vanity_result_eq() {
    let a = VanityResult {
        address: "abc.onion".into(),
        keypair_path: PathBuf::from("memory"),
        attempts: 100,
        duration: Duration::from_secs(1),
    };
    let b = a.clone();
    assert_eq!(a, b);
}

#[test]
fn key_type_display() {
    assert_eq!(KeyType::Identity.to_string(), "identity");
    assert_eq!(KeyType::DescriptorSigning.to_string(), "descriptor_signing");
    assert_eq!(KeyType::IntroPointAuth.to_string(), "intro_point_auth");
}

#[test]
fn key_type_eq() {
    assert_eq!(KeyType::Identity, KeyType::Identity);
    assert_ne!(KeyType::Identity, KeyType::DescriptorSigning);
    assert_ne!(KeyType::DescriptorSigning, KeyType::IntroPointAuth);
}

#[test]
fn descriptor_state_default_is_unpublished() {
    assert_eq!(DescriptorState::default(), DescriptorState::Unpublished);
}

#[test]
fn descriptor_state_display() {
    assert_eq!(DescriptorState::Unpublished.to_string(), "unpublished");
    assert_eq!(DescriptorState::Publishing.to_string(), "publishing");
    assert_eq!(DescriptorState::Published.to_string(), "published");
    assert_eq!(DescriptorState::Expired.to_string(), "expired");
    assert_eq!(DescriptorState::Failed.to_string(), "failed");
}

#[test]
fn descriptor_state_is_active() {
    assert!(!DescriptorState::Unpublished.is_active());
    assert!(!DescriptorState::Publishing.is_active());
    assert!(DescriptorState::Published.is_active());
    assert!(!DescriptorState::Expired.is_active());
    assert!(!DescriptorState::Failed.is_active());
}

#[test]
fn load_balance_strategy_default_is_round_robin() {
    assert_eq!(
        LoadBalanceStrategy::default(),
        LoadBalanceStrategy::RoundRobin
    );
}

#[test]
fn load_balance_strategy_display() {
    assert_eq!(LoadBalanceStrategy::RoundRobin.to_string(), "round_robin");
    assert_eq!(
        LoadBalanceStrategy::LeastConnections.to_string(),
        "least_connections"
    );
    assert_eq!(LoadBalanceStrategy::Random.to_string(), "random");
    assert_eq!(
        LoadBalanceStrategy::WeightedRoundRobin.to_string(),
        "weighted_round_robin"
    );
}

#[test]
fn access_mode_default_is_public() {
    assert_eq!(AccessMode::default(), AccessMode::Public);
}

#[test]
fn access_mode_display() {
    assert_eq!(AccessMode::Public.to_string(), "public");
    assert_eq!(
        AccessMode::AuthorizedClients.to_string(),
        "authorized_clients"
    );
}

#[test]
fn access_mode_eq() {
    assert_eq!(AccessMode::Public, AccessMode::Public);
    assert_ne!(AccessMode::Public, AccessMode::AuthorizedClients);
}

// -- further cases ----------------------------------------------------------

#[test]
fn error_partial_eq_compares_payloads() {
    assert_ne!(
        Error::Config("a".into()),
        Error::Config("b".into())
    );
    assert_ne!(
        Error::VanityTimeout(Duration::from_secs(1)),
        Error::VanityTimeout(Duration::from_secs(2))
    );
    assert_eq!(
        Error::Io(std::io::ErrorKind::NotFound),
        Error::Io(std::io::ErrorKind::NotFound)
    );
    assert_ne!(
        Error::Io(std::io::ErrorKind::NotFound),
        Error::Io(std::io::ErrorKind::PermissionDenied)
    );
    assert_ne!(
        Error::BootstrapFailed("x".into()),
        Error::Config("x".into())
    );
}

#[test]
fn io_error_is_retryable() {
    assert!(Error::Io(std::io::ErrorKind::TimedOut).is_retryable());
}

#[test]
fn timeout_message_names_the_duration() {
    assert_eq!(
        Error::VanityTimeout(Duration::from_secs(10)).to_string(),
        "vanity generation timed out after 10s"
    );
}

#[test]
fn io_error_message() {
    let text = Error::Io(std::io::ErrorKind::NotFound).to_string();
    assert_eq!(text, std::io::ErrorKind::NotFound.to_string());
}
