//! Onion service hosting: service registry, local and key-backed hosts,
//! v3 `.onion` address derivation and vanity address search.

pub mod cli;
pub mod clock;
pub mod error;
pub mod host;
pub mod model;
pub mod onion;
pub mod persistence;
pub mod registry;
mod table;
pub mod tor_host;
pub mod vanity;

pub use clock::Timestamp;
pub use error::{Error, Result};
pub use host::LocalOnionHost;
pub use model::{
    AccessMode, BackendInstance, DescriptorState, KeyType, LoadBalanceStrategy, OnionService,
    OnionServiceView, ServiceConfig, ServiceStatus, VanityResult,
};
pub use persistence::ServiceRecord;
pub use registry::MemoryRegistry;
pub use tor_host::TorOnionHost;
pub use vanity::VanityGenerator;
