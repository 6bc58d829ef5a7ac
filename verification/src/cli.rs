//! The service-starting command of the command-line front end.

use vstd::prelude::*;

use crate::clock::Timestamp;
use crate::error::Error;
use crate::host::{after_set_status, LocalOnionHost};
use crate::model::{OnionServiceView, ServiceConfig, ServiceStatus};
use crate::registry::MemoryRegistry;

verus! {

/// The service that the start command creates: the name followed by
/// `.onion` as its address, stopped, stamped `created_at`.
pub open spec fn started_service(
    name: Seq<char>,
    target: Seq<char>,
    port: u16,
    created_at: Timestamp,
) -> OnionServiceView {
    OnionServiceView {
        name,
        onion_address: name + ".onion"@,
        target_addr: target,
        target_port: port,
        status: ServiceStatus::Stopped,
        created_at,
    }
}

/// Creates a persistent service called `name` on `host`, registers it in
/// `registry` and starts it; returns the status the host then reports.
///
/// The registry keeps the service as it was created (stopped); the host
/// runs it. A name that the host already has, or that the registry already
/// has, is refused with `AlreadyExists`; in the second case the host keeps
/// the service it just created.
pub fn start_command(
    host: &mut LocalOnionHost,
    registry: &mut MemoryRegistry,
    name: String,
    target: String,
    port: u16,
    onion_port: u16,
) -> (r: Result<ServiceStatus, Error>)
    ensures
        old(host)@.contains_key(name@) ==> {
            &&& r matches Err(e) && (e matches Error::AlreadyExists(n) && n@ == name@)
            &&& final(host)@ == old(host)@
            &&& final(registry)@ == old(registry)@
        },
        !old(host)@.contains_key(name@) ==> exists|t: Timestamp| {
            let s = #[trigger] started_service(name@, target@, port, t);
            &&& old(registry)@.contains_key(name@) ==> {
                &&& r matches Err(e) && (e matches Error::AlreadyExists(n) && n@ == name@)
                &&& final(host)@ == old(host)@.insert(name@, s)
                &&& final(registry)@ == old(registry)@
            }
            &&& !old(registry)@.contains_key(name@) ==> {
                &&& r == Ok::<ServiceStatus, Error>(ServiceStatus::Running)
                &&& final(host)@ == old(host)@.insert(name@, s.with_status(ServiceStatus::Running))
                &&& final(registry)@ == old(registry)@.insert(name@, s)
            }
        },
{
    let config = ServiceConfig {
        name: name.clone(),
        target_addr: target,
        target_port: port,
        onion_port,
        persistent: true,
        vanity_prefix: None,
    };
    let svc = match host.create_service(&config) {
        Ok(svc) => svc,
        Err(e) => {
            return Err(e);
        },
    };
    let ghost s = svc@;
    proof {
        assert(s == started_service(name@, config.target_addr@, port, svc.created_at));
    }
    match registry.register(svc) {
        Ok(()) => {},
        Err(e) => {
            return Err(e);
        },
    }
    match host.start_service(name.as_str()) {
        Ok(()) => {},
        Err(e) => {
            return Err(e);
        },
    }
    proof {
        assert(final(host)@ == after_set_status(old(host)@.insert(name@, s), name@, ServiceStatus::Running));
        assert(old(host)@.insert(name@, s).insert(name@, s.with_status(ServiceStatus::Running)) =~= old(host)@.insert(name@, s.with_status(ServiceStatus::Running)));
    }
    host.service_status(name.as_str())
}

} // verus!
