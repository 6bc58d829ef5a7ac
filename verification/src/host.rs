//! In-memory onion service host.

use vstd::prelude::*;

use crate::clock::Timestamp;
use crate::error::Error;
use crate::model::{OnionService, OnionServiceView, ServiceConfig, ServiceStatus};
use crate::registry::after_register;
use crate::table::{
    find_service, lemma_view_absent, lemma_view_at, lemma_view_push, lemma_view_update,
    names_distinct, set_status_at, table_view, views,
};

verus! {

/// The hosted services after setting the status of `name`; unchanged when
/// no service has that name.
pub open spec fn after_set_status(
    m: Map<Seq<char>, OnionServiceView>,
    name: Seq<char>,
    status: ServiceStatus,
) -> Map<Seq<char>, OnionServiceView> {
    if m.contains_key(name) {
        m.insert(name, m[name].with_status(status))
    } else {
        m
    }
}

/// The status of the service called `name`, if any.
pub open spec fn status_of(m: Map<Seq<char>, OnionServiceView>, name: Seq<char>) -> Option<
    ServiceStatus,
> {
    if m.contains_key(name) {
        Some(m[name].status)
    } else {
        None
    }
}

/// The service that the local host creates for `config` at `created_at`:
/// its address is the name followed by `.onion`, and it starts stopped.
pub open spec fn local_service(config: ServiceConfig, created_at: Timestamp) -> OnionServiceView {
    OnionServiceView {
        name: config.name@,
        onion_address: config.name@ + ".onion"@,
        target_addr: config.target_addr@,
        target_port: config.target_port,
        status: ServiceStatus::Stopped,
        created_at,
    }
}

/// In-memory onion service host for development and testing.
///
/// Manages service state without an actual Tor process.
pub struct LocalOnionHost {
    entries: Vec<OnionService>,
}

impl View for LocalOnionHost {
    type V = Map<Seq<char>, OnionServiceView>;

    closed spec fn view(&self) -> Map<Seq<char>, OnionServiceView> {
        table_view(views(self.entries@))
    }
}

impl LocalOnionHost {
    #[verifier::type_invariant]
    spec fn unique_names(&self) -> bool {
        names_distinct(views(self.entries@))
    }

    pub fn new() -> (r: Self)
        ensures
            r@ == Map::<Seq<char>, OnionServiceView>::empty(),
    {
        let r = LocalOnionHost { entries: Vec::new() };
        proof {
            assert(views(r.entries@) =~= Seq::<OnionServiceView>::empty());
            assert(table_view(views(r.entries@)) =~= Map::<Seq<char>, OnionServiceView>::empty());
        }
        r
    }

    /// Creates the service that `config` describes, stamped `created_at`.
    pub fn create_service_at(&mut self, config: &ServiceConfig, created_at: Timestamp) -> (r: Result<
        OnionService,
        Error,
    >)
        ensures
            final(self)@ == after_register(old(self)@, local_service(*config, created_at)),
            r is Ok <==> !old(self)@.contains_key(config.name@),
            r matches Ok(s) ==> s@ == local_service(*config, created_at),
            r matches Err(e) ==> e matches Error::AlreadyExists(n) && n@ == config.name@,
    {
        proof {
            use_type_invariant(&*self);
        }
        match find_service(&self.entries, config.name.as_str()) {
            Some(i) => {
                proof {
                    lemma_view_at(views(self.entries@), i as int);
                }
                Err(Error::AlreadyExists(config.name.clone()))
            },
            None => {
                let mut onion_address = config.name.clone();
                onion_address.append(".onion");
                let service = OnionService {
                    name: config.name.clone(),
                    onion_address,
                    target_addr: config.target_addr.clone(),
                    target_port: config.target_port,
                    status: ServiceStatus::Stopped,
                    created_at,
                };
                proof {
                    lemma_view_absent(views(self.entries@), service@.name);
                    lemma_view_push(views(self.entries@), service@);
                    assert(views(self.entries@.push(service)) =~= views(self.entries@).push(service@));
                }
                let result = service.clone();
                let mut entries = Vec::new();
                std::mem::swap(&mut entries, &mut self.entries);
                entries.push(service);
                self.entries = entries;
                Ok(result)
            },
        }
    }

    /// Creates the service that `config` describes, stamped with the current
    /// time.
    pub fn create_service(&mut self, config: &ServiceConfig) -> (r: Result<OnionService, Error>)
        ensures
            r is Ok <==> !old(self)@.contains_key(config.name@),
            r matches Ok(s) ==> s@ == local_service(*config, s.created_at) && final(self)@ == after_register(
                old(self)@,
                s@,
            ),
            r matches Err(e) ==> final(self)@ == old(self)@ && (e matches Error::AlreadyExists(n) && n@
                == config.name@),
    {
        self.create_service_at(config, Timestamp::now())
    }

    fn set_status(&mut self, name: &str, status: ServiceStatus) -> (r: Result<(), Error>)
        ensures
            final(self)@ == after_set_status(old(self)@, name@, status),
            r is Ok <==> old(self)@.contains_key(name@),
            r matches Err(e) ==> e matches Error::ServiceNotFound(n) && n@ == name@,
    {
        proof {
            use_type_invariant(&*self);
        }
        match find_service(&self.entries, name) {
            Some(i) => {
                let ghost s = views(self.entries@);
                proof {
                    lemma_view_at(s, i as int);
                    lemma_view_update(s, i as int, s[i as int].with_status(status));
                }
                let mut entries = Vec::new();
                std::mem::swap(&mut entries, &mut self.entries);
                set_status_at(&mut entries, i, status);
                self.entries = entries;
                Ok(())
            },
            None => {
                proof {
                    lemma_view_absent(views(self.entries@), name@);
                }
                Err(Error::ServiceNotFound(name.to_owned()))
            },
        }
    }

    pub fn start_service(&mut self, name: &str) -> (r: Result<(), Error>)
        ensures
            final(self)@ == after_set_status(old(self)@, name@, ServiceStatus::Running),
            r is Ok <==> old(self)@.contains_key(name@),
            r matches Err(e) ==> e matches Error::ServiceNotFound(n) && n@ == name@,
    {
        self.set_status(name, ServiceStatus::Running)
    }

    pub fn stop_service(&mut self, name: &str) -> (r: Result<(), Error>)
        ensures
            final(self)@ == after_set_status(old(self)@, name@, ServiceStatus::Stopped),
            r is Ok <==> old(self)@.contains_key(name@),
            r matches Err(e) ==> e matches Error::ServiceNotFound(n) && n@ == name@,
    {
        self.set_status(name, ServiceStatus::Stopped)
    }

    pub fn service_status(&self, name: &str) -> (r: Result<ServiceStatus, Error>)
        ensures
            match r {
                Ok(status) => status_of(self@, name@) == Some(status),
                Err(e) => status_of(self@, name@) is None && (e matches Error::ServiceNotFound(n) && n@
                    == name@),
            },
    {
        proof {
            use_type_invariant(self);
        }
        match find_service(&self.entries, name) {
            Some(i) => {
                proof {
                    lemma_view_at(views(self.entries@), i as int);
                }
                Ok(self.entries[i].status)
            },
            None => {
                proof {
                    lemma_view_absent(views(self.entries@), name@);
                }
                Err(Error::ServiceNotFound(name.to_owned()))
            },
        }
    }
}

impl Default for LocalOnionHost {
    fn default() -> (r: Self)
        ensures
            r@ == Map::<Seq<char>, OnionServiceView>::empty(),
    {
        LocalOnionHost::new()
    }
}

// ---------------------------------------------------------------------------
// Laws
// ---------------------------------------------------------------------------

/// A service created under a free name starts stopped.
pub proof fn lemma_created_service_is_stopped(m: Map<Seq<char>, OnionServiceView>, s: OnionServiceView)
    requires
        !m.contains_key(s.name),
        s.status == ServiceStatus::Stopped,
    ensures
        status_of(after_register(m, s), s.name) == Some(ServiceStatus::Stopped),
{
}

/// After a status is set on a hosted service, that is the status it reports.
pub proof fn lemma_status_after_set(
    m: Map<Seq<char>, OnionServiceView>,
    name: Seq<char>,
    status: ServiceStatus,
)
    requires
        m.contains_key(name),
    ensures
        status_of(after_set_status(m, name, status), name) == Some(status),
{
}

/// Setting the same status twice is setting it once (starting a running
/// service keeps it running).
pub proof fn lemma_set_status_idempotent(
    m: Map<Seq<char>, OnionServiceView>,
    name: Seq<char>,
    status: ServiceStatus,
)
    ensures
        after_set_status(after_set_status(m, name, status), name, status) == after_set_status(
            m,
            name,
            status,
        ),
{
    if m.contains_key(name) {
        let once = after_set_status(m, name, status);
        assert(once[name].with_status(status) == once[name]);
        assert(once.insert(name, once[name]) =~= once);
    }
}

/// Starting then stopping a service leaves it as stopping it alone would.
pub proof fn lemma_stop_after_start(m: Map<Seq<char>, OnionServiceView>, name: Seq<char>)
    ensures
        after_set_status(after_set_status(m, name, ServiceStatus::Running), name, ServiceStatus::Stopped)
            == after_set_status(m, name, ServiceStatus::Stopped),
{
    if m.contains_key(name) {
        let running = after_set_status(m, name, ServiceStatus::Running);
        assert(running[name].with_status(ServiceStatus::Stopped) == m[name].with_status(
            ServiceStatus::Stopped,
        ));
        assert(running.insert(name, running[name].with_status(ServiceStatus::Stopped)) =~= m.insert(
            name,
            m[name].with_status(ServiceStatus::Stopped),
        ));
    }
}

/// Setting a status changes no other service, and hosts the same names.
pub proof fn lemma_set_status_keeps_others(
    m: Map<Seq<char>, OnionServiceView>,
    name: Seq<char>,
    status: ServiceStatus,
    other: Seq<char>,
)
    requires
        other != name,
    ensures
        after_set_status(m, name, status).dom() == m.dom(),
        after_set_status(m, name, status).contains_key(other) ==> after_set_status(m, name, status)[other]
            == m[other],
{
    if m.contains_key(name) {
        assert(m.insert(name, m[name].with_status(status)).dom() =~= m.dom());
    }
}

/// A status change on a name that is not hosted changes nothing.
pub proof fn lemma_set_status_missing_unchanged(
    m: Map<Seq<char>, OnionServiceView>,
    name: Seq<char>,
    status: ServiceStatus,
)
    requires
        !m.contains_key(name),
    ensures
        after_set_status(m, name, status) == m,
        status_of(m, name) is None,
{
}

} // verus!
