//! Onion service host whose services carry real ed25519 key pairs.

use vstd::prelude::*;

use crate::clock::Timestamp;
use crate::error::Error;
use crate::host::{after_set_status, status_of};
use crate::model::{OnionService, OnionServiceView, ServiceConfig, ServiceStatus};
use crate::onion::{
    ed25519_public_key, generate_onion_identity, is_key_address, onion_address_of_secret,
    onion_address_text,
};
use crate::registry::after_register;
use crate::table::{
    find_service, lemma_view_absent, lemma_view_at, lemma_view_push, lemma_view_update,
    names_distinct, set_status_at, table_view, views,
};

verus! {

/// The service that the key-backed host creates for `config`, with the
/// address of its key and stamped `created_at`; it starts stopped.
pub open spec fn keyed_service(
    config: ServiceConfig,
    onion_address: Seq<char>,
    created_at: Timestamp,
) -> OnionServiceView {
    OnionServiceView {
        name: config.name@,
        onion_address,
        target_addr: config.target_addr@,
        target_port: config.target_port,
        status: ServiceStatus::Stopped,
        created_at,
    }
}

/// Every hosted service has the address of an ed25519 key.
pub open spec fn all_key_addresses(m: Map<Seq<char>, OnionServiceView>) -> bool {
    forall|name: Seq<char>| #[trigger] m.contains_key(name) ==> is_key_address(m[name].onion_address)
}

/// Tor-backed onion service host: each service gets a fresh ed25519 key pair,
/// and its `.onion` address is derived from the public key.
#[derive(Debug)]
pub struct TorOnionHost {
    entries: Vec<OnionService>,
    signing_keys: Vec<[u8; 32]>,
}

impl View for TorOnionHost {
    type V = Map<Seq<char>, OnionServiceView>;

    closed spec fn view(&self) -> Map<Seq<char>, OnionServiceView> {
        table_view(views(self.entries@))
    }
}

impl TorOnionHost {
    #[verifier::type_invariant]
    spec fn keys_match(&self) -> bool {
        &&& names_distinct(views(self.entries@))
        &&& self.signing_keys@.len() == self.entries@.len()
        &&& forall|i: int|
            0 <= i < self.entries@.len() ==> {
                &&& ed25519_public_key(#[trigger] self.signing_keys@[i]@).len() == 32
                &&& self.entries@[i]@.onion_address == onion_address_of_secret(self.signing_keys@[i]@)
            }
    }

    proof fn lemma_all_key_addresses(&self)
        requires
            self.keys_match(),
        ensures
            all_key_addresses(self@),
    {
        let s = views(self.entries@);
        assert forall|name: Seq<char>| #[trigger] self@.contains_key(name) implies is_key_address(
            self@[name].onion_address,
        ) by {
            let i = choose|i: int| 0 <= i < s.len() && s[i].name == name;
            lemma_view_at(s, i);
            assert(s[i] == self.entries@[i]@);
            let pk = ed25519_public_key(self.signing_keys@[i]@);
            assert(pk.len() == 32 && self@[name].onion_address == onion_address_text(pk));
        }
    }

    pub fn new() -> (r: Self)
        ensures
            r@ == Map::<Seq<char>, OnionServiceView>::empty(),
    {
        let r = TorOnionHost { entries: Vec::new(), signing_keys: Vec::new() };
        proof {
            assert(views(r.entries@) =~= Seq::<OnionServiceView>::empty());
            assert(table_view(views(r.entries@)) =~= Map::<Seq<char>, OnionServiceView>::empty());
        }
        r
    }

    /// Creates the service that `config` describes, with a fresh key pair.
    pub fn create_service(&mut self, config: &ServiceConfig) -> (r: Result<OnionService, Error>)
        ensures
            r is Ok <==> !old(self)@.contains_key(config.name@),
            r matches Ok(s) ==> {
                &&& s@ == keyed_service(*config, s@.onion_address, s.created_at)
                &&& is_key_address(s@.onion_address)
                &&& final(self)@ == after_register(old(self)@, s@)
            },
            r matches Err(e) ==> final(self)@ == old(self)@ && (e matches Error::AlreadyExists(n) && n@
                == config.name@),
            all_key_addresses(final(self)@),
    {
        proof {
            use_type_invariant(&*self);
            self.lemma_all_key_addresses();
        }
        match find_service(&self.entries, config.name.as_str()) {
            Some(i) => {
                proof {
                    lemma_view_at(views(self.entries@), i as int);
                }
                Err(Error::AlreadyExists(config.name.clone()))
            },
            None => {
                let (secret, onion_address) = generate_onion_identity();
                let service = OnionService {
                    name: config.name.clone(),
                    onion_address,
                    target_addr: config.target_addr.clone(),
                    target_port: config.target_port,
                    status: ServiceStatus::Stopped,
                    created_at: Timestamp::now(),
                };
                proof {
                    lemma_view_absent(views(self.entries@), service@.name);
                    lemma_view_push(views(self.entries@), service@);
                    assert(views(self.entries@.push(service)) =~= views(self.entries@).push(service@));
                    let pk = ed25519_public_key(secret@);
                    assert(pk.len() == 32 && service@.onion_address == onion_address_text(pk));
                }
                let result = service.clone();
                let mut taken = TorOnionHost::new();
                std::mem::swap(&mut taken, self);
                let TorOnionHost { mut entries, signing_keys: mut keys } = taken;
                entries.push(service);
                keys.push(secret);
                proof {
                    assert forall|j: int| 0 <= j < entries@.len() implies {
                        &&& ed25519_public_key(#[trigger] keys@[j]@).len() == 32
                        &&& entries@[j]@.onion_address == onion_address_of_secret(keys@[j]@)
                    } by {
                        if j < old(self).entries@.len() {
                            assert(keys@[j] == old(self).signing_keys@[j]);
                            assert(entries@[j] == old(self).entries@[j]);
                        }
                    }
                }
                *self = TorOnionHost { entries, signing_keys: keys };
                proof {
                    self.lemma_all_key_addresses();
                }
                Ok(result)
            },
        }
    }

    fn set_status(&mut self, name: &str, status: ServiceStatus) -> (r: Result<(), Error>)
        ensures
            final(self)@ == after_set_status(old(self)@, name@, status),
            r is Ok <==> old(self)@.contains_key(name@),
            r matches Err(e) ==> e matches Error::ServiceNotFound(n) && n@ == name@,
            all_key_addresses(final(self)@),
    {
        proof {
            use_type_invariant(&*self);
            self.lemma_all_key_addresses();
        }
        match find_service(&self.entries, name) {
            Some(i) => {
                let ghost s = views(self.entries@);
                proof {
                    lemma_view_at(s, i as int);
                    lemma_view_update(s, i as int, s[i as int].with_status(status));
                }
                let mut taken = TorOnionHost::new();
                std::mem::swap(&mut taken, self);
                let TorOnionHost { mut entries, signing_keys } = taken;
                set_status_at(&mut entries, i, status);
                proof {
                    assert forall|j: int| 0 <= j < entries@.len() implies entries@[j]@.onion_address
                        == old(self).entries@[j]@.onion_address by {
                        assert(views(entries@)[j] == entries@[j]@);
                        assert(views(old(self).entries@)[j] == old(self).entries@[j]@);
                    }
                }
                *self = TorOnionHost { entries, signing_keys };
                proof {
                    self.lemma_all_key_addresses();
                }
                Ok(())
            },
            None => {
                proof {
                    lemma_view_absent(views(self.entries@), name@);
                }
                Err(Error::ServiceNotFound(name.to_owned()))
            },
        }
    }

    pub fn start_service(&mut self, name: &str) -> (r: Result<(), Error>)
        ensures
            final(self)@ == after_set_status(old(self)@, name@, ServiceStatus::Running),
            r is Ok <==> old(self)@.contains_key(name@),
            r matches Err(e) ==> e matches Error::ServiceNotFound(n) && n@ == name@,
            all_key_addresses(final(self)@),
    {
        self.set_status(name, ServiceStatus::Running)
    }

    pub fn stop_service(&mut self, name: &str) -> (r: Result<(), Error>)
        ensures
            final(self)@ == after_set_status(old(self)@, name@, ServiceStatus::Stopped),
            r is Ok <==> old(self)@.contains_key(name@),
            r matches Err(e) ==> e matches Error::ServiceNotFound(n) && n@ == name@,
            all_key_addresses(final(self)@),
    {
        self.set_status(name, ServiceStatus::Stopped)
    }

    pub fn service_status(&self, name: &str) -> (r: Result<ServiceStatus, Error>)
        ensures
            match r {
                Ok(status) => status_of(self@, name@) == Some(status),
                Err(e) => status_of(self@, name@) is None && (e matches Error::ServiceNotFound(n) && n@
                    == name@),
            },
    {
        proof {
            use_type_invariant(self);
        }
        match find_service(&self.entries, name) {
            Some(i) => {
                proof {
                    lemma_view_at(views(self.entries@), i as int);
                }
                Ok(self.entries[i].status)
            },
            None => {
                proof {
                    lemma_view_absent(views(self.entries@), name@);
                }
                Err(Error::ServiceNotFound(name.to_owned()))
            },
        }
    }

    /// The secret key of the service called `name`, if any; the service's
    /// address is the address of that key.
    pub fn signing_key(&self, name: &str) -> (r: Option<[u8; 32]>)
        ensures
            r is Some <==> self@.contains_key(name@),
            r matches Some(k) ==> self@[name@].onion_address == onion_address_of_secret(k@),
    {
        proof {
            use_type_invariant(self);
        }
        match find_service(&self.entries, name) {
            Some(i) => {
                proof {
                    lemma_view_at(views(self.entries@), i as int);
                }
                Some(self.signing_keys[i])
            },
            None => {
                proof {
                    lemma_view_absent(views(self.entries@), name@);
                }
                None
            },
        }
    }
}

impl Default for TorOnionHost {
    fn default() -> (r: Self)
        ensures
            r@ == Map::<Seq<char>, OnionServiceView>::empty(),
    {
        TorOnionHost::new()
    }
}

} // verus!
