//! In-memory service registry.

use vstd::prelude::*;

use crate::error::Error;
use crate::model::{OnionService, OnionServiceView};
use crate::table::{
    find_service, has_name, lemma_view_absent, lemma_view_at, lemma_view_push, lemma_view_remove,
    names_distinct, table_view, views,
};

verus! {

/// The registry after registering `service`: unchanged when the name is
/// taken, else with the service added under its name.
pub open spec fn after_register(
    m: Map<Seq<char>, OnionServiceView>,
    service: OnionServiceView,
) -> Map<Seq<char>, OnionServiceView> {
    if m.contains_key(service.name) {
        m
    } else {
        m.insert(service.name, service)
    }
}

/// The registry after unregistering `name`.
pub open spec fn after_unregister(
    m: Map<Seq<char>, OnionServiceView>,
    name: Seq<char>,
) -> Map<Seq<char>, OnionServiceView> {
    m.remove(name)
}

/// The service registered under `name`, if any.
pub open spec fn lookup(m: Map<Seq<char>, OnionServiceView>, name: Seq<char>) -> Option<
    OnionServiceView,
> {
    if m.contains_key(name) {
        Some(m[name])
    } else {
        None
    }
}

/// In-memory service registry for testing and development.
pub struct MemoryRegistry {
    entries: Vec<OnionService>,
}

impl View for MemoryRegistry {
    type V = Map<Seq<char>, OnionServiceView>;

    closed spec fn view(&self) -> Map<Seq<char>, OnionServiceView> {
        table_view(views(self.entries@))
    }
}

impl MemoryRegistry {
    #[verifier::type_invariant]
    spec fn unique_names(&self) -> bool {
        names_distinct(views(self.entries@))
    }

    pub fn new() -> (r: Self)
        ensures
            r@ == Map::<Seq<char>, OnionServiceView>::empty(),
    {
        let r = MemoryRegistry { entries: Vec::new() };
        proof {
            assert(views(r.entries@) =~= Seq::<OnionServiceView>::empty());
            assert(table_view(views(r.entries@)) =~= Map::<Seq<char>, OnionServiceView>::empty());
        }
        r
    }

    /// All registered services, each once.
    pub fn list(&self) -> (r: Vec<OnionService>)
        ensures
            names_distinct(views(r@)),
            forall|i: int| 0 <= i < r.len() ==> self@.contains_key(#[trigger] r@[i]@.name)
                && self@[r@[i]@.name] == r@[i]@,
            forall|name: Seq<char>| #[trigger] self@.contains_key(name) ==> has_name(views(r@), name),
    {
        proof {
            use_type_invariant(self);
        }
        let mut out: Vec<OnionService> = Vec::new();
        let mut i: usize = 0;
        while i < self.entries.len()
            invariant
                i <= self.entries.len(),
                names_distinct(views(self.entries@)),
                views(out@) == views(self.entries@).take(i as int),
            decreases self.entries.len() - i,
        {
            let e = self.entries[i].clone();
            let ghost prev = out@;
            out.push(e);
            proof {
                assert(e@ == self.entries@[i as int]@);
                assert(views(out@) =~= views(prev).push(e@));
                assert(views(self.entries@).take(i + 1) =~= views(self.entries@).take(i as int).push(
                    self.entries@[i as int]@,
                ));
            }
            i = i + 1;
        }
        proof {
            let s = views(self.entries@);
            assert(views(out@) =~= s);
            assert forall|j: int| 0 <= j < out.len() implies self@.contains_key(#[trigger] out@[j]@.name)
                && self@[out@[j]@.name] == out@[j]@ by {
                assert(views(out@)[j] == out@[j]@);
                lemma_view_at(s, j);
            }
        }
        out
    }

    pub fn get(&self, name: &str) -> (r: Result<OnionService, Error>)
        ensures
            match r {
                Ok(service) => lookup(self@, name@) == Some(service@),
                Err(e) => lookup(self@, name@) is None && (e matches Error::ServiceNotFound(n) && n@ == name@),
            },
    {
        proof {
            use_type_invariant(self);
        }
        match find_service(&self.entries, name) {
            Some(i) => {
                proof {
                    lemma_view_at(views(self.entries@), i as int);
                }
                Ok(self.entries[i].clone())
            },
            None => {
                proof {
                    lemma_view_absent(views(self.entries@), name@);
                }
                Err(Error::ServiceNotFound(name.to_owned()))
            },
        }
    }

    pub fn register(&mut self, service: OnionService) -> (r: Result<(), Error>)
        ensures
            final(self)@ == after_register(old(self)@, service@),
            r is Ok <==> !old(self)@.contains_key(service@.name),
            r matches Err(e) ==> e matches Error::AlreadyExists(n) && n@ == service@.name,
    {
        proof {
            use_type_invariant(&*self);
        }
        match find_service(&self.entries, service.name.as_str()) {
            Some(i) => {
                proof {
                    lemma_view_at(views(self.entries@), i as int);
                }
                Err(Error::AlreadyExists(service.name))
            },
            None => {
                proof {
                    lemma_view_absent(views(self.entries@), service@.name);
                    lemma_view_push(views(self.entries@), service@);
                    assert(views(self.entries@.push(service)) =~= views(self.entries@).push(service@));
                }
                let mut entries = Vec::new();
                std::mem::swap(&mut entries, &mut self.entries);
                entries.push(service);
                self.entries = entries;
                Ok(())
            },
        }
    }

    pub fn unregister(&mut self, name: &str) -> (r: Result<(), Error>)
        ensures
            final(self)@ == after_unregister(old(self)@, name@),
            r is Ok <==> old(self)@.contains_key(name@),
            r matches Err(e) ==> e matches Error::ServiceNotFound(n) && n@ == name@,
    {
        proof {
            use_type_invariant(&*self);
        }
        match find_service(&self.entries, name) {
            Some(i) => {
                proof {
                    lemma_view_remove(views(self.entries@), i as int);
                    assert(views(self.entries@.remove(i as int)) =~= views(self.entries@).remove(i as int));
                }
                let mut entries = Vec::new();
                std::mem::swap(&mut entries, &mut self.entries);
                entries.remove(i);
                self.entries = entries;
                Ok(())
            },
            None => {
                proof {
                    lemma_view_absent(views(self.entries@), name@);
                    assert(old(self)@.remove(name@) =~= old(self)@);
                }
                Err(Error::ServiceNotFound(name.to_owned()))
            },
        }
    }
}

impl Default for MemoryRegistry {
    fn default() -> (r: Self)
        ensures
            r@ == Map::<Seq<char>, OnionServiceView>::empty(),
    {
        MemoryRegistry::new()
    }
}

// ---------------------------------------------------------------------------
// Laws
// ---------------------------------------------------------------------------

/// A service registered under a free name is what a lookup of that name
/// gives back.
pub proof fn lemma_get_after_register(m: Map<Seq<char>, OnionServiceView>, s: OnionServiceView)
    requires
        !m.contains_key(s.name),
    ensures
        lookup(after_register(m, s), s.name) == Some(s),
{
}

/// Registering under a taken name changes nothing.
pub proof fn lemma_register_taken_unchanged(m: Map<Seq<char>, OnionServiceView>, s: OnionServiceView)
    requires
        m.contains_key(s.name),
    ensures
        after_register(m, s) == m,
{
}

/// Registering one service leaves the lookups of every other name as they
/// were.
pub proof fn lemma_register_keeps_others(
    m: Map<Seq<char>, OnionServiceView>,
    s: OnionServiceView,
    other: Seq<char>,
)
    requires
        other != s.name,
    ensures
        lookup(after_register(m, s), other) == lookup(m, other),
{
}

/// After unregistering a name, a lookup of it finds nothing.
pub proof fn lemma_get_after_unregister(m: Map<Seq<char>, OnionServiceView>, name: Seq<char>)
    ensures
        lookup(after_unregister(m, name), name) is None,
{
}

/// Unregistering a service just registered under a free name restores the
/// registry.
pub proof fn lemma_unregister_undoes_register(m: Map<Seq<char>, OnionServiceView>, s: OnionServiceView)
    requires
        !m.contains_key(s.name),
    ensures
        after_unregister(after_register(m, s), s.name) == m,
{
    assert(m.insert(s.name, s).remove(s.name) =~= m);
}

} // verus!
