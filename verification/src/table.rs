//! Services kept in a vector, looked up by name; at most one service per name.

use vstd::prelude::*;

use crate::model::{OnionService, OnionServiceView, ServiceStatus};

verus! {

/// No two services share a name.
pub open spec fn names_distinct(s: Seq<OnionServiceView>) -> bool {
    forall|i: int, j: int| 0 <= i < s.len() && 0 <= j < s.len() && i != j ==> s[i].name != s[j].name
}

/// Whether some service in `s` is called `name`.
pub open spec fn has_name(s: Seq<OnionServiceView>, name: Seq<char>) -> bool {
    exists|i: int| 0 <= i < s.len() && s[i].name == name
}

/// The services of `s`, by name.
pub open spec fn table_view(s: Seq<OnionServiceView>) -> Map<Seq<char>, OnionServiceView> {
    Map::new(
        |name: Seq<char>| has_name(s, name),
        |name: Seq<char>| s[choose|i: int| 0 <= i < s.len() && s[i].name == name],
    )
}

/// The views of a vector of services.
pub open spec fn views(v: Seq<OnionService>) -> Seq<OnionServiceView> {
    v.map_values(|e: OnionService| e@)
}

pub proof fn lemma_view_at(s: Seq<OnionServiceView>, i: int)
    requires
        names_distinct(s),
        0 <= i < s.len(),
    ensures
        table_view(s).contains_key(s[i].name),
        table_view(s)[s[i].name] == s[i],
{
    let name = s[i].name;
    assert(has_name(s, name));
    let j = choose|j: int| 0 <= j < s.len() && s[j].name == name;
    assert(j == i);
}

pub proof fn lemma_view_absent(s: Seq<OnionServiceView>, name: Seq<char>)
    requires
        forall|i: int| 0 <= i < s.len() ==> s[i].name != name,
    ensures
        !table_view(s).contains_key(name),
{
}

pub proof fn lemma_view_push(s: Seq<OnionServiceView>, e: OnionServiceView)
    requires
        names_distinct(s),
        !table_view(s).contains_key(e.name),
    ensures
        names_distinct(s.push(e)),
        table_view(s.push(e)) == table_view(s).insert(e.name, e),
{
    let t = s.push(e);
    assert forall|i: int| 0 <= i < s.len() implies s[i].name != e.name by {
        if s[i].name == e.name {
            assert(has_name(s, e.name));
        }
    }
    assert(names_distinct(t));
    lemma_view_at(t, s.len() as int);
    assert forall|name: Seq<char>| #[trigger] table_view(t).contains_key(name)
        == table_view(s).insert(e.name, e).contains_key(name) by {
        if has_name(t, name) && name != e.name {
            let i = choose|i: int| 0 <= i < t.len() && t[i].name == name;
            assert(s[i] == t[i]);
            assert(has_name(s, name));
        }
        if has_name(s, name) {
            let i = choose|i: int| 0 <= i < s.len() && s[i].name == name;
            assert(t[i] == s[i]);
        }
    }
    assert forall|name: Seq<char>| #[trigger] table_view(t).contains_key(name) implies table_view(t)[name]
        == table_view(s).insert(e.name, e)[name] by {
        if name != e.name {
            let i = choose|i: int| 0 <= i < t.len() && t[i].name == name;
            assert(t[i] == s[i]);
            lemma_view_at(t, i);
            lemma_view_at(s, i);
        }
    }
    assert(table_view(t) =~= table_view(s).insert(e.name, e));
}

pub proof fn lemma_view_update(s: Seq<OnionServiceView>, i: int, e: OnionServiceView)
    requires
        names_distinct(s),
        0 <= i < s.len(),
        e.name == s[i].name,
    ensures
        names_distinct(s.update(i, e)),
        table_view(s.update(i, e)) == table_view(s).insert(e.name, e),
{
    let t = s.update(i, e);
    assert(names_distinct(t));
    lemma_view_at(t, i);
    assert forall|name: Seq<char>| #[trigger] table_view(t).contains_key(name)
        == table_view(s).insert(e.name, e).contains_key(name) by {
        if has_name(t, name) {
            let j = choose|j: int| 0 <= j < t.len() && t[j].name == name;
            assert(s[j].name == t[j].name);
        }
        if has_name(s, name) {
            let j = choose|j: int| 0 <= j < s.len() && s[j].name == name;
            assert(t[j].name == s[j].name);
        }
    }
    assert forall|name: Seq<char>| #[trigger] table_view(t).contains_key(name) implies table_view(t)[name]
        == table_view(s).insert(e.name, e)[name] by {
        if name != e.name {
            let j = choose|j: int| 0 <= j < t.len() && t[j].name == name;
            assert(j != i);
            assert(t[j] == s[j]);
            lemma_view_at(t, j);
            lemma_view_at(s, j);
        }
    }
    assert(table_view(t) =~= table_view(s).insert(e.name, e));
}

pub proof fn lemma_view_remove(s: Seq<OnionServiceView>, i: int)
    requires
        names_distinct(s),
        0 <= i < s.len(),
    ensures
        names_distinct(s.remove(i)),
        table_view(s.remove(i)) == table_view(s).remove(s[i].name),
{
    let t = s.remove(i);
    let gone = s[i].name;
    assert forall|a: int, b: int| 0 <= a < t.len() && 0 <= b < t.len() && a != b implies t[a].name
        != t[b].name by {
        let sa = if a < i { a } else { a + 1 };
        let sb = if b < i { b } else { b + 1 };
        assert(t[a] == s[sa]);
        assert(t[b] == s[sb]);
    }
    assert forall|name: Seq<char>| #[trigger] table_view(t).contains_key(name)
        == table_view(s).remove(gone).contains_key(name) by {
        if has_name(t, name) {
            let j = choose|j: int| 0 <= j < t.len() && t[j].name == name;
            let sj = if j < i { j } else { j + 1 };
            assert(t[j] == s[sj]);
            assert(has_name(s, name));
        }
        if has_name(s, name) && name != gone {
            let j = choose|j: int| 0 <= j < s.len() && s[j].name == name;
            assert(j != i);
            let tj = if j < i { j } else { j - 1 };
            assert(t[tj] == s[j]);
            assert(has_name(t, name));
        }
    }
    assert forall|name: Seq<char>| #[trigger] table_view(t).contains_key(name) implies table_view(t)[name]
        == table_view(s).remove(gone)[name] by {
        let j = choose|j: int| 0 <= j < t.len() && t[j].name == name;
        let sj = if j < i { j } else { j + 1 };
        assert(t[j] == s[sj]);
        lemma_view_at(t, j);
        lemma_view_at(s, sj);
    }
    assert(table_view(t) =~= table_view(s).remove(gone));
}

/// The position of the service called `name`, if any.
pub fn find_service(entries: &Vec<OnionService>, name: &str) -> (r: Option<usize>)
    ensures
        r matches Some(i) ==> i < entries.len() && entries@[i as int]@.name == name@,
        r is None ==> forall|i: int| 0 <= i < entries.len() ==> entries@[i]@.name != name@,
{
    let wanted = name.to_owned();
    let mut i: usize = 0;
    while i < entries.len()
        invariant
            i <= entries.len(),
            wanted@ == name@,
            forall|j: int| 0 <= j < i ==> entries@[j]@.name != name@,
        decreases entries.len() - i,
    {
        if entries[i].name.eq(&wanted) {
            return Some(i);
        }
        i = i + 1;
    }
    None
}

/// Sets the status of the service at position `i`.
pub fn set_status_at(entries: &mut Vec<OnionService>, i: usize, status: ServiceStatus)
    requires
        i < old(entries).len(),
    ensures
        views(final(entries)@) == views(old(entries)@).update(i as int, old(entries)@[i as int]@.with_status(status)),
{
    let mut e = entries[i].clone();
    e.status = status;
    entries.set(i, e);
    proof {
        assert(views(final(entries)@) =~= views(old(entries)@).update(i as int, old(entries)@[i as int]@.with_status(status)));
    }
}

} // verus!
