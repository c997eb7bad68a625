//! Options of the requests that create things.

use crate::http_client::Method;
use vstd::prelude::*;

pub mod network_create;
pub mod volume_create;

pub use network_create::{Driver as NetworkDriver, Options as NetworkCreateOptions};
pub use volume_create::Options as VolumeCreateOptions;

verus! {

/// What a set of options knows of the request that carries it.
pub trait ShipliftOption {
    /// The endpoint the request goes to.
    spec fn endpoint_path(&self) -> Seq<char>;

    /// The method of the request: options are always posted.
    fn method(&self) -> (method: Method)
        ensures
            method == Method::Post,
    ;

    /// The endpoint the request goes to.
    fn endpoint(&self) -> (endpoint: String)
        ensures
            endpoint@ == self.endpoint_path(),
    ;
}

/// The entries of a set of labels as the map they stand for: a later entry
/// for a key takes the place of an earlier one.
pub open spec fn entries_map(entries: Seq<(String, String)>) -> Map<Seq<char>, Seq<char>>
    decreases entries.len(),
{
    if entries.len() == 0 {
        Map::empty()
    } else {
        entries_map(entries.drop_last()).insert(entries.last().0@, entries.last().1@)
    }
}

/// No key occurs twice.
pub open spec fn distinct_keys(entries: Seq<(String, String)>) -> bool {
    forall|i: int, j: int|
        0 <= i < j < entries.len() ==> (#[trigger] entries[i]).0@ != (#[trigger] entries[j]).0@
}

proof fn lemma_replace_entry(entries: Seq<(String, String)>, i: int, entry: (String, String))
    requires
        0 <= i < entries.len(),
        distinct_keys(entries),
        entries[i].0@ == entry.0@,
    ensures
        entries_map(entries.update(i, entry)) == entries_map(entries).insert(entry.0@, entry.1@),
        distinct_keys(entries.update(i, entry)),
    decreases entries.len(),
{
    let updated = entries.update(i, entry);
    assert forall|a: int, b: int| 0 <= a < b < updated.len() implies (#[trigger] updated[a]).0@ != (
    #[trigger] updated[b]).0@ by {
        assert(entries[a].0@ != entries[b].0@);
    }
    if i == entries.len() - 1 {
        assert(updated.drop_last() =~= entries.drop_last());
        assert(entries_map(updated) =~= entries_map(entries).insert(entry.0@, entry.1@));
    } else {
        let init = entries.drop_last();
        assert(distinct_keys(init)) by {
            assert forall|a: int, b: int| 0 <= a < b < init.len() implies (#[trigger] init[a]).0@
                != (#[trigger] init[b]).0@ by {
                assert(entries[a].0@ != entries[b].0@);
            }
        }
        lemma_replace_entry(init, i, entry);
        assert(updated.drop_last() =~= init.update(i, entry));
        assert(updated.last() == entries.last());
        assert(entries[i].0@ != entries[entries.len() - 1].0@);
        assert(entries_map(updated) =~= entries_map(entries).insert(entry.0@, entry.1@));
    }
}

/// Labels: values by key, each key at most once.
#[derive(Debug)]
pub struct Labels {
    entries: Vec<(String, String)>,
}

impl View for Labels {
    type V = Map<Seq<char>, Seq<char>>;

    closed spec fn view(&self) -> Map<Seq<char>, Seq<char>> {
        entries_map(self.entries@)
    }
}

impl Clone for Labels {
    /// A copy with the same labels.
    fn clone(&self) -> (copy: Labels)
        ensures
            copy@ == self@,
    {
        proof {
            use_type_invariant(self);
        }
        let mut entries: Vec<(String, String)> = Vec::new();
        let mut i: usize = 0;
        while i < self.entries.len()
            invariant
                i <= self.entries.len(),
                entries@ == self.entries@.subrange(0, i as int),
            decreases self.entries.len() - i,
        {
            entries.push((self.entries[i].0.clone(), self.entries[i].1.clone()));
            assert(entries@ =~= self.entries@.subrange(0, i + 1));
            i = i + 1;
        }
        assert(entries@ =~= self.entries@);
        Labels { entries }
    }
}

impl Labels {
    /// No key is held twice.
    #[verifier::type_invariant]
    spec fn keys_are_distinct(self) -> bool {
        distinct_keys(self.entries@)
    }

    /// No labels.
    pub fn new() -> (labels: Labels)
        ensures
            labels@ == Map::<Seq<char>, Seq<char>>::empty(),
    {
        Labels { entries: Vec::new() }
    }

    /// The labels with `key` set to `value`, whether or not it was set
    /// before.
    pub fn insert(self, key: &str, value: &str) -> (labels: Labels)
        ensures
            labels@ == self@.insert(key@, value@),
    {
        proof {
            use_type_invariant(&self);
        }
        let owned_key = key.to_owned();
        let owned_value = value.to_owned();
        let mut entries = self.entries;
        let ghost before = entries@;
        let mut i: usize = 0;
        while i < entries.len()
            invariant
                i <= entries.len(),
                entries@ == before,
                before == self.entries@,
                distinct_keys(before),
                owned_key@ == key@,
                owned_value@ == value@,
                forall|j: int| 0 <= j < i ==> (#[trigger] before[j]).0@ != key@,
            decreases entries.len() - i,
        {
            if entries[i].0 == owned_key {
                let entry = (owned_key, owned_value);
                proof {
                    lemma_replace_entry(before, i as int, entry);
                }
                entries.set(i, entry);
                return Labels { entries };
            }
            i = i + 1;
        }
        assert(before.push((owned_key, owned_value)).drop_last() =~= before);
        entries.push((owned_key, owned_value));
        Labels { entries }
    }

    /// The labels as pairs of key and value, each key once.
    pub fn entries(&self) -> (entries: &Vec<(String, String)>)
        ensures
            distinct_keys(entries@),
            entries_map(entries@) == self@,
    {
        proof {
            use_type_invariant(self);
        }
        &self.entries
    }
}

} // verus!
