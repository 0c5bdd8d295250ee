//! The store of managed state: one value per type, registered once, read by many.
//!
//! Types are keyed by name; the caller keeps the values type-erased and downcasts them.

use vstd::prelude::*;

verus! {

/// The map that a sequence of entries describes, later entries winning.
pub open spec fn map_of<V>(entries: Seq<(String, V)>) -> Map<Seq<char>, V>
    decreases entries.len(),
{
    if entries.len() == 0 {
        Map::empty()
    } else {
        map_of(entries.drop_last()).insert(entries.last().0@, entries.last().1)
    }
}

/// The store after an attempt to register `value` under `key`: unchanged where the key is
/// already taken.
pub open spec fn managed_after<V>(m: Map<Seq<char>, V>, key: Seq<char>, value: V) -> Map<Seq<char>, V> {
    if m.contains_key(key) {
        m
    } else {
        m.insert(key, value)
    }
}

/// Type-keyed managed state.
pub struct StateManager<V> {
    entries: Vec<(String, V)>,
}

impl<V> View for StateManager<V> {
    type V = Map<Seq<char>, V>;

    closed spec fn view(&self) -> Map<Seq<char>, V> {
        map_of(self.entries@)
    }
}

proof fn lemma_map_of_index<V>(entries: Seq<(String, V)>, i: int)
    requires
        0 <= i < entries.len(),
        forall|a: int, b: int|
            0 <= a < entries.len() && 0 <= b < entries.len() && a != b ==> entries[a].0@
                != entries[b].0@,
    ensures
        map_of(entries).contains_key(entries[i].0@),
        map_of(entries)[entries[i].0@] == entries[i].1,
    decreases entries.len(),
{
    if i < entries.len() - 1 {
        lemma_map_of_index(entries.drop_last(), i);
        assert(entries[i].0@ != entries.last().0@);
    }
}

proof fn lemma_map_of_keys<V>(entries: Seq<(String, V)>, k: Seq<char>)
    requires
        map_of(entries).contains_key(k),
    ensures
        exists|i: int| 0 <= i < entries.len() && entries[i].0@ == k,
    decreases entries.len(),
{
    if entries.last().0@ != k {
        lemma_map_of_keys(entries.drop_last(), k);
        let i = choose|i: int| 0 <= i < entries.len() - 1 && entries.drop_last()[i].0@ == k;
        assert(entries[i].0@ == k);
    } else {
        assert(entries[entries.len() - 1].0@ == k);
    }
}

impl<V> StateManager<V> {
    /// Keys are unique.
    pub closed spec fn wf(&self) -> bool {
        forall|a: int, b: int|
            0 <= a < self.entries@.len() && 0 <= b < self.entries@.len() && a != b
                ==> self.entries@[a].0@ != self.entries@[b].0@
    }

    /// An empty store.
    pub fn new() -> (r: StateManager<V>)
        ensures
            r.wf(),
            r@ == Map::<Seq<char>, V>::empty(),
    {
        StateManager { entries: Vec::new() }
    }

    fn position(&self, key: &String) -> (r: Option<usize>)
        requires
            self.wf(),
        ensures
            match r {
                Some(i) => i < self.entries@.len() && self.entries@[i as int].0@ == key@,
                None => !self@.contains_key(key@),
            },
    {
        let mut i: usize = 0;
        while i < self.entries.len()
            invariant
                0 <= i <= self.entries@.len(),
                forall|j: int| 0 <= j < i ==> self.entries@[j].0@ != key@,
            decreases self.entries@.len() - i,
        {
            if self.entries[i].0 == *key {
                return Some(i);
            }
            i = i + 1;
        }
        proof {
            if self@.contains_key(key@) {
                lemma_map_of_keys(self.entries@, key@);
            }
        }
        None
    }

    /// Registers `value` under `key`. Returns false, and leaves the store as it was, when a
    /// value is already registered under `key`.
    pub fn set(&mut self, key: String, value: V) -> (r: bool)
        requires
            old(self).wf(),
        ensures
            final(self).wf(),
            r == !old(self)@.contains_key(key@),
            final(self)@ == managed_after(old(self)@, key@, value),
    {
        match self.position(&key) {
            Some(i) => {
                proof {
                    lemma_map_of_index(self.entries@, i as int);
                }
                false
            },
            None => {
                let ghost before = self.entries@;
                self.entries.push((key, value));
                proof {
                    assert(self.entries@.drop_last() =~= before);
                    assert forall|a: int| 0 <= a < before.len() implies before[a].0@ != key@ by {
                        lemma_map_of_index(before, a);
                    }
                }
                true
            },
        }
    }

    /// The value registered under `key`, if any.
    pub fn get(&self, key: &String) -> (r: Option<&V>)
        requires
            self.wf(),
        ensures
            match r {
                Some(v) => self@.contains_key(key@) && self@[key@] == *v,
                None => !self@.contains_key(key@),
            },
    {
        match self.position(key) {
            Some(i) => {
                proof {
                    lemma_map_of_index(self.entries@, i as int);
                }
                Some(&self.entries[i].1)
            },
            None => None,
        }
    }
}

/// State is registered once per type: the first registration under a free key is
/// accepted, a second one under the same key is refused, and the first value stays.
pub proof fn lemma_state_registered_once<V>(
    store: StateManager<V>,
    key: Seq<char>,
    first: V,
    second: V,
)
    requires
        !store@.contains_key(key),
    ensures
        managed_after(store@, key, first)[key] == first,
        managed_after(store@, key, first).contains_key(key),
        managed_after(managed_after(store@, key, first), key, second) == managed_after(
            store@,
            key,
            first,
        ),
{
}

} // verus!
