//! Contract storage: a key-value store in which every contract instance
//! sees only the keys under its own prefix.
//!
//! The store is a staging area. The caller fills it from the chain's state
//! before an execution context starts and decides afterwards whether to
//! commit what it holds or to throw it away.

use vstd::prelude::*;
use crate::bytes::{copy, join, same};

verus! {

/// The map that a list of entries stands for: of two entries with one key,
/// the later one counts.
pub open spec fn entries_map(entries: Seq<(Seq<u8>, Seq<u8>)>) -> Map<Seq<u8>, Seq<u8>>
    decreases entries.len(),
{
    if entries.len() == 0 {
        Map::empty()
    } else {
        entries_map(entries.drop_last()).insert(entries.last().0, entries.last().1)
    }
}

/// No key occurs twice.
pub open spec fn distinct_keys(entries: Seq<(Seq<u8>, Seq<u8>)>) -> bool {
    forall|i: int, j: int|
        0 <= i < j < entries.len() ==> (#[trigger] entries[i]).0 != (#[trigger] entries[j]).0
}

/// The entries of a store as plain byte strings.
pub open spec fn plain(entries: Seq<(Vec<u8>, Vec<u8>)>) -> Seq<(Seq<u8>, Seq<u8>)> {
    entries.map_values(|entry: (Vec<u8>, Vec<u8>)| (entry.0@, entry.1@))
}

/// A key is in the map exactly when some entry has it.
proof fn lemma_map_keys(entries: Seq<(Seq<u8>, Seq<u8>)>, key: Seq<u8>)
    ensures
        entries_map(entries).contains_key(key) <==> exists|i: int|
            0 <= i < entries.len() && (#[trigger] entries[i]).0 == key,
    decreases entries.len(),
{
    if entries.len() > 0 {
        let front = entries.drop_last();
        lemma_map_keys(front, key);
        if entries.last().0 == key {
            assert(entries[entries.len() - 1].0 == key);
        } else if entries_map(front).contains_key(key) {
            let i = choose|i: int| 0 <= i < front.len() && (#[trigger] front[i]).0 == key;
            assert(entries[i].0 == key);
        } else {
            assert forall|i: int| 0 <= i < entries.len() implies (#[trigger] entries[i]).0
                != key by {
                if i < front.len() {
                    assert(front[i].0 != key);
                }
            }
        }
    }
}

/// With distinct keys, the map gives each entry's key that entry's value.
proof fn lemma_map_value(entries: Seq<(Seq<u8>, Seq<u8>)>, at: int)
    requires
        distinct_keys(entries),
        0 <= at < entries.len(),
    ensures
        entries_map(entries).contains_key(entries[at].0),
        entries_map(entries)[entries[at].0] == entries[at].1,
    decreases entries.len(),
{
    let front = entries.drop_last();
    if at < entries.len() - 1 {
        assert(entries[at].0 != entries[entries.len() - 1].0);
        assert(distinct_keys(front)) by {
            assert forall|i: int, j: int| 0 <= i < j < front.len() implies (#[trigger] front[i]).0
                != (#[trigger] front[j]).0 by {
                assert(entries[i].0 != entries[j].0);
            }
        }
        lemma_map_value(front, at);
        assert(front[at] == entries[at]);
    }
}

/// Replacing the value of the entry at `at` is an insertion under its key.
proof fn lemma_map_replace(entries: Seq<(Seq<u8>, Seq<u8>)>, at: int, value: Seq<u8>)
    requires
        distinct_keys(entries),
        0 <= at < entries.len(),
    ensures
        distinct_keys(entries.update(at, (entries[at].0, value))),
        entries_map(entries.update(at, (entries[at].0, value))) == entries_map(entries).insert(
            entries[at].0,
            value,
        ),
{
    let key = entries[at].0;
    let after = entries.update(at, (key, value));
    assert(distinct_keys(after)) by {
        assert forall|i: int, j: int| 0 <= i < j < after.len() implies (#[trigger] after[i]).0
            != (#[trigger] after[j]).0 by {
            assert(entries[i].0 != entries[j].0);
        }
    }
    let want = entries_map(entries).insert(key, value);
    assert forall|k: Seq<u8>| entries_map(after).contains_key(k) <==> want.contains_key(k) by {
        lemma_map_keys(after, k);
        lemma_map_keys(entries, k);
        if entries_map(after).contains_key(k) {
            let i = choose|i: int| 0 <= i < after.len() && (#[trigger] after[i]).0 == k;
            assert(entries[i].0 == k);
        }
        if entries_map(entries).contains_key(k) {
            let i = choose|i: int| 0 <= i < entries.len() && (#[trigger] entries[i]).0 == k;
            assert(after[i].0 == k);
        }
        assert(after[at].0 == key);
    }
    assert forall|k: Seq<u8>| entries_map(after).contains_key(k) implies entries_map(after)[k]
        == want[k] by {
        lemma_map_keys(after, k);
        let i = choose|i: int| 0 <= i < after.len() && (#[trigger] after[i]).0 == k;
        lemma_map_value(after, i);
        if i != at {
            lemma_map_value(entries, i);
            assert(entries[i].0 != entries[at].0);
        }
    }
    assert(entries_map(after) =~= want);
}

/// Appending an entry is an insertion; a new key keeps the keys distinct.
proof fn lemma_map_push(entries: Seq<(Seq<u8>, Seq<u8>)>, key: Seq<u8>, value: Seq<u8>)
    requires
        distinct_keys(entries),
        !entries_map(entries).contains_key(key),
    ensures
        distinct_keys(entries.push((key, value))),
        entries_map(entries.push((key, value))) == entries_map(entries).insert(key, value),
{
    let after = entries.push((key, value));
    assert(after.drop_last() =~= entries);
    assert forall|i: int, j: int| 0 <= i < j < after.len() implies (#[trigger] after[i]).0 != (
    #[trigger] after[j]).0 by {
        lemma_map_keys(entries, key);
        if j < entries.len() {
            assert(entries[i].0 != entries[j].0);
        } else {
            assert(entries[i].0 != key);
        }
    }
}

/// Taking out the entry at `at` removes its key from the map.
proof fn lemma_map_remove(entries: Seq<(Seq<u8>, Seq<u8>)>, at: int)
    requires
        distinct_keys(entries),
        0 <= at < entries.len(),
    ensures
        distinct_keys(entries.remove(at)),
        entries_map(entries.remove(at)) == entries_map(entries).remove(entries[at].0),
{
    let key = entries[at].0;
    let after = entries.remove(at);
    assert(distinct_keys(after)) by {
        assert forall|i: int, j: int| 0 <= i < j < after.len() implies (#[trigger] after[i]).0
            != (#[trigger] after[j]).0 by {
            let a = if i < at { i } else { i + 1 };
            let b = if j < at { j } else { j + 1 };
            assert(entries[a].0 != entries[b].0);
        }
    }
    let want = entries_map(entries).remove(key);
    assert forall|k: Seq<u8>| entries_map(after).contains_key(k) <==> want.contains_key(k) by {
        lemma_map_keys(after, k);
        lemma_map_keys(entries, k);
        if entries_map(after).contains_key(k) {
            let i = choose|i: int| 0 <= i < after.len() && (#[trigger] after[i]).0 == k;
            let a = if i < at { i } else { i + 1 };
            assert(entries[a].0 == k);
            if a < at {
                assert(entries[a].0 != entries[at].0);
            } else {
                assert(entries[at].0 != entries[a].0);
            }
        }
        if want.contains_key(k) {
            let a = choose|a: int| 0 <= a < entries.len() && (#[trigger] entries[a]).0 == k;
            let i = if a < at { a } else { a - 1 };
            assert(after[i].0 == k);
        }
    }
    assert forall|k: Seq<u8>| entries_map(after).contains_key(k) implies entries_map(after)[k]
        == want[k] by {
        lemma_map_keys(after, k);
        let i = choose|i: int| 0 <= i < after.len() && (#[trigger] after[i]).0 == k;
        let a = if i < at { i } else { i + 1 };
        lemma_map_value(after, i);
        lemma_map_value(entries, a);
    }
    assert(entries_map(after) =~= want);
}

/// The state of the chain as one contract instance may see and change it.
#[derive(Debug)]
pub struct ContractStorage {
    prefix: Vec<u8>,
    entries: Vec<(Vec<u8>, Vec<u8>)>,
}

impl ContractStorage {
    /// The prefix that sets this contract's keys apart.
    pub closed spec fn prefix(&self) -> Seq<u8> {
        self.prefix@
    }

    /// The whole store: every full key with its value.
    pub closed spec fn view(&self) -> Map<Seq<u8>, Seq<u8>> {
        entries_map(plain(self.entries@))
    }

    /// No key is held twice.
    pub closed spec fn wf(&self) -> bool {
        distinct_keys(plain(self.entries@))
    }

    /// The key under which the store files the contract's `key`.
    pub open spec fn full_key(&self, key: Seq<u8>) -> Seq<u8> {
        self.prefix() + key
    }

    /// What the contract finds under `key`.
    pub open spec fn lookup(&self, key: Seq<u8>) -> Option<Seq<u8>> {
        if self@.contains_key(self.full_key(key)) {
            Some(self@[self.full_key(key)])
        } else {
            None
        }
    }

    /// An empty store for the contract with the given prefix.
    pub fn new(prefix: Vec<u8>) -> (store: ContractStorage)
        ensures
            store.wf(),
            store.prefix() == prefix@,
            store@ == Map::<Seq<u8>, Seq<u8>>::empty(),
    {
        let store = ContractStorage { prefix, entries: Vec::new() };
        proof {
            assert(plain(store.entries@) =~= Seq::empty());
        }
        store
    }

    /// A store for the contract with the given prefix, filled with the
    /// given entries of full keys and values. Of two entries with one key
    /// the later counts.
    pub fn from_entries(prefix: Vec<u8>, entries: Vec<(Vec<u8>, Vec<u8>)>) -> (store:
        ContractStorage)
        ensures
            store.wf(),
            store.prefix() == prefix@,
            store@ == entries_map(plain(entries@)),
    {
        let mut store = ContractStorage::new(prefix);
        let mut i: usize = 0;
        proof {
            assert(plain(entries@).take(0) =~= Seq::empty());
        }
        while i < entries.len()
            invariant
                i <= entries@.len(),
                store.wf(),
                store.prefix() == prefix@,
                store@ == entries_map(plain(entries@).take(i as int)),
            decreases entries@.len() - i,
        {
            proof {
                let upto = plain(entries@).take(i + 1);
                assert(upto.drop_last() =~= plain(entries@).take(i as int));
                assert(upto.last() == (entries@[i as int].0@, entries@[i as int].1@));
            }
            store.put(entries[i].0.as_slice(), entries[i].1.as_slice());
            i = i + 1;
        }
        proof {
            assert(plain(entries@).take(i as int) =~= plain(entries@));
        }
        store
    }

    /// The index of the entry with the given full key.
    fn find(&self, full: &[u8]) -> (found: Option<usize>)
        requires
            self.wf(),
        ensures
            match found {
                Some(at) => at < self.entries@.len() && self.entries@[at as int].0@ == full@,
                None => !self@.contains_key(full@),
            },
    {
        let mut i: usize = 0;
        while i < self.entries.len()
            invariant
                i <= self.entries@.len(),
                forall|j: int| 0 <= j < i ==> (#[trigger] self.entries@[j]).0@ != full@,
            decreases self.entries@.len() - i,
        {
            if same(self.entries[i].0.as_slice(), full) {
                return Some(i);
            }
            i = i + 1;
        }
        proof {
            lemma_map_keys(plain(self.entries@), full@);
            assert forall|j: int| 0 <= j < plain(self.entries@).len() implies (
            #[trigger] plain(self.entries@)[j]).0 != full@ by {
                assert(self.entries@[j].0@ != full@);
            }
        }
        None
    }

    /// Files `value` under the full key `full`.
    fn put(&mut self, full: &[u8], value: &[u8])
        requires
            old(self).wf(),
        ensures
            final(self).wf(),
            final(self).prefix() == old(self).prefix(),
            final(self)@ == old(self)@.insert(full@, value@),
    {
        let ghost before = plain(self.entries@);
        match self.find(full) {
            Some(at) => {
                let key = copy(full);
                self.entries.set(at, (key, copy(value)));
                proof {
                    lemma_map_replace(before, at as int, value@);
                    assert(plain(self.entries@) =~= before.update(
                        at as int,
                        (before[at as int].0, value@),
                    ));
                }
            },
            None => {
                self.entries.push((copy(full), copy(value)));
                proof {
                    lemma_map_push(before, full@, value@);
                    assert(plain(self.entries@) =~= before.push((full@, value@)));
                }
            },
        }
    }

    /// Reads what the contract stored under `key`. A key that was never
    /// written is simply not found.
    pub fn get(&self, key: &[u8]) -> (value: Option<Vec<u8>>)
        requires
            self.wf(),
        ensures
            match self.lookup(key@) {
                Some(bytes) => value is Some && value->Some_0@ == bytes,
                None => value is None,
            },
    {
        let full = join(self.prefix.as_slice(), key);
        match self.find(full.as_slice()) {
            Some(at) => {
                proof {
                    lemma_map_value(plain(self.entries@), at as int);
                }
                Some(copy(self.entries[at].1.as_slice()))
            },
            None => None,
        }
    }

    /// Stores `value` under the contract's `key`. No other key changes.
    pub fn set(&mut self, key: &[u8], value: &[u8])
        requires
            old(self).wf(),
        ensures
            final(self).wf(),
            final(self).prefix() == old(self).prefix(),
            final(self)@ == old(self)@.insert(old(self).full_key(key@), value@),
    {
        let full = join(self.prefix.as_slice(), key);
        self.put(full.as_slice(), value);
    }

    /// Removes the contract's `key`. Removing a key that is not there
    /// changes nothing.
    pub fn remove(&mut self, key: &[u8])
        requires
            old(self).wf(),
        ensures
            final(self).wf(),
            final(self).prefix() == old(self).prefix(),
            final(self)@ == old(self)@.remove(old(self).full_key(key@)),
    {
        let full = join(self.prefix.as_slice(), key);
        let ghost before = plain(self.entries@);
        match self.find(full.as_slice()) {
            Some(at) => {
                self.entries.remove(at);
                proof {
                    lemma_map_remove(before, at as int);
                    assert(plain(self.entries@) =~= before.remove(at as int));
                }
            },
            None => {
                proof {
                    assert(self@ =~= self@.remove(full@));
                }
            },
        }
    }

    /// Gives up the store: every full key once, with its value, for the
    /// caller to commit.
    pub fn into_entries(self) -> (entries: Vec<(Vec<u8>, Vec<u8>)>)
        requires
            self.wf(),
        ensures
            distinct_keys(plain(entries@)),
            entries_map(plain(entries@)) == self@,
    {
        self.entries
    }
}

/// Contracts whose prefixes have one length and differ never share a key:
/// what one writes or removes, the other cannot see.
pub proof fn lemma_prefixes_partition(
    prefix: Seq<u8>,
    other: Seq<u8>,
    key: Seq<u8>,
    other_key: Seq<u8>,
)
    requires
        prefix.len() == other.len(),
        prefix != other,
    ensures
        prefix + key != other + other_key,
{
    if prefix + key == other + other_key {
        assert((prefix + key).take(prefix.len() as int) =~= prefix);
        assert((other + other_key).take(other.len() as int) =~= other);
    }
}

} // verus!
