//! The ownership index: who owns the house that stands in the registry
//! under an index and an address.

use vstd::prelude::*;
use crate::error::RuntimeError;

verus! {

/// One record of the index: the owner of the house under (index, address).
#[derive(Clone, Debug, PartialEq, Eq)]
pub struct OwnershipEntry {
    pub index: u64,
    pub address: String,
    pub owner: String,
}

/// The key of a record, as plain values.
pub open spec fn key_of(entry: OwnershipEntry) -> (u64, Seq<char>) {
    (entry.index, entry.address@)
}

/// No two records have the same key.
pub open spec fn distinct_keys(entries: Seq<OwnershipEntry>) -> bool {
    forall|i: int, j: int|
        0 <= i < j < entries.len()
            ==> key_of(#[trigger] entries[i]) != key_of(#[trigger] entries[j])
}

/// Record `i` has the key `key`.
pub open spec fn holds_key(entries: Seq<OwnershipEntry>, key: (u64, Seq<char>), i: int) -> bool {
    0 <= i < entries.len() && key_of(entries[i]) == key
}

/// The keyed lookup that a list of records stands for.
pub open spec fn as_map(entries: Seq<OwnershipEntry>) -> Map<(u64, Seq<char>), Seq<char>> {
    Map::new(
        |key: (u64, Seq<char>)| exists|i: int| holds_key(entries, key, i),
        |key: (u64, Seq<char>)| entries[choose|i: int| holds_key(entries, key, i)].owner@,
    )
}

/// Where keys are distinct, the lookup gives each record's owner under its key.
pub proof fn lemma_as_map_at(entries: Seq<OwnershipEntry>, i: int)
    requires
        distinct_keys(entries),
        0 <= i < entries.len(),
    ensures
        as_map(entries).contains_key(key_of(entries[i])),
        as_map(entries)[key_of(entries[i])] == entries[i].owner@,
{
    let key = key_of(entries[i]);
    assert(holds_key(entries, key, i));
    let k = choose|k: int| holds_key(entries, key, k);
    assert(holds_key(entries, key, k));
    if k < i {
        assert(key_of(entries[k]) != key_of(entries[i]));
    }
    if i < k {
        assert(key_of(entries[i]) != key_of(entries[k]));
    }
}

/// A record under a new key adds that key to the lookup.
pub proof fn lemma_as_map_push(entries: Seq<OwnershipEntry>, entry: OwnershipEntry)
    requires
        distinct_keys(entries),
        forall|i: int| 0 <= i < entries.len() ==> key_of(#[trigger] entries[i]) != key_of(entry),
    ensures
        distinct_keys(entries.push(entry)),
        as_map(entries.push(entry)) == as_map(entries).insert(key_of(entry), entry.owner@),
{
    let after = entries.push(entry);
    let expected = as_map(entries).insert(key_of(entry), entry.owner@);
    assert(distinct_keys(after)) by {
        assert forall|i: int, j: int| 0 <= i < j < after.len() implies
            key_of(#[trigger] after[i]) != key_of(#[trigger] after[j])
        by {
            assert(after[i] == entries[i]);
            if j < entries.len() {
                assert(after[j] == entries[j]);
            }
        }
    }
    assert forall|key: (u64, Seq<char>)| as_map(after).contains_key(key) implies
        #[trigger] expected.contains_key(key) && expected[key] == as_map(after)[key]
    by {
        let k = choose|k: int| holds_key(after, key, k);
        assert(holds_key(after, key, k));
        lemma_as_map_at(after, k);
        if k < entries.len() {
            assert(after[k] == entries[k]);
            assert(holds_key(entries, key, k));
            lemma_as_map_at(entries, k);
        }
    }
    assert forall|key: (u64, Seq<char>)| expected.contains_key(key) implies
        #[trigger] as_map(after).contains_key(key)
    by {
        if key == key_of(entry) {
            assert(holds_key(after, key, entries.len() as int));
        } else {
            let k = choose|k: int| holds_key(entries, key, k);
            assert(holds_key(entries, key, k));
            assert(after[k] == entries[k]);
            assert(holds_key(after, key, k));
        }
    }
    assert(as_map(after) =~= expected);
}

/// A record that takes the place of one with the same key overwrites the
/// owner under that key.
pub proof fn lemma_as_map_update(entries: Seq<OwnershipEntry>, i: int, entry: OwnershipEntry)
    requires
        distinct_keys(entries),
        0 <= i < entries.len(),
        key_of(entries[i]) == key_of(entry),
    ensures
        distinct_keys(entries.update(i, entry)),
        as_map(entries.update(i, entry)) == as_map(entries).insert(key_of(entry), entry.owner@),
{
    let after = entries.update(i, entry);
    let expected = as_map(entries).insert(key_of(entry), entry.owner@);
    assert forall|k: int| 0 <= k < after.len() implies
        key_of(#[trigger] after[k]) == key_of(entries[k])
    by {}
    assert(distinct_keys(after)) by {
        assert forall|a: int, b: int| 0 <= a < b < after.len() implies
            key_of(#[trigger] after[a]) != key_of(#[trigger] after[b])
        by {
            assert(key_of(entries[a]) != key_of(entries[b]));
        }
    }
    assert forall|key: (u64, Seq<char>)| as_map(after).contains_key(key) implies
        #[trigger] expected.contains_key(key) && expected[key] == as_map(after)[key]
    by {
        let k = choose|k: int| holds_key(after, key, k);
        assert(holds_key(after, key, k));
        lemma_as_map_at(after, k);
        assert(holds_key(entries, key, k));
        lemma_as_map_at(entries, k);
    }
    assert forall|key: (u64, Seq<char>)| expected.contains_key(key) implies
        #[trigger] as_map(after).contains_key(key)
    by {
        if key == key_of(entry) {
            assert(holds_key(after, key, i));
        } else {
            let k = choose|k: int| holds_key(entries, key, k);
            assert(holds_key(entries, key, k));
            assert(holds_key(after, key, k));
        }
    }
    assert(as_map(after) =~= expected);
}

/// A keyed lookup from (index, address) to an owner's name. A key has at
/// most one owner: saving under a key that is there overwrites.
#[derive(Debug, PartialEq, Eq)]
pub struct OwnershipIndex {
    entries: Vec<OwnershipEntry>,
}

impl View for OwnershipIndex {
    type V = Map<(u64, Seq<char>), Seq<char>>;

    closed spec fn view(&self) -> Map<(u64, Seq<char>), Seq<char>> {
        as_map(self.entries@)
    }
}

impl Clone for OwnershipIndex {
    fn clone(&self) -> (copy: OwnershipIndex)
        ensures
            copy@ == self@,
    {
        proof {
            use_type_invariant(self);
        }
        let mut entries: Vec<OwnershipEntry> = Vec::new();
        let mut i: usize = 0;
        while i < self.entries.len()
            invariant
                i <= self.entries@.len(),
                entries@ == self.entries@.take(i as int),
            decreases self.entries@.len() - i,
        {
            let entry = &self.entries[i];
            entries.push(
                OwnershipEntry {
                    index: entry.index,
                    address: entry.address.clone(),
                    owner: entry.owner.clone(),
                },
            );
            assert(entries@ =~= self.entries@.take(i + 1));
            i = i + 1;
        }
        assert(entries@ =~= self.entries@);
        OwnershipIndex { entries }
    }
}

impl OwnershipIndex {
    #[verifier::type_invariant]
    spec fn well_formed(self) -> bool {
        distinct_keys(self.entries@)
    }

    /// The index without any record.
    pub fn new() -> (index: OwnershipIndex)
        ensures
            index@ == Map::<(u64, Seq<char>), Seq<char>>::empty(),
    {
        let index = OwnershipIndex { entries: Vec::new() };
        assert(index@ =~= Map::<(u64, Seq<char>), Seq<char>>::empty()) by {
            assert forall|key: (u64, Seq<char>)| !as_map(index.entries@).contains_key(key) by {
                if as_map(index.entries@).contains_key(key) {
                    let k = choose|k: int| holds_key(index.entries@, key, k);
                    assert(holds_key(index.entries@, key, k));
                }
            }
        }
        index
    }

    /// The records of this index, one for each key.
    pub fn entries(&self) -> (list: &Vec<OwnershipEntry>)
        ensures
            distinct_keys(list@),
            self@ == as_map(list@),
    {
        proof {
            use_type_invariant(self);
        }
        &self.entries
    }

    /// Where the record under (index, address) stands.
    fn position(&self, index: u64, address: &String) -> (found: Option<usize>)
        ensures
            (match found {
                Some(i) => holds_key(self.entries@, (index, address@), i as int),
                None => forall|i: int|
                    0 <= i < self.entries@.len() ==> key_of(#[trigger] self.entries@[i]) != (
                        index,
                        address@,
                    ),
            }),
    {
        let mut i: usize = 0;
        while i < self.entries.len()
            invariant
                i <= self.entries@.len(),
                forall|j: int|
                    0 <= j < i ==> key_of(#[trigger] self.entries@[j]) != (index, address@),
            decreases self.entries@.len() - i,
        {
            if self.entries[i].index == index && self.entries[i].address == *address {
                return Some(i);
            }
            i = i + 1;
        }
        None
    }

    /// Writes `owner` under (index, address), in place of the owner that was
    /// there, if any.
    pub fn save(&mut self, index: u64, address: String, owner: String)
        ensures
            final(self)@ == old(self)@.insert((index, address@), owner@),
    {
        proof {
            use_type_invariant(&*self);
        }
        let found = self.position(index, &address);
        let entry = OwnershipEntry { index, address, owner };
        let mut entries: Vec<OwnershipEntry> = Vec::new();
        std::mem::swap(&mut entries, &mut self.entries);
        match found {
            Some(i) => {
                proof {
                    lemma_as_map_update(entries@, i as int, entry);
                }
                entries.set(i, entry);
            },
            None => {
                proof {
                    lemma_as_map_push(entries@, entry);
                }
                entries.push(entry);
            },
        }
        self.entries = entries;
    }

    /// The owner under (index, address), if one was saved.
    pub fn may_load(&self, index: u64, address: &String) -> (found: Option<String>)
        ensures
            (match found {
                Some(owner) => self@.contains_key((index, address@)) && self@[(index, address@)]
                    == owner@,
                None => !self@.contains_key((index, address@)),
            }),
    {
        proof {
            use_type_invariant(self);
        }
        match self.position(index, address) {
            Some(i) => {
                proof {
                    lemma_as_map_at(self.entries@, i as int);
                }
                Some(self.entries[i].owner.clone())
            },
            None => {
                proof {
                    if self@.contains_key((index, address@)) {
                        let k = choose|k: int| holds_key(self.entries@, (index, address@), k);
                        assert(holds_key(self.entries@, (index, address@), k));
                    }
                }
                None
            },
        }
    }

    /// The owner under (index, address); `OwnerNotFound` where none was saved.
    pub fn load(&self, index: u64, address: &String) -> (found: Result<String, RuntimeError>)
        ensures
            (match found {
                Ok(owner) => self@.contains_key((index, address@)) && self@[(index, address@)]
                    == owner@,
                Err(e) => !self@.contains_key((index, address@)) && e == (
                    RuntimeError::OwnerNotFound {  }),
            }),
    {
        match self.may_load(index, address) {
            Some(owner) => Ok(owner),
            None => Err(RuntimeError::OwnerNotFound {  }),
        }
    }
}

} // verus!
