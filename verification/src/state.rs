//! The registry record: an append-only list of numbered addresses.

use vstd::prelude::*;

verus! {

/// The registry record as it is persisted: a counter and the entries, each
/// an index with its address.
#[derive(Clone, Debug, PartialEq, Eq)]
pub struct State {
    pub num_of_real_state: u64,
    pub address_of_real_estate: Vec<(u64, String)>,
}

/// A registry record as plain values.
#[verifier::ext_equal]
pub struct StateView {
    pub count: u64,
    pub entries: Seq<(u64, Seq<char>)>,
}

impl View for State {
    type V = StateView;

    open spec fn view(&self) -> StateView {
        StateView {
            count: self.num_of_real_state,
            entries: Seq::new(
                self.address_of_real_estate@.len(),
                |i: int| (self.address_of_real_estate@[i].0, self.address_of_real_estate@[i].1@),
            ),
        }
    }
}

impl StateView {
    /// The record of a fresh contract.
    pub open spec fn empty() -> StateView {
        StateView { count: 0, entries: Seq::empty() }
    }

    /// Entry `i` holds index `i + 1`, and the counter is the number of entries.
    pub open spec fn wf(self) -> bool {
        &&& self.entries.len() == self.count
        &&& forall|i: int| 0 <= i < self.entries.len() ==> (#[trigger] self.entries[i]).0 == i + 1
    }

    /// Some entry holds `address`.
    pub open spec fn registered(self, address: Seq<char>) -> bool {
        exists|i: int| 0 <= i < self.entries.len() && (#[trigger] self.entries[i]).1 == address
    }

    /// Entry `i` is the first that holds `address`.
    pub open spec fn first_with_address(self, address: Seq<char>, i: int) -> bool {
        &&& 0 <= i < self.entries.len()
        &&& self.entries[i].1 == address
        &&& forall|j: int| 0 <= j < i ==> (#[trigger] self.entries[j]).1 != address
    }

    /// The index of the first entry that holds `address`; 0 where none does.
    pub open spec fn index_of(self, address: Seq<char>) -> u64 {
        if self.registered(address) {
            self.entries[choose|i: int| self.first_with_address(address, i)].0
        } else {
            0
        }
    }

    /// Some entry is numbered `index`.
    pub open spec fn has_index(self, index: u64) -> bool {
        exists|i: int| 0 <= i < self.entries.len() && (#[trigger] self.entries[i]).0 == index
    }

    /// Entry `i` is the first that is numbered `index`.
    pub open spec fn first_with_index(self, index: u64, i: int) -> bool {
        &&& 0 <= i < self.entries.len()
        &&& self.entries[i].0 == index
        &&& forall|j: int| 0 <= j < i ==> (#[trigger] self.entries[j]).0 != index
    }

    /// The address of the first entry numbered `index`.
    pub open spec fn address_at(self, index: u64) -> Option<Seq<char>> {
        if self.has_index(index) {
            Some(self.entries[choose|i: int| self.first_with_index(index, i)].1)
        } else {
            None
        }
    }

    /// The record after one more address was registered.
    pub open spec fn push(self, address: Seq<char>) -> StateView {
        StateView {
            count: (self.count + 1) as u64,
            entries: self.entries.push(((self.count + 1) as u64, address)),
        }
    }

    /// The record after `addresses` were registered, first to last.
    pub open spec fn push_all(self, addresses: Seq<Seq<char>>) -> StateView
        decreases addresses.len(),
    {
        if addresses.len() == 0 {
            self
        } else {
            self.push_all(addresses.drop_last()).push(addresses.last())
        }
    }
}

/// The text that stands for an address that no entry holds.
pub open spec fn not_found_text() -> Seq<char> {
    "Not Found"@
}

impl State {
    /// The record of a fresh contract: no entries, counter 0.
    pub fn new() -> (state: State)
        ensures
            state@ == StateView::empty(),
            state@.wf(),
    {
        let state = State { num_of_real_state: 0, address_of_real_estate: Vec::new() };
        assert(state@.entries =~= Seq::empty());
        state
    }

    /// Registers `address` under the next index and returns that index.
    /// Nothing is checked: an address registered twice gets two indices.
    pub fn register(&mut self, address: String) -> (index: u64)
        requires
            old(self).num_of_real_state < u64::MAX,
        ensures
            final(self)@ == old(self)@.push(address@),
            index == old(self).num_of_real_state + 1,
            old(self)@.wf() ==> final(self)@.wf(),
    {
        self.num_of_real_state = self.num_of_real_state + 1;
        let index: u64 = self.num_of_real_state;
        self.address_of_real_estate.push((index, address));
        assert(self@.entries =~= old(self)@.entries.push((index, address@)));
        index
    }

    /// Where the first entry that holds `address` stands.
    pub fn position_of_address(&self, address: &String) -> (found: Option<usize>)
        ensures
            (match found {
                Some(i) => self@.first_with_address(address@, i as int),
                None => !self@.registered(address@),
            }),
    {
        let mut i: usize = 0;
        while i < self.address_of_real_estate.len()
            invariant
                i <= self.address_of_real_estate@.len(),
                forall|j: int| 0 <= j < i ==> (#[trigger] self@.entries[j]).1 != address@,
            decreases self.address_of_real_estate@.len() - i,
        {
            if self.address_of_real_estate[i].1 == *address {
                return Some(i);
            }
            i = i + 1;
        }
        None
    }

    /// Where the first entry numbered `index` stands.
    pub fn position_of_index(&self, index: u64) -> (found: Option<usize>)
        ensures
            (match found {
                Some(i) => self@.first_with_index(index, i as int),
                None => !self@.has_index(index),
            }),
    {
        let mut i: usize = 0;
        while i < self.address_of_real_estate.len()
            invariant
                i <= self.address_of_real_estate@.len(),
                forall|j: int| 0 <= j < i ==> (#[trigger] self@.entries[j]).0 != index,
            decreases self.address_of_real_estate@.len() - i,
        {
            if self.address_of_real_estate[i].0 == index {
                return Some(i);
            }
            i = i + 1;
        }
        None
    }

    /// The index of the first entry that holds `address`; 0 where none does.
    pub fn find_index_by_address(&self, address: &String) -> (index: u64)
        ensures
            index == self@.index_of(address@),
    {
        match self.position_of_address(address) {
            Some(i) => {
                proof {
                    lemma_first_with_address_unique(self@, address@, i as int);
                }
                self.address_of_real_estate[i].0
            },
            None => 0,
        }
    }

    /// The address of the first entry numbered `index`.
    pub fn lookup_address(&self, index: u64) -> (found: Option<String>)
        ensures
            (match found {
                Some(address) => self@.address_at(index) == Some(address@),
                None => self@.address_at(index) is None,
            }),
    {
        match self.position_of_index(index) {
            Some(i) => {
                proof {
                    lemma_first_with_index_unique(self@, index, i as int);
                }
                Some(self.address_of_real_estate[i].1.clone())
            },
            None => None,
        }
    }

    /// The address of the first entry numbered `index`, or the text
    /// "Not Found" where no entry is.
    pub fn find_address_by_index(&self, index: u64) -> (address: String)
        ensures
            address@ == (match self@.address_at(index) {
                Some(a) => a,
                None => not_found_text(),
            }),
    {
        match self.lookup_address(index) {
            Some(address) => address,
            None => "Not Found".to_owned(),
        }
    }
}

/// Only one entry is the first to hold an address: `index_of` is its index.
pub proof fn lemma_first_with_address_unique(state: StateView, address: Seq<char>, i: int)
    requires
        state.first_with_address(address, i),
    ensures
        state.registered(address),
        (choose|k: int| state.first_with_address(address, k)) == i,
        state.index_of(address) == state.entries[i].0,
{
    let k = choose|k: int| state.first_with_address(address, k);
    assert(state.first_with_address(address, k));
    assert(state.entries[i].1 == address);
    if k < i {
        assert(state.entries[k].1 != address);
    }
    if i < k {
        assert(state.entries[i].1 != address);
    }
}

/// Only one entry is the first to be numbered `index`: `address_at` is its address.
pub proof fn lemma_first_with_index_unique(state: StateView, index: u64, i: int)
    requires
        state.first_with_index(index, i),
    ensures
        state.has_index(index),
        (choose|k: int| state.first_with_index(index, k)) == i,
        state.address_at(index) == Some(state.entries[i].1),
{
    let k = choose|k: int| state.first_with_index(index, k);
    assert(state.first_with_index(index, k));
    assert(state.entries[i].0 == index);
    if k < i {
        assert(state.entries[k].0 != index);
    }
    if i < k {
        assert(state.entries[i].0 != index);
    }
}

/// Among the entries up to `k` that hold `address`, one is the first.
proof fn lemma_first_at_or_before(state: StateView, address: Seq<char>, k: int)
    requires
        0 <= k < state.entries.len(),
        state.entries[k].1 == address,
    ensures
        exists|i: int| state.first_with_address(address, i),
    decreases k,
{
    if forall|j: int| 0 <= j < k ==> (#[trigger] state.entries[j]).1 != address {
        assert(state.first_with_address(address, k));
    } else {
        let j = choose|j: int| 0 <= j < k && (#[trigger] state.entries[j]).1 == address;
        lemma_first_at_or_before(state, address, j);
    }
}

/// A registered address has a first entry, and `index_of` is the index
/// written in that entry.
pub proof fn lemma_index_of_registered(state: StateView, address: Seq<char>) -> (i: int)
    requires
        state.registered(address),
    ensures
        state.first_with_address(address, i),
        state.index_of(address) == state.entries[i].0,
{
    let k = choose|k: int|
        0 <= k < state.entries.len() && (#[trigger] state.entries[k]).1 == address;
    lemma_first_at_or_before(state, address, k);
    let i = choose|i: int| state.first_with_address(address, i);
    lemma_first_with_address_unique(state, address, i);
    i
}

/// In a well-formed record `index_of` is 0 exactly for the addresses that no
/// entry holds, and otherwise names an entry that holds the address.
pub proof fn lemma_index_of_wf(state: StateView, address: Seq<char>)
    requires
        state.wf(),
    ensures
        state.registered(address) <==> state.index_of(address) != 0,
        state.registered(address) ==> {
            &&& 1 <= state.index_of(address) <= state.count
            &&& state.first_with_address(address, state.index_of(address) - 1)
        },
{
    if state.registered(address) {
        let i = lemma_index_of_registered(state, address);
        assert(state.entries[i].0 == i + 1);
    }
}

/// In a well-formed record the entry numbered `k` is entry `k - 1`, and no
/// entry is numbered 0 or above the counter.
pub proof fn lemma_address_at_wf(state: StateView, k: u64)
    requires
        state.wf(),
    ensures
        1 <= k <= state.count ==> state.address_at(k) == Some(state.entries[k - 1].1),
        k == 0 || k > state.count ==> state.address_at(k) is None,
{
    if 1 <= k <= state.count {
        assert(state.entries[k - 1].0 == k);
        assert forall|j: int| 0 <= j < k - 1 implies (#[trigger] state.entries[j]).0 != k by {
            assert(state.entries[j].0 == j + 1);
        }
        assert(state.first_with_index(k, k - 1));
        lemma_first_with_index_unique(state, k, k - 1);
    } else {
        if state.has_index(k) {
            let i = choose|i: int|
                0 <= i < state.entries.len() && (#[trigger] state.entries[i]).0 == k;
            assert(state.entries[i].0 == i + 1);
        }
    }
}

/// Registering keeps a record well formed and leaves the earlier entries as
/// they were.
pub proof fn lemma_push_wf(state: StateView, address: Seq<char>)
    requires
        state.wf(),
        state.count < u64::MAX,
    ensures
        state.push(address).wf(),
        state.push(address).count == state.count + 1,
        state.push(address).entries == state.entries.push(((state.count + 1) as u64, address)),
        state.push(address).address_at((state.count + 1) as u64) == Some(address),
{
    let next = state.push(address);
    assert forall|i: int| 0 <= i < next.entries.len() implies
        (#[trigger] next.entries[i]).0 == i + 1
    by {
        if i < state.entries.len() {
            assert(next.entries[i] == state.entries[i]);
        }
    }
    lemma_address_at_wf(next, (state.count + 1) as u64);
}

/// Registering `n` addresses in a well-formed record with counter `c` gives
/// them the indices `c + 1` to `c + n` in the order in which they came: the
/// record stays well formed, its earlier entries stay, and the entry
/// numbered `c + k` holds the `k`-th of the new addresses.
pub proof fn lemma_registration_order(state: StateView, addresses: Seq<Seq<char>>)
    requires
        state.wf(),
        state.count + addresses.len() <= u64::MAX,
    ensures
        state.push_all(addresses).wf(),
        state.push_all(addresses).count == state.count + addresses.len(),
        state.push_all(addresses).entries.len() == state.count + addresses.len(),
        forall|i: int|
            0 <= i < state.count
                ==> #[trigger] state.push_all(addresses).entries[i] == state.entries[i],
        forall|k: int|
            1 <= k <= addresses.len()
                ==> #[trigger] state.push_all(addresses).entries[state.count + k - 1]
                    == ((state.count + k) as u64, addresses[k - 1]),
        forall|k: int|
            1 <= k <= addresses.len()
                ==> #[trigger] state.push_all(addresses).address_at((state.count + k) as u64)
                    == Some(addresses[k - 1]),
    decreases addresses.len(),
{
    if addresses.len() > 0 {
        let before = state.push_all(addresses.drop_last());
        let after = state.push_all(addresses);
        lemma_registration_order(state, addresses.drop_last());
        lemma_push_wf(before, addresses.last());
        assert(after == before.push(addresses.last()));
        assert forall|i: int| 0 <= i < state.count implies
            #[trigger] after.entries[i] == state.entries[i]
        by {
            assert(after.entries[i] == before.entries[i]);
        }
        assert forall|k: int| 1 <= k <= addresses.len() implies
            #[trigger] after.entries[state.count + k - 1]
                == ((state.count + k) as u64, addresses[k - 1])
        by {
            if k < addresses.len() {
                assert(after.entries[state.count + k - 1] == before.entries[state.count + k - 1]);
                assert(addresses.drop_last()[k - 1] == addresses[k - 1]);
            }
        }
        assert forall|k: int| 1 <= k <= addresses.len() implies
            #[trigger] after.address_at((state.count + k) as u64) == Some(addresses[k - 1])
        by {
            lemma_address_at_wf(after, (state.count + k) as u64);
        }
    }
}

} // verus!
