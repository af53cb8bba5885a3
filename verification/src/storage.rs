//! What the contract keeps between calls.

use vstd::prelude::*;
use crate::ownership::OwnershipIndex;
use crate::state::{State, StateView};

verus! {

/// The persisted storage of one contract: the registry record, which is
/// absent until the contract is instantiated, and the ownership index.
#[derive(Clone, Debug, PartialEq, Eq)]
pub struct ContractStorage {
    pub state: Option<State>,
    pub owners: OwnershipIndex,
}

/// The storage as plain values.
#[verifier::ext_equal]
pub struct StorageView {
    pub state: Option<StateView>,
    pub owners: Map<(u64, Seq<char>), Seq<char>>,
}

impl View for ContractStorage {
    type V = StorageView;

    open spec fn view(&self) -> StorageView {
        StorageView {
            state: match self.state {
                Some(state) => Some(state@),
                None => None,
            },
            owners: self.owners@,
        }
    }
}

impl StorageView {
    /// Storage in which nothing was written yet.
    pub open spec fn blank() -> StorageView {
        StorageView { state: None, owners: Map::empty() }
    }

    /// The registry record is there and well formed.
    pub open spec fn wf(self) -> bool {
        self.state matches Some(state) && state.wf()
    }
}

impl ContractStorage {
    /// Storage in which nothing was written yet.
    pub fn new() -> (storage: ContractStorage)
        ensures
            storage@ == StorageView::blank(),
    {
        ContractStorage { state: None, owners: OwnershipIndex::new() }
    }
}

} // verus!
