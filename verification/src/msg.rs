//! The commands and queries that callers send.

use vstd::prelude::*;

verus! {

/// Sent once, to set the contract up. It carries nothing.
#[derive(Clone, Copy, Debug, PartialEq, Eq)]
pub struct InstantiateMsg {}

/// A command that may change what is stored or ask the host chain to act.
#[derive(Clone, Debug, PartialEq, Eq)]
pub enum BenchmarkExecuteMsg {
    PushRealEstateToBlockchain { house_address: String },
    ChangeOwnerofRealEstate { house_address: String, owner_name: String },
    AddValidator { validator_addr: String, vault_denom: String },
    StakingDelegate { validator_addr: String, denom: String, amount: u64 },
    StakingUnDelegate { validator_addr: String, denom: String, amount: u64 },
    WithdrawRewards { validator_addr: String },
}

/// A command as plain values.
pub enum ExecuteMsgView {
    PushRealEstateToBlockchain { house_address: Seq<char> },
    ChangeOwnerofRealEstate { house_address: Seq<char>, owner_name: Seq<char> },
    AddValidator { validator_addr: Seq<char>, vault_denom: Seq<char> },
    StakingDelegate { validator_addr: Seq<char>, denom: Seq<char>, amount: u64 },
    StakingUnDelegate { validator_addr: Seq<char>, denom: Seq<char>, amount: u64 },
    WithdrawRewards { validator_addr: Seq<char> },
}

impl View for BenchmarkExecuteMsg {
    type V = ExecuteMsgView;

    open spec fn view(&self) -> ExecuteMsgView {
        match self {
            BenchmarkExecuteMsg::PushRealEstateToBlockchain { house_address } => {
                ExecuteMsgView::PushRealEstateToBlockchain { house_address: house_address@ }
            },
            BenchmarkExecuteMsg::ChangeOwnerofRealEstate { house_address, owner_name } => {
                ExecuteMsgView::ChangeOwnerofRealEstate {
                    house_address: house_address@,
                    owner_name: owner_name@,
                }
            },
            BenchmarkExecuteMsg::AddValidator { validator_addr, vault_denom } => {
                ExecuteMsgView::AddValidator {
                    validator_addr: validator_addr@,
                    vault_denom: vault_denom@,
                }
            },
            BenchmarkExecuteMsg::StakingDelegate { validator_addr, denom, amount } => {
                ExecuteMsgView::StakingDelegate {
                    validator_addr: validator_addr@,
                    denom: denom@,
                    amount: *amount,
                }
            },
            BenchmarkExecuteMsg::StakingUnDelegate { validator_addr, denom, amount } => {
                ExecuteMsgView::StakingUnDelegate {
                    validator_addr: validator_addr@,
                    denom: denom@,
                    amount: *amount,
                }
            },
            BenchmarkExecuteMsg::WithdrawRewards { validator_addr } => {
                ExecuteMsgView::WithdrawRewards { validator_addr: validator_addr@ }
            },
        }
    }
}

/// A question about who owns a house. It changes nothing.
#[derive(Clone, Debug, PartialEq, Eq)]
pub enum BenchmarkQueryMsg {
    FindOwnerByHouseIndex { house_index: u64 },
    FindOwnerByHouseName { house_name: String },
}

/// A query as plain values.
pub enum QueryMsgView {
    FindOwnerByHouseIndex { house_index: u64 },
    FindOwnerByHouseName { house_name: Seq<char> },
}

impl View for BenchmarkQueryMsg {
    type V = QueryMsgView;

    open spec fn view(&self) -> QueryMsgView {
        match self {
            BenchmarkQueryMsg::FindOwnerByHouseIndex { house_index } => {
                QueryMsgView::FindOwnerByHouseIndex { house_index: *house_index }
            },
            BenchmarkQueryMsg::FindOwnerByHouseName { house_name } => {
                QueryMsgView::FindOwnerByHouseName { house_name: house_name@ }
            },
        }
    }
}

} // verus!
