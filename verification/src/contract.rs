//! The entry points of the contract and the handlers behind them.
//!
//! A handler works on the contract's storage and on what the host chain
//! handed in with the call; it answers with a response for the host, or with
//! the error that rejects the call. A rejected call leaves storage as it was.

use vstd::prelude::*;
use crate::encoding::{encode_owner, to_binary_bytes};
use crate::error::{ContractError, RuntimeError};
use crate::msg::{
    BenchmarkExecuteMsg,
    BenchmarkQueryMsg,
    ExecuteMsgView,
    InstantiateMsg,
    QueryMsgView,
};
use crate::response::{
    Coin,
    CoinView,
    MessageInfo,
    ProtocolMsg,
    ProtocolMsgView,
    Response,
    ResponseView,
    MIN_STAKE,
};
use crate::state::{lemma_address_at_wf, lemma_index_of_wf, State, StateView};
use crate::storage::{ContractStorage, StorageView};

verus! {

/// How a command ends: the storage it leaves, and its answer.
#[verifier::ext_equal]
pub struct Outcome {
    pub storage: StorageView,
    pub result: Result<ResponseView, ContractError>,
}

/// An answer as plain values.
pub open spec fn result_view(
    result: Result<Response, ContractError>,
) -> Result<ResponseView, ContractError> {
    match result {
        Ok(response) => Ok(response@),
        Err(e) => Err(e),
    }
}

/// The response of a successful `instantiate`.
pub open spec fn instantiate_response() -> ResponseView {
    ResponseView::empty().add_attribute("method"@, "instantiate"@)
}

/// Instantiation writes the empty registry record and touches nothing else.
pub open spec fn instantiate_outcome(before: StorageView) -> Outcome {
    Outcome {
        storage: StorageView { state: Some(StateView::empty()), owners: before.owners },
        result: Ok(instantiate_response()),
    }
}

/// The counter of the registry record, if there is one, can still grow.
pub open spec fn registry_has_room(storage: StorageView) -> bool {
    storage.state matches Some(state) ==> state.count < u64::MAX
}

/// Registering appends the address under the next index. It fails only
/// where the registry record is missing.
pub open spec fn push_outcome(before: StorageView, house_address: Seq<char>) -> Outcome {
    match before.state {
        Some(state) => Outcome {
            storage: StorageView { state: Some(state.push(house_address)), owners: before.owners },
            result: Ok(ResponseView::empty()),
        },
        None => Outcome {
            storage: before,
            result: Err(ContractError::Std(RuntimeError::StateNotFound {  })),
        },
    }
}

/// Changing the owner writes the owner's name under the index and address
/// of the house. It fails where the registry gives the address the index 0.
pub open spec fn change_owner_outcome(
    before: StorageView,
    house_address: Seq<char>,
    owner_name: Seq<char>,
) -> Outcome {
    match before.state {
        Some(state) => {
            if state.index_of(house_address) == 0 {
                Outcome {
                    storage: before,
                    result: Err(ContractError::RealEstateDoesNotExist {  }),
                }
            } else {
                Outcome {
                    storage: StorageView {
                        state: before.state,
                        owners: before.owners.insert(
                            (state.index_of(house_address), house_address),
                            owner_name,
                        ),
                    },
                    result: Ok(ResponseView::empty()),
                }
            }
        },
        None => Outcome {
            storage: before,
            result: Err(ContractError::Std(RuntimeError::StateNotFound {  })),
        },
    }
}

/// The first attached fund entry is there and holds the stake threshold.
pub open spec fn funds_suffice(funds: Seq<CoinView>) -> bool {
    funds.len() > 0 && funds[0].amount >= MIN_STAKE
}

/// What `add_validator` answers. The validator is looked at first, then the
/// funds; the stake delegated is the threshold, whatever was attached.
pub open spec fn add_validator_result(
    validator_exists: bool,
    funds: Seq<CoinView>,
    validator_addr: Seq<char>,
    vault_denom: Seq<char>,
) -> Result<ResponseView, ContractError> {
    if !validator_exists {
        Err(ContractError::ValidatorDoesNotExist {  })
    } else if !funds_suffice(funds) {
        Err(ContractError::InsufficientFunds {  })
    } else {
        Ok(
            ResponseView::empty().add_message(
                ProtocolMsgView::Delegate {
                    validator: validator_addr,
                    amount: CoinView { denom: vault_denom, amount: MIN_STAKE },
                },
            ).add_attribute("method"@, "add_validator"@),
        )
    }
}

/// The response that asks the host to stake `amount` of `denom` with the
/// validator.
pub open spec fn delegate_response(
    validator_addr: Seq<char>,
    denom: Seq<char>,
    amount: u64,
) -> ResponseView {
    ResponseView::empty().add_message(
        ProtocolMsgView::Delegate {
            validator: validator_addr,
            amount: CoinView { denom, amount: amount as u128 },
        },
    )
}

/// The response that asks the host to take `amount` of `denom` back from
/// the validator.
pub open spec fn undelegate_response(
    validator_addr: Seq<char>,
    denom: Seq<char>,
    amount: u64,
) -> ResponseView {
    ResponseView::empty().add_message(
        ProtocolMsgView::Undelegate {
            validator: validator_addr,
            amount: CoinView { denom, amount: amount as u128 },
        },
    )
}

/// The response that asks the host to collect the rewards earned with the
/// validator.
pub open spec fn withdraw_response(validator_addr: Seq<char>) -> ResponseView {
    ResponseView::empty().add_message(
        ProtocolMsgView::WithdrawDelegatorReward { validator: validator_addr },
    )
}

/// How `execute` ends, command by command. `validator_exists` is the host
/// chain's word on the validator that `AddValidator` names; no other
/// command looks at it, and only the first two look at storage.
pub open spec fn execute_outcome(
    before: StorageView,
    validator_exists: bool,
    funds: Seq<CoinView>,
    msg: ExecuteMsgView,
) -> Outcome {
    match msg {
        ExecuteMsgView::PushRealEstateToBlockchain { house_address } => push_outcome(
            before,
            house_address,
        ),
        ExecuteMsgView::ChangeOwnerofRealEstate { house_address, owner_name } => {
            change_owner_outcome(before, house_address, owner_name)
        },
        ExecuteMsgView::AddValidator { validator_addr, vault_denom } => Outcome {
            storage: before,
            result: add_validator_result(validator_exists, funds, validator_addr, vault_denom),
        },
        ExecuteMsgView::StakingDelegate { validator_addr, denom, amount } => Outcome {
            storage: before,
            result: Ok(delegate_response(validator_addr, denom, amount)),
        },
        ExecuteMsgView::StakingUnDelegate { validator_addr, denom, amount } => Outcome {
            storage: before,
            result: Ok(undelegate_response(validator_addr, denom, amount)),
        },
        ExecuteMsgView::WithdrawRewards { validator_addr } => Outcome {
            storage: before,
            result: Ok(withdraw_response(validator_addr)),
        },
    }
}

/// The record that a command writes to the ownership index, if any.
pub open spec fn written_owner(
    state: Option<StateView>,
    msg: ExecuteMsgView,
) -> Option<((u64, Seq<char>), Seq<char>)> {
    match (state, msg) {
        (Some(state), ExecuteMsgView::ChangeOwnerofRealEstate { house_address, owner_name }) => {
            if state.index_of(house_address) == 0 {
                None
            } else {
                Some(((state.index_of(house_address), house_address), owner_name))
            }
        },
        _ => None,
    }
}

/// The key under which a query reads the owner: the index and the address
/// of the house asked for. `None` where the registry does not hold the
/// house: by name, where it gives the name the index 0; by index, where no
/// entry has the index.
pub open spec fn owner_key(state: StateView, msg: QueryMsgView) -> Option<(u64, Seq<char>)> {
    match msg {
        QueryMsgView::FindOwnerByHouseName { house_name } => {
            if state.index_of(house_name) == 0 {
                None
            } else {
                Some((state.index_of(house_name), house_name))
            }
        },
        QueryMsgView::FindOwnerByHouseIndex { house_index } => {
            match state.address_at(house_index) {
                Some(address) => Some((house_index, address)),
                None => None,
            }
        },
    }
}

/// The owner that a query finds, or the error that it ends with.
pub open spec fn owner_answer(
    storage: StorageView,
    msg: QueryMsgView,
) -> Result<Seq<char>, RuntimeError> {
    match storage.state {
        None => Err(RuntimeError::StateNotFound {  }),
        Some(state) => match owner_key(state, msg) {
            None => Err(RuntimeError::HouseNotFound {  }),
            Some(key) => {
                if storage.owners.contains_key(key) {
                    Ok(storage.owners[key])
                } else {
                    Err(RuntimeError::OwnerNotFound {  })
                }
            },
        },
    }
}

/// An owner's name, or the error, as plain values.
pub open spec fn owner_view(
    found: Result<String, RuntimeError>,
) -> Result<Seq<char>, RuntimeError> {
    match found {
        Ok(owner) => Ok(owner@),
        Err(e) => Err(e),
    }
}

/// Sets the contract up: writes the empty registry record.
pub fn instantiate(
    storage: &mut ContractStorage,
    _info: MessageInfo,
    _msg: InstantiateMsg,
) -> (result: Result<Response, ContractError>)
    ensures
        final(storage)@ == instantiate_outcome(old(storage)@).storage,
        result_view(result) == instantiate_outcome(old(storage)@).result,
        final(storage)@.wf(),
{
    storage.state = Some(State::new());
    Ok(Response::new().add_attribute("method", "instantiate"))
}

/// Carries out one command.
///
/// `validator_exists` is what the host chain answered when asked for the
/// validator that `validator_to_query` names for this command.
pub fn execute(
    storage: &mut ContractStorage,
    validator_exists: bool,
    info: MessageInfo,
    msg: BenchmarkExecuteMsg,
) -> (result: Result<Response, ContractError>)
    requires
        msg is PushRealEstateToBlockchain ==> registry_has_room(old(storage)@),
    ensures
        final(storage)@ == execute_outcome(
            old(storage)@,
            validator_exists,
            info@.funds,
            msg@,
        ).storage,
        result_view(result) == execute_outcome(
            old(storage)@,
            validator_exists,
            info@.funds,
            msg@,
        ).result,
        result is Err ==> final(storage)@ == old(storage)@,
        old(storage)@.wf() ==> final(storage)@.wf(),
{
    match msg {
        BenchmarkExecuteMsg::ChangeOwnerofRealEstate { house_address, owner_name } => {
            state_change_owner_of_real_estate(storage, house_address, owner_name)
        },
        BenchmarkExecuteMsg::PushRealEstateToBlockchain { house_address } => {
            state_push_realestate_to_blockchain(storage, house_address)
        },
        BenchmarkExecuteMsg::AddValidator { validator_addr, vault_denom } => {
            add_validator(validator_exists, info, validator_addr, vault_denom)
        },
        BenchmarkExecuteMsg::StakingDelegate { validator_addr, denom, amount } => {
            state_staking_delegate(validator_addr, denom, amount)
        },
        BenchmarkExecuteMsg::StakingUnDelegate { validator_addr, denom, amount } => {
            state_staking_undelegate(validator_addr, denom, amount)
        },
        BenchmarkExecuteMsg::WithdrawRewards { validator_addr } => {
            state_withdraw_rewards(validator_addr)
        },
    }
}

/// The validator that the host chain is to be asked for before `msg` is
/// carried out: the one that `AddValidator` names. No other command needs
/// an answer.
pub fn validator_to_query(msg: &BenchmarkExecuteMsg) -> (validator: Option<String>)
    ensures
        (match msg@ {
            ExecuteMsgView::AddValidator { validator_addr, vault_denom } => {
                validator matches Some(v) && v@ == validator_addr
            },
            _ => validator is None,
        }),
{
    match msg {
        BenchmarkExecuteMsg::AddValidator { validator_addr, vault_denom: _ } => {
            Some(validator_addr.clone())
        },
        _ => None,
    }
}

/// Whether `msg` reads the registry record: registering and changing an
/// owner do, the staking commands do not.
pub fn reads_registry(msg: &BenchmarkExecuteMsg) -> (reads: bool)
    ensures
        reads == (msg@ is PushRealEstateToBlockchain || msg@ is ChangeOwnerofRealEstate),
{
    match msg {
        BenchmarkExecuteMsg::PushRealEstateToBlockchain { house_address: _ } => true,
        BenchmarkExecuteMsg::ChangeOwnerofRealEstate { house_address: _, owner_name: _ } => true,
        _ => false,
    }
}

/// The key of the ownership index that `msg` reads; `None` where the
/// registry does not hold the house that it asks for.
pub fn query_key(state: &State, msg: &BenchmarkQueryMsg) -> (key: Option<(u64, String)>)
    ensures
        (match key {
            Some((index, address)) => owner_key(state@, msg@) == Some((index, address@)),
            None => owner_key(state@, msg@) is None,
        }),
{
    match msg {
        BenchmarkQueryMsg::FindOwnerByHouseName { house_name } => {
            let house_index: u64 = state.find_index_by_address(house_name);
            if house_index == 0 {
                None
            } else {
                Some((house_index, house_name.clone()))
            }
        },
        BenchmarkQueryMsg::FindOwnerByHouseIndex { house_index } => {
            match state.lookup_address(*house_index) {
                Some(address) => Some((*house_index, address)),
                None => None,
            }
        },
    }
}

/// Answers one query with the JSON text of the owner's name.
pub fn query(
    storage: &ContractStorage,
    msg: BenchmarkQueryMsg,
) -> (result: Result<Vec<u8>, RuntimeError>)
    ensures
        (match owner_answer(storage@, msg@) {
            Err(e) => result == Err::<Vec<u8>, RuntimeError>(e),
            Ok(owner) => match to_binary_bytes(owner) {
                Some(bytes) => result matches Ok(b) && b@ == bytes,
                None => result == Err::<Vec<u8>, RuntimeError>(RuntimeError::SerializeErr {  }),
            },
        }),
{
    match query_owner(storage, msg) {
        Ok(owner) => encode_owner(&owner),
        Err(e) => Err(e),
    }
}

/// Answers one query with the owner's name.
pub fn query_owner(
    storage: &ContractStorage,
    msg: BenchmarkQueryMsg,
) -> (found: Result<String, RuntimeError>)
    ensures
        owner_view(found) == owner_answer(storage@, msg@),
{
    match msg {
        BenchmarkQueryMsg::FindOwnerByHouseIndex { house_index } => {
            query_owner_by_house_index(storage, house_index)
        },
        BenchmarkQueryMsg::FindOwnerByHouseName { house_name } => {
            query_owner_by_house_name(storage, house_name)
        },
    }
}

/// Registers a house under the next index.
pub fn state_push_realestate_to_blockchain(
    storage: &mut ContractStorage,
    house_address: String,
) -> (result: Result<Response, ContractError>)
    requires
        registry_has_room(old(storage)@),
    ensures
        final(storage)@ == push_outcome(old(storage)@, house_address@).storage,
        result_view(result) == push_outcome(old(storage)@, house_address@).result,
        old(storage)@.wf() ==> final(storage)@.wf(),
{
    match &mut storage.state {
        Some(state) => {
            state.register(house_address);
            Ok(Response::default())
        },
        None => Err(ContractError::Std(RuntimeError::StateNotFound {  })),
    }
}

/// Records `owner_name` as the owner of the house at `house_address`. Any
/// caller may do so. An address that no entry of the registry holds is
/// rejected with `RealEstateDoesNotExist`.
pub fn state_change_owner_of_real_estate(
    storage: &mut ContractStorage,
    house_address: String,
    owner_name: String,
) -> (result: Result<Response, ContractError>)
    ensures
        final(storage)@ == change_owner_outcome(
            old(storage)@,
            house_address@,
            owner_name@,
        ).storage,
        result_view(result) == change_owner_outcome(
            old(storage)@,
            house_address@,
            owner_name@,
        ).result,
        (old(storage)@.state matches Some(state) && !state.registered(house_address@))
            ==> result == Err::<Response, ContractError>(
                ContractError::RealEstateDoesNotExist {  },
            ),
        result is Err ==> final(storage)@ == old(storage)@,
{
    let house_index: u64 = match &storage.state {
        Some(state) => state.find_index_by_address(&house_address),
        None => {
            return Err(ContractError::Std(RuntimeError::StateNotFound {  }));
        },
    };
    if house_index == 0 {
        return Err(ContractError::RealEstateDoesNotExist {  });
    }
    storage.owners.save(house_index, house_address, owner_name);
    Ok(Response::default())
}

/// The owner recorded for the house at `house_name`.
pub fn query_owner_by_house_name(
    storage: &ContractStorage,
    house_name: String,
) -> (found: Result<String, RuntimeError>)
    ensures
        owner_view(found) == owner_answer(
            storage@,
            QueryMsgView::FindOwnerByHouseName { house_name: house_name@ },
        ),
{
    let house_index: u64 = match &storage.state {
        Some(state) => state.find_index_by_address(&house_name),
        None => {
            return Err(RuntimeError::StateNotFound {  });
        },
    };
    if house_index == 0 {
        return Err(RuntimeError::HouseNotFound {  });
    }
    storage.owners.load(house_index, &house_name)
}

/// The owner recorded for the house that the registry holds under
/// `house_index`.
pub fn query_owner_by_house_index(
    storage: &ContractStorage,
    house_index: u64,
) -> (found: Result<String, RuntimeError>)
    ensures
        owner_view(found) == owner_answer(
            storage@,
            QueryMsgView::FindOwnerByHouseIndex { house_index },
        ),
{
    let house_name: String = match &storage.state {
        Some(state) => match state.lookup_address(house_index) {
            Some(address) => address,
            None => {
                return Err(RuntimeError::HouseNotFound {  });
            },
        },
        None => {
            return Err(RuntimeError::StateNotFound {  });
        },
    };
    storage.owners.load(house_index, &house_name)
}

/// Stakes the threshold amount with a validator that the host chain knows,
/// for a caller whose first attached fund entry holds at least that amount.
///
/// An unknown validator is rejected with `ValidatorDoesNotExist`, whatever
/// the funds. With a known validator, a first fund entry that is missing or
/// too small is rejected with `InsufficientFunds`; entries after the first
/// are not looked at.
pub fn add_validator(
    validator_exists: bool,
    info: MessageInfo,
    validator_addr: String,
    vault_denom: String,
) -> (result: Result<Response, ContractError>)
    ensures
        result_view(result) == add_validator_result(
            validator_exists,
            info@.funds,
            validator_addr@,
            vault_denom@,
        ),
        !validator_exists
            ==> result == Err::<Response, ContractError>(
                ContractError::ValidatorDoesNotExist {  },
            ),
        !funds_suffice(info@.funds) ==> result is Err,
        validator_exists && !funds_suffice(info@.funds)
            ==> result == Err::<Response, ContractError>(ContractError::InsufficientFunds {  }),
{
    if !validator_exists {
        return Err(ContractError::ValidatorDoesNotExist {  });
    }
    if info.funds.len() == 0 {
        return Err(ContractError::InsufficientFunds {  });
    }
    if info.funds[0].amount < MIN_STAKE {
        return Err(ContractError::InsufficientFunds {  });
    }
    let msg = ProtocolMsg::Delegate {
        validator: validator_addr,
        amount: Coin { denom: vault_denom, amount: MIN_STAKE },
    };
    Ok(Response::new().add_message(msg).add_attribute("method", "add_validator"))
}

/// Asks the host to stake `amount_to_delegate` with the validator. Nothing
/// is checked.
pub fn state_staking_delegate(
    validator_addr: String,
    vault_denom: String,
    amount_to_delegate: u64,
) -> (result: Result<Response, ContractError>)
    ensures
        result_view(result) == Ok::<ResponseView, ContractError>(
            delegate_response(validator_addr@, vault_denom@, amount_to_delegate),
        ),
{
    let msg = ProtocolMsg::Delegate {
        validator: validator_addr,
        amount: Coin { denom: vault_denom, amount: amount_to_delegate as u128 },
    };
    Ok(Response::new().add_message(msg))
}

/// Asks the host to take `amount_to_delegate` back from the validator.
/// Nothing is checked.
pub fn state_staking_undelegate(
    validator_addr: String,
    vault_denom: String,
    amount_to_delegate: u64,
) -> (result: Result<Response, ContractError>)
    ensures
        result_view(result) == Ok::<ResponseView, ContractError>(
            undelegate_response(validator_addr@, vault_denom@, amount_to_delegate),
        ),
{
    let msg = ProtocolMsg::Undelegate {
        validator: validator_addr,
        amount: Coin { denom: vault_denom, amount: amount_to_delegate as u128 },
    };
    Ok(Response::new().add_message(msg))
}

/// Asks the host to collect the rewards earned with the validator. That
/// the contract has staked with it is not checked.
pub fn state_withdraw_rewards(validator_addr: String) -> (result: Result<Response, ContractError>)
    ensures
        result_view(result) == Ok::<ResponseView, ContractError>(
            withdraw_response(validator_addr@),
        ),
{
    let msg = ProtocolMsg::WithdrawDelegatorReward { validator: validator_addr };
    Ok(Response::new().add_message(msg))
}

/// Changing the owner of a house that the registry holds succeeds, and a
/// query by the same address then answers with the owner just set. A query
/// changes nothing, so it answers the same however often it is asked.
pub proof fn lemma_owner_set_then_found_by_name(
    before: StorageView,
    house_address: Seq<char>,
    owner_name: Seq<char>,
)
    requires
        before.wf(),
        before.state.unwrap().registered(house_address),
    ensures
        change_owner_outcome(before, house_address, owner_name).result == Ok::<
            ResponseView,
            ContractError,
        >(ResponseView::empty()),
        owner_answer(
            change_owner_outcome(before, house_address, owner_name).storage,
            QueryMsgView::FindOwnerByHouseName { house_name: house_address },
        ) == Ok::<Seq<char>, RuntimeError>(owner_name),
{
    lemma_index_of_wf(before.state.unwrap(), house_address);
}

/// After the owner of a house that the registry holds was changed, a query
/// by the index that the registry gives the address answers with that owner.
pub proof fn lemma_owner_set_then_found_by_index(
    before: StorageView,
    house_address: Seq<char>,
    owner_name: Seq<char>,
)
    requires
        before.wf(),
        before.state.unwrap().registered(house_address),
    ensures
        owner_answer(
            change_owner_outcome(before, house_address, owner_name).storage,
            QueryMsgView::FindOwnerByHouseIndex {
                house_index: before.state.unwrap().index_of(house_address),
            },
        ) == Ok::<Seq<char>, RuntimeError>(owner_name),
{
    let state = before.state.unwrap();
    lemma_index_of_wf(state, house_address);
    lemma_address_at_wf(state, state.index_of(house_address));
}

/// Changing the owner of a house that no entry of the registry holds is
/// rejected with `RealEstateDoesNotExist`, and storage stays as it was.
pub proof fn lemma_unregistered_is_rejected(
    before: StorageView,
    house_address: Seq<char>,
    owner_name: Seq<char>,
)
    requires
        before.state is Some,
        !before.state.unwrap().registered(house_address),
    ensures
        change_owner_outcome(before, house_address, owner_name) == (Outcome {
            storage: before,
            result: Err(ContractError::RealEstateDoesNotExist {  }),
        }),
{
}

/// Only `AddValidator` looks at the host chain's word on a validator.
pub proof fn lemma_validator_answer_unread(
    before: StorageView,
    funds: Seq<CoinView>,
    msg: ExecuteMsgView,
    one_answer: bool,
    other_answer: bool,
)
    requires
        !(msg is AddValidator),
    ensures
        execute_outcome(before, one_answer, funds, msg) == execute_outcome(
            before,
            other_answer,
            funds,
            msg,
        ),
{
}

/// No command deletes. The entries of the registry record stay where they
/// are, and a new one comes after them; the counter does not fall; every
/// key of the ownership index stays.
pub proof fn lemma_commands_only_add(
    before: StorageView,
    validator_exists: bool,
    funds: Seq<CoinView>,
    msg: ExecuteMsgView,
)
    requires
        registry_has_room(before),
    ensures
        ({
            let after = execute_outcome(before, validator_exists, funds, msg).storage;
            &&& before.state is None ==> after.state is None
            &&& before.state matches Some(earlier) ==> {
                &&& after.state matches Some(later)
                &&& earlier.count <= later.count
                &&& earlier.entries.len() <= later.entries.len()
                &&& forall|i: int|
                    0 <= i < earlier.entries.len() ==> #[trigger] later.entries[i]
                        == earlier.entries[i]
            }
            &&& forall|key: (u64, Seq<char>)|
                before.owners.contains_key(key) ==> #[trigger] after.owners.contains_key(key)
        }),
{
}

/// The staking commands neither read nor write storage.
pub proof fn lemma_staking_ignores_storage(
    one: StorageView,
    other: StorageView,
    validator_exists: bool,
    funds: Seq<CoinView>,
    msg: ExecuteMsgView,
)
    requires
        !(msg is PushRealEstateToBlockchain),
        !(msg is ChangeOwnerofRealEstate),
    ensures
        execute_outcome(one, validator_exists, funds, msg).storage == one,
        execute_outcome(one, validator_exists, funds, msg).result == execute_outcome(
            other,
            validator_exists,
            funds,
            msg,
        ).result,
{
}

/// No command reads the ownership index, and a command writes at most one
/// record to it: with the same registry record, a command answers the same
/// and leaves the same record whatever the index held, and what it adds to
/// one index it adds to any other.
pub proof fn lemma_execute_writes_one_owner(
    before: StorageView,
    other_owners: Map<(u64, Seq<char>), Seq<char>>,
    validator_exists: bool,
    funds: Seq<CoinView>,
    msg: ExecuteMsgView,
)
    ensures
        ({
            let elsewhere = StorageView { state: before.state, owners: other_owners };
            let here = execute_outcome(before, validator_exists, funds, msg);
            let there = execute_outcome(elsewhere, validator_exists, funds, msg);
            &&& here.result == there.result
            &&& here.storage.state == there.storage.state
            &&& match written_owner(before.state, msg) {
                Some((key, owner)) => {
                    &&& here.storage.owners == before.owners.insert(key, owner)
                    &&& there.storage.owners == other_owners.insert(key, owner)
                },
                None => {
                    &&& here.storage.owners == before.owners
                    &&& there.storage.owners == other_owners
                },
            }
        }),
{
}

/// A query reads the registry record and, of the ownership index, the one
/// key that `owner_key` names: two storages that agree on those answer the
/// same.
pub proof fn lemma_query_reads_one_key(one: StorageView, other: StorageView, msg: QueryMsgView)
    requires
        one.state == other.state,
        one.state matches Some(state) ==> (owner_key(state, msg) matches Some(key) ==> {
            &&& one.owners.contains_key(key) == other.owners.contains_key(key)
            &&& one.owners.contains_key(key) ==> one.owners[key] == other.owners[key]
        }),
    ensures
        owner_answer(one, msg) == owner_answer(other, msg),
{
}

} // verus!
