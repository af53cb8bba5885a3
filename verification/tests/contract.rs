use gas_fees_benchmark::contract::{
    execute, instantiate, query, query_key, query_owner, query_owner_by_house_index,
    query_owner_by_house_name, reads_registry, state_change_owner_of_real_estate,
    state_push_realestate_to_blockchain, validator_to_query,
};
use gas_fees_benchmark::msg::{BenchmarkExecuteMsg, BenchmarkQueryMsg, InstantiateMsg};
use gas_fees_benchmark::ownership::OwnershipIndex;
use gas_fees_benchmark::response::{Attribute, Coin, MessageInfo, ProtocolMsg, Response};
use gas_fees_benchmark::state::State;
use gas_fees_benchmark::storage::ContractStorage;
use gas_fees_benchmark::{ContractError, RuntimeError};

fn nobody() -> MessageInfo {
    MessageInfo {
        sender: "creator".to_string(),
        funds: vec![],
    }
}

fn paying(amount: u128) -> MessageInfo {
    MessageInfo {
        sender: "creator".to_string(),
        funds: vec![Coin {
            denom: "uluna".to_string(),
            amount,
        }],
    }
}

fn instantiated() -> ContractStorage {
    let mut storage = ContractStorage::new();
    instantiate(&mut storage, nobody(), InstantiateMsg {}).unwrap();
    storage
}

fn with_houses(addresses: &[&str]) -> ContractStorage {
    let mut storage = instantiated();
    for address in addresses {
        state_push_realestate_to_blockchain(&mut storage, address.to_string()).unwrap();
    }
    storage
}

fn by_name(name: &str) -> BenchmarkQueryMsg {
    BenchmarkQueryMsg::FindOwnerByHouseName {
        house_name: name.to_string(),
    }
}

fn by_index(index: u64) -> BenchmarkQueryMsg {
    BenchmarkQueryMsg::FindOwnerByHouseIndex { house_index: index }
}

#[test]
fn blank_storage_has_no_record() {
    let storage = ContractStorage::new();
    assert_eq!(storage.state, None);
    assert_eq!(storage.owners, OwnershipIndex::new());
}

#[test]
fn instantiate_writes_the_empty_record() {
    let mut storage = ContractStorage::new();
    let response = instantiate(&mut storage, nobody(), InstantiateMsg {});
    assert_eq!(
        response,
        Ok(Response {
            messages: vec![],
            attributes: vec![Attribute {
                key: "method".to_string(),
                value: "instantiate".to_string(),
            }],
        })
    );
    assert_eq!(
        storage.state,
        Some(State {
            num_of_real_state: 0,
            address_of_real_estate: vec![],
        })
    );
    assert!(storage.owners.entries().is_empty());
}

#[test]
fn instantiate_overwrites_the_record_and_keeps_the_owners() {
    let mut storage = with_houses(&["addr1"]);
    state_change_owner_of_real_estate(&mut storage, "addr1".to_string(), "alice".to_string())
        .unwrap();
    instantiate(&mut storage, paying(3), InstantiateMsg {}).unwrap();
    assert_eq!(storage.state, Some(State::new()));
    assert_eq!(
        storage.owners.load(1, &"addr1".to_string()),
        Ok("alice".to_string())
    );
}

#[test]
fn push_appends_and_answers_with_the_empty_response() {
    let mut storage = instantiated();
    let response = state_push_realestate_to_blockchain(&mut storage, "addr1".to_string());
    assert_eq!(response, Ok(Response::default()));
    let state = storage.state.clone().unwrap();
    assert_eq!(state.num_of_real_state, 1);
    assert_eq!(state.address_of_real_estate, vec![(1, "addr1".to_string())]);
    assert!(storage.owners.entries().is_empty());
}

#[test]
fn commands_before_instantiate_find_no_record() {
    let mut storage = ContractStorage::new();
    assert_eq!(
        state_push_realestate_to_blockchain(&mut storage, "addr1".to_string()),
        Err(ContractError::Std(RuntimeError::StateNotFound {}))
    );
    assert_eq!(
        state_change_owner_of_real_estate(&mut storage, "addr1".to_string(), "alice".to_string()),
        Err(ContractError::Std(RuntimeError::StateNotFound {}))
    );
    assert_eq!(
        query_owner_by_house_name(&storage, "addr1".to_string()),
        Err(RuntimeError::StateNotFound {})
    );
    assert_eq!(
        query_owner_by_house_index(&storage, 1),
        Err(RuntimeError::StateNotFound {})
    );
    assert_eq!(query(&storage, by_index(1)), Err(RuntimeError::StateNotFound {}));
    assert_eq!(storage, ContractStorage::new());
}

#[test]
fn staking_commands_need_no_record() {
    let mut storage = ContractStorage::new();
    let response = execute(
        &mut storage,
        false,
        nobody(),
        BenchmarkExecuteMsg::WithdrawRewards {
            validator_addr: "validator1".to_string(),
        },
    );
    assert!(response.is_ok());
    let response = execute(
        &mut storage,
        true,
        paying(10),
        BenchmarkExecuteMsg::AddValidator {
            validator_addr: "validator1".to_string(),
            vault_denom: "uluna".to_string(),
        },
    );
    assert!(response.is_ok());
    assert_eq!(storage, ContractStorage::new());
}

#[test]
fn change_owner_of_unregistered_address_is_rejected() {
    let mut storage = with_houses(&["addr1", "addr2"]);
    let before = storage.clone();
    for address in ["addr3", "", "ADDR1", "addr1 "] {
        let result = state_change_owner_of_real_estate(
            &mut storage,
            address.to_string(),
            "mallory".to_string(),
        );
        assert_eq!(result, Err(ContractError::RealEstateDoesNotExist {}));
        assert_eq!(storage, before);
    }
    let mut empty = instantiated();
    assert_eq!(
        state_change_owner_of_real_estate(&mut empty, "addr1".to_string(), "mallory".to_string()),
        Err(ContractError::RealEstateDoesNotExist {})
    );
}

#[test]
fn change_owner_writes_under_index_and_address() {
    let mut storage = with_houses(&["addr1", "addr2"]);
    let result =
        state_change_owner_of_real_estate(&mut storage, "addr2".to_string(), "bob".to_string());
    assert_eq!(result, Ok(Response::default()));
    assert_eq!(
        storage.owners.load(2, &"addr2".to_string()),
        Ok("bob".to_string())
    );
    assert_eq!(storage.owners.entries().len(), 1);
    assert_eq!(storage.state, with_houses(&["addr1", "addr2"]).state);
}

#[test]
fn owner_just_set_is_found_by_name_on_every_read() {
    let mut storage = with_houses(&["addr1", "addr2", "addr3"]);
    state_change_owner_of_real_estate(&mut storage, "addr2".to_string(), "bob".to_string())
        .unwrap();
    for _ in 0..3 {
        assert_eq!(
            query_owner_by_house_name(&storage, "addr2".to_string()),
            Ok("bob".to_string())
        );
    }
    state_change_owner_of_real_estate(&mut storage, "addr2".to_string(), "carol".to_string())
        .unwrap();
    assert_eq!(
        query_owner_by_house_name(&storage, "addr2".to_string()),
        Ok("carol".to_string())
    );
    assert_eq!(storage.owners.entries().len(), 1);
}

#[test]
fn anyone_may_change_an_owner() {
    let mut storage = with_houses(&["addr1"]);
    let first = MessageInfo {
        sender: "alice".to_string(),
        funds: vec![],
    };
    let second = MessageInfo {
        sender: "mallory".to_string(),
        funds: vec![],
    };
    execute(
        &mut storage,
        false,
        first,
        BenchmarkExecuteMsg::ChangeOwnerofRealEstate {
            house_address: "addr1".to_string(),
            owner_name: "alice".to_string(),
        },
    )
    .unwrap();
    execute(
        &mut storage,
        false,
        second,
        BenchmarkExecuteMsg::ChangeOwnerofRealEstate {
            house_address: "addr1".to_string(),
            owner_name: "mallory".to_string(),
        },
    )
    .unwrap();
    assert_eq!(query_owner(&storage, by_name("addr1")), Ok("mallory".to_string()));
}

#[test]
fn owner_is_found_by_index() {
    let mut storage = with_houses(&["addr1", "addr2"]);
    state_change_owner_of_real_estate(&mut storage, "addr2".to_string(), "bob".to_string())
        .unwrap();
    assert_eq!(query_owner_by_house_index(&storage, 2), Ok("bob".to_string()));
    assert_eq!(
        query_owner_by_house_index(&storage, 1),
        Err(RuntimeError::OwnerNotFound {})
    );
}

#[test]
fn query_for_a_house_that_is_not_there_is_house_not_found() {
    let storage = with_houses(&["addr1"]);
    assert_eq!(
        query_owner_by_house_name(&storage, "addr2".to_string()),
        Err(RuntimeError::HouseNotFound {})
    );
    assert_eq!(
        query_owner_by_house_index(&storage, 0),
        Err(RuntimeError::HouseNotFound {})
    );
    assert_eq!(
        query_owner_by_house_index(&storage, 2),
        Err(RuntimeError::HouseNotFound {})
    );
    assert_eq!(query(&storage, by_name("addr2")), Err(RuntimeError::HouseNotFound {}));
}

#[test]
fn query_for_a_house_without_owner_is_owner_not_found() {
    let storage = with_houses(&["addr1"]);
    assert_eq!(
        query_owner_by_house_name(&storage, "addr1".to_string()),
        Err(RuntimeError::OwnerNotFound {})
    );
    assert_eq!(query(&storage, by_index(1)), Err(RuntimeError::OwnerNotFound {}));
}

#[test]
fn duplicate_address_is_owned_under_its_first_index() {
    let mut storage = with_houses(&["twin", "twin"]);
    state_change_owner_of_real_estate(&mut storage, "twin".to_string(), "alice".to_string())
        .unwrap();
    assert_eq!(
        storage.owners.load(1, &"twin".to_string()),
        Ok("alice".to_string())
    );
    assert_eq!(query_owner_by_house_index(&storage, 1), Ok("alice".to_string()));
    assert_eq!(
        query_owner_by_house_index(&storage, 2),
        Err(RuntimeError::OwnerNotFound {})
    );
}

#[test]
fn query_answers_with_json_text() {
    let mut storage = with_houses(&["addr1"]);
    state_change_owner_of_real_estate(&mut storage, "addr1".to_string(), "alice".to_string())
        .unwrap();
    assert_eq!(query(&storage, by_name("addr1")), Ok(b"\"alice\"".to_vec()));
    assert_eq!(query(&storage, by_index(1)), Ok(b"\"alice\"".to_vec()));
}

#[test]
fn query_escapes_what_json_must_escape() {
    let mut storage = with_houses(&["addr1"]);
    state_change_owner_of_real_estate(
        &mut storage,
        "addr1".to_string(),
        "a \"b\" \\ c\n\u{e9}".to_string(),
    )
    .unwrap();
    assert_eq!(
        query(&storage, by_index(1)),
        Ok("\"a \\\"b\\\" \\\\ c\\n\u{e9}\"".as_bytes().to_vec())
    );
    state_change_owner_of_real_estate(&mut storage, "addr1".to_string(), "".to_string()).unwrap();
    assert_eq!(query(&storage, by_index(1)), Ok(b"\"\"".to_vec()));
}

#[test]
fn execute_routes_each_command() {
    let mut storage = instantiated();
    let pushed = execute(
        &mut storage,
        false,
        nobody(),
        BenchmarkExecuteMsg::PushRealEstateToBlockchain {
            house_address: "addr1".to_string(),
        },
    );
    assert_eq!(pushed, Ok(Response::default()));
    assert_eq!(storage.state.clone().unwrap().num_of_real_state, 1);

    let changed = execute(
        &mut storage,
        false,
        nobody(),
        BenchmarkExecuteMsg::ChangeOwnerofRealEstate {
            house_address: "addr1".to_string(),
            owner_name: "alice".to_string(),
        },
    );
    assert_eq!(changed, Ok(Response::default()));
    assert_eq!(query_owner(&storage, by_index(1)), Ok("alice".to_string()));

    let before = storage.clone();
    let added = execute(
        &mut storage,
        true,
        paying(12),
        BenchmarkExecuteMsg::AddValidator {
            validator_addr: "validator1".to_string(),
            vault_denom: "uluna".to_string(),
        },
    );
    assert_eq!(
        added,
        Ok(Response {
            messages: vec![ProtocolMsg::Delegate {
                validator: "validator1".to_string(),
                amount: Coin {
                    denom: "uluna".to_string(),
                    amount: 10,
                },
            }],
            attributes: vec![Attribute {
                key: "method".to_string(),
                value: "add_validator".to_string(),
            }],
        })
    );

    let delegated = execute(
        &mut storage,
        false,
        nobody(),
        BenchmarkExecuteMsg::StakingDelegate {
            validator_addr: "validator1".to_string(),
            denom: "uluna".to_string(),
            amount: 77,
        },
    );
    assert_eq!(
        delegated.unwrap().messages,
        vec![ProtocolMsg::Delegate {
            validator: "validator1".to_string(),
            amount: Coin {
                denom: "uluna".to_string(),
                amount: 77,
            },
        }]
    );

    let undelegated = execute(
        &mut storage,
        false,
        nobody(),
        BenchmarkExecuteMsg::StakingUnDelegate {
            validator_addr: "validator1".to_string(),
            denom: "uluna".to_string(),
            amount: 33,
        },
    );
    assert_eq!(
        undelegated.unwrap().messages,
        vec![ProtocolMsg::Undelegate {
            validator: "validator1".to_string(),
            amount: Coin {
                denom: "uluna".to_string(),
                amount: 33,
            },
        }]
    );

    let withdrawn = execute(
        &mut storage,
        false,
        nobody(),
        BenchmarkExecuteMsg::WithdrawRewards {
            validator_addr: "validator1".to_string(),
        },
    );
    assert_eq!(
        withdrawn.unwrap().messages,
        vec![ProtocolMsg::WithdrawDelegatorReward {
            validator: "validator1".to_string(),
        }]
    );
    assert_eq!(storage, before);
}

#[test]
fn execute_rejections_leave_storage_as_it_was() {
    let mut storage = with_houses(&["addr1"]);
    let before = storage.clone();
    let unknown_house = execute(
        &mut storage,
        true,
        paying(100),
        BenchmarkExecuteMsg::ChangeOwnerofRealEstate {
            house_address: "addr9".to_string(),
            owner_name: "alice".to_string(),
        },
    );
    assert_eq!(unknown_house, Err(ContractError::RealEstateDoesNotExist {}));
    let poor = execute(
        &mut storage,
        true,
        paying(9),
        BenchmarkExecuteMsg::AddValidator {
            validator_addr: "validator1".to_string(),
            vault_denom: "uluna".to_string(),
        },
    );
    assert_eq!(poor, Err(ContractError::InsufficientFunds {}));
    let unknown_validator = execute(
        &mut storage,
        false,
        paying(100),
        BenchmarkExecuteMsg::AddValidator {
            validator_addr: "validator1".to_string(),
            vault_denom: "uluna".to_string(),
        },
    );
    assert_eq!(unknown_validator, Err(ContractError::ValidatorDoesNotExist {}));
    assert_eq!(storage, before);
}

#[test]
fn only_add_validator_asks_the_host_for_a_validator() {
    assert_eq!(
        validator_to_query(&BenchmarkExecuteMsg::AddValidator {
            validator_addr: "validator1".to_string(),
            vault_denom: "uluna".to_string(),
        }),
        Some("validator1".to_string())
    );
    let others = [
        BenchmarkExecuteMsg::PushRealEstateToBlockchain {
            house_address: "validator1".to_string(),
        },
        BenchmarkExecuteMsg::ChangeOwnerofRealEstate {
            house_address: "validator1".to_string(),
            owner_name: "validator1".to_string(),
        },
        BenchmarkExecuteMsg::StakingDelegate {
            validator_addr: "validator1".to_string(),
            denom: "uluna".to_string(),
            amount: 1,
        },
        BenchmarkExecuteMsg::StakingUnDelegate {
            validator_addr: "validator1".to_string(),
            denom: "uluna".to_string(),
            amount: 1,
        },
        BenchmarkExecuteMsg::WithdrawRewards {
            validator_addr: "validator1".to_string(),
        },
    ];
    for msg in &others {
        assert_eq!(validator_to_query(msg), None);
    }
    assert!(reads_registry(&others[0]));
    assert!(reads_registry(&others[1]));
    assert!(!reads_registry(&others[2]));
    assert!(!reads_registry(&others[3]));
    assert!(!reads_registry(&others[4]));
    assert!(!reads_registry(&BenchmarkExecuteMsg::AddValidator {
        validator_addr: "validator1".to_string(),
        vault_denom: "uluna".to_string(),
    }));
}

#[test]
fn query_key_names_the_record_that_is_read() {
    let state = with_houses(&["addr1", "addr2"]).state.unwrap();
    assert_eq!(
        query_key(&state, &by_name("addr2")),
        Some((2, "addr2".to_string()))
    );
    assert_eq!(query_key(&state, &by_index(1)), Some((1, "addr1".to_string())));
    assert_eq!(query_key(&state, &by_name("addr3")), None);
    assert_eq!(query_key(&state, &by_index(3)), None);
    assert_eq!(query_key(&state, &by_index(0)), None);
}

#[test]
fn query_reads_one_record_of_the_index() {
    let mut full = with_houses(&["addr1", "addr2"]);
    state_change_owner_of_real_estate(&mut full, "addr1".to_string(), "alice".to_string())
        .unwrap();
    state_change_owner_of_real_estate(&mut full, "addr2".to_string(), "bob".to_string()).unwrap();
    let mut part = ContractStorage {
        state: full.state.clone(),
        owners: OwnershipIndex::new(),
    };
    part.owners.save(2, "addr2".to_string(), "bob".to_string());
    assert_eq!(query(&part, by_name("addr2")), query(&full, by_name("addr2")));
    assert_eq!(query(&part, by_index(2)), Ok(b"\"bob\"".to_vec()));
}
