use gas_fees_benchmark::contract::{execute, instantiate, query, query_owner};
use gas_fees_benchmark::msg::{BenchmarkExecuteMsg, BenchmarkQueryMsg, InstantiateMsg};
use gas_fees_benchmark::response::MessageInfo;
use gas_fees_benchmark::storage::ContractStorage;

fn caller() -> MessageInfo {
    MessageInfo {
        sender: "anyone".to_string(),
        funds: vec![],
    }
}

#[test]
fn register_two_houses_and_set_an_owner() {
    let mut storage = ContractStorage::new();
    instantiate(&mut storage, caller(), InstantiateMsg {}).unwrap();

    execute(
        &mut storage,
        false,
        caller(),
        BenchmarkExecuteMsg::PushRealEstateToBlockchain {
            house_address: "addr1".to_string(),
        },
    )
    .unwrap();
    let state = storage.state.clone().unwrap();
    assert_eq!(state.num_of_real_state, 1);
    assert_eq!(state.find_index_by_address(&"addr1".to_string()), 1);

    execute(
        &mut storage,
        false,
        caller(),
        BenchmarkExecuteMsg::PushRealEstateToBlockchain {
            house_address: "addr2".to_string(),
        },
    )
    .unwrap();
    let state = storage.state.clone().unwrap();
    assert_eq!(state.num_of_real_state, 2);
    assert_eq!(state.find_index_by_address(&"addr2".to_string()), 2);

    execute(
        &mut storage,
        false,
        caller(),
        BenchmarkExecuteMsg::ChangeOwnerofRealEstate {
            house_address: "addr1".to_string(),
            owner_name: "alice".to_string(),
        },
    )
    .unwrap();

    let by_name = BenchmarkQueryMsg::FindOwnerByHouseName {
        house_name: "addr1".to_string(),
    };
    assert_eq!(query_owner(&storage, by_name.clone()), Ok("alice".to_string()));
    assert_eq!(query(&storage, by_name), Ok(b"\"alice\"".to_vec()));

    let by_index = BenchmarkQueryMsg::FindOwnerByHouseIndex { house_index: 1 };
    assert_eq!(query_owner(&storage, by_index.clone()), Ok("alice".to_string()));
    assert_eq!(query(&storage, by_index), Ok(b"\"alice\"".to_vec()));
}

#[test]
fn many_houses_keep_their_order() {
    let mut storage = ContractStorage::new();
    instantiate(&mut storage, caller(), InstantiateMsg {}).unwrap();
    for k in 1..=50u64 {
        execute(
            &mut storage,
            false,
            caller(),
            BenchmarkExecuteMsg::PushRealEstateToBlockchain {
                house_address: format!("house {k}"),
            },
        )
        .unwrap();
    }
    let state = storage.state.clone().unwrap();
    assert_eq!(state.num_of_real_state, 50);
    for k in 1..=50u64 {
        assert_eq!(state.address_of_real_estate[(k - 1) as usize].0, k);
        assert_eq!(state.find_address_by_index(k), format!("house {k}"));
        assert_eq!(state.find_index_by_address(&format!("house {k}")), k);
    }
}
