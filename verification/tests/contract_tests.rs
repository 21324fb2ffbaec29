use todo_list_contract::contract::{
    execute, instantiate, query, query_count, try_increment, try_reset,
};
use todo_list_contract::error::{ContractError, StdError};
use todo_list_contract::msg::{CountResponse, ExecuteMsg, InstantiateMsg, MessageInfo, QueryMsg};
use todo_list_contract::state::{Addr, Store};

fn caller(name: &str) -> MessageInfo {
    MessageInfo { sender: Addr::new(name.to_string()) }
}

fn count_of(store: &Store) -> i32 {
    query_count(store).expect("counter should be initialized").count
}

#[test]
fn initialize_sets_count_and_owner() {
    let mut store = Store::new();
    let resp = instantiate(&mut store, caller("alice"), InstantiateMsg { count: 7 })
        .expect("instantiate always succeeds");

    let state = store.state.as_ref().expect("counter slot filled");
    assert_eq!(state.count, 7);
    assert_eq!(state.owner.0, "alice");

    assert_eq!(resp.attributes.len(), 3);
    assert_eq!(resp.attributes[0].key, "method");
    assert_eq!(resp.attributes[0].value, "instantiate");
    assert_eq!(resp.attributes[1].key, "owner");
    assert_eq!(resp.attributes[1].value, "alice");
    assert_eq!(resp.attributes[2].key, "count");
    assert_eq!(resp.attributes[2].value, "7");
}

#[test]
fn initialize_renders_negative_count() {
    let mut store = Store::new();
    let resp = instantiate(&mut store, caller("alice"), InstantiateMsg { count: -123 })
        .expect("instantiate always succeeds");
    assert_eq!(resp.attributes[2].value, "-123");
    assert_eq!(count_of(&store), -123);
}

#[test]
fn increment_adds_one_per_call() {
    let mut store = Store::new();
    instantiate(&mut store, caller("alice"), InstantiateMsg { count: 0 }).unwrap();
    for _ in 0..5 {
        let resp = try_increment(&mut store).expect("initialized counter increments");
        assert_eq!(resp.attributes.len(), 1);
        assert_eq!(resp.attributes[0].key, "method");
        assert_eq!(resp.attributes[0].value, "try_increment");
    }
    assert_eq!(count_of(&store), 5);
}

#[test]
fn increment_ignores_caller_identity() {
    let mut store = Store::new();
    instantiate(&mut store, caller("alice"), InstantiateMsg { count: 3 }).unwrap();
    execute(&mut store, caller("bob"), ExecuteMsg::Increment {}).expect("any caller may increment");
    execute(&mut store, caller("carol"), ExecuteMsg::Increment {})
        .expect("any caller may increment");
    assert_eq!(count_of(&store), 5);
}

#[test]
fn increment_wraps_at_the_32_bit_width() {
    let mut store = Store::new();
    instantiate(&mut store, caller("alice"), InstantiateMsg { count: i32::MAX }).unwrap();
    try_increment(&mut store).unwrap();
    assert_eq!(count_of(&store), i32::MIN);
}

#[test]
fn increment_uninitialized_reports_not_found() {
    let mut store = Store::new();
    let err = try_increment(&mut store).expect_err("nothing to increment");
    assert_eq!(err, ContractError::Std(StdError::NotFound));
    assert!(store.state.is_none());
}

#[test]
fn reset_by_owner_sets_count() {
    let mut store = Store::new();
    instantiate(&mut store, caller("alice"), InstantiateMsg { count: 1 }).unwrap();
    let resp = try_reset(&mut store, caller("alice"), 42).expect("owner may reset");
    assert_eq!(resp.attributes.len(), 1);
    assert_eq!(resp.attributes[0].key, "method");
    assert_eq!(resp.attributes[0].value, "reset");
    assert_eq!(count_of(&store), 42);
    assert_eq!(store.state.as_ref().unwrap().owner.0, "alice");
}

#[test]
fn reset_by_other_caller_is_unauthorized_and_changes_nothing() {
    let mut store = Store::new();
    instantiate(&mut store, caller("alice"), InstantiateMsg { count: 1 }).unwrap();
    let err = try_reset(&mut store, caller("bob"), 42).expect_err("bob is not the owner");
    assert_eq!(err, ContractError::Unauthorized {});
    assert_eq!(count_of(&store), 1);
    assert_eq!(store.state.as_ref().unwrap().owner.0, "alice");
}

#[test]
fn reset_uninitialized_reports_not_found() {
    let mut store = Store::new();
    let err = try_reset(&mut store, caller("alice"), 42).expect_err("nothing to reset");
    assert_eq!(err, ContractError::Std(StdError::NotFound));
    assert!(store.state.is_none());
}

#[test]
fn execute_dispatches_both_write_operations() {
    let mut store = Store::new();
    instantiate(&mut store, caller("alice"), InstantiateMsg { count: 10 }).unwrap();
    execute(&mut store, caller("bob"), ExecuteMsg::Increment {}).unwrap();
    assert_eq!(count_of(&store), 11);
    execute(&mut store, caller("alice"), ExecuteMsg::Reset { count: -4 }).unwrap();
    assert_eq!(count_of(&store), -4);
    let err = execute(&mut store, caller("bob"), ExecuteMsg::Reset { count: 0 })
        .expect_err("bob is not the owner");
    assert_eq!(err, ContractError::Unauthorized {});
    assert_eq!(count_of(&store), -4);
}

#[test]
fn query_uninitialized_reports_not_found() {
    let store = Store::new();
    let err = query(&store, QueryMsg::GetCount {}).expect_err("nothing stored");
    assert_eq!(err, StdError::NotFound);
}

#[test]
fn query_twice_with_no_write_returns_identical_results() {
    let mut store = Store::new();
    instantiate(&mut store, caller("alice"), InstantiateMsg { count: 9 }).unwrap();
    let first = query(&store, QueryMsg::GetCount {});
    let second = query(&store, QueryMsg::GetCount {});
    assert_eq!(first, second);
    assert_eq!(first.unwrap(), CountResponse { count: 9 });
}

#[test]
fn scenario_initialize_increment_reset() {
    let mut store = Store::new();

    instantiate(&mut store, caller("alice"), InstantiateMsg { count: 5 }).unwrap();
    try_increment(&mut store).unwrap();
    assert_eq!(query(&store, QueryMsg::GetCount {}).unwrap(), CountResponse { count: 6 });

    let err = try_reset(&mut store, caller("bob"), 100).expect_err("bob is not the owner");
    assert_eq!(err, ContractError::Unauthorized {});
    assert_eq!(query(&store, QueryMsg::GetCount {}).unwrap(), CountResponse { count: 6 });

    try_reset(&mut store, caller("alice"), 100).expect("alice is the owner");
    assert_eq!(query(&store, QueryMsg::GetCount {}).unwrap(), CountResponse { count: 100 });
}
