use oz_policy_builder::storage::{
    name_key, params_key, state_key, Env, PolicyError, PolicyStorage, PolicyStorageKey, StoredValue, Subkey,
};

#[test]
fn test_storage_scoping() {
    let mut env = Env::new();
    let account1 = "GACCOUNT1";
    let account2 = "GACCOUNT2";
    let context_rule_id = 123;

    PolicyStorage::set(&mut env, account1, context_rule_id, name_key("balance"), StoredValue::U64(100));

    let value = PolicyStorage::get(&env, account1, context_rule_id, name_key("balance"));
    assert!(matches!(value, Some(StoredValue::U64(100))));

    let value = PolicyStorage::get(&env, account2, context_rule_id, name_key("balance"));
    assert!(value.is_none());

    assert!(PolicyStorage::has(&env, account1, context_rule_id, name_key("balance")));
    assert!(!PolicyStorage::has(&env, account2, context_rule_id, name_key("balance")));
}

#[test]
fn test_policy_error_types() {
    let error = PolicyError::ConstraintViolated;
    assert_eq!(error, PolicyError::ConstraintViolated);

    let error = PolicyError::InvalidParams;
    assert_eq!(error, PolicyError::InvalidParams);

    let error = PolicyError::NotFound;
    assert_eq!(error, PolicyError::NotFound);

    let error = PolicyError::StorageError;
    assert_eq!(error, PolicyError::StorageError);
}

#[test]
fn test_params_key_generation() {
    let account = "GACCOUNT";
    let context_rule_id = 123;

    let key = params_key(account, context_rule_id, name_key("test_param"));
    match key {
        PolicyStorageKey::Params(addr, id, _subkey) => {
            assert_eq!(addr, account);
            assert_eq!(id, context_rule_id);
        }
        _ => panic!("Expected Params variant"),
    }
}

#[test]
fn test_state_key_generation() {
    let account = "GACCOUNT";
    let context_rule_id = 456;

    let key = state_key(account, context_rule_id, name_key("test_state"));
    match key {
        PolicyStorageKey::State(addr, id, _subkey) => {
            assert_eq!(addr, account);
            assert_eq!(id, context_rule_id);
        }
        _ => panic!("Expected State variant"),
    }
}

#[test]
fn test_storage_overwrite() {
    let mut env = Env::new();
    let account = "GACCOUNT";
    let context_rule_id = 789;

    PolicyStorage::set(&mut env, account, context_rule_id, name_key("counter"), StoredValue::U64(1));
    let value1 = PolicyStorage::get(&env, account, context_rule_id, name_key("counter"));
    assert!(matches!(value1, Some(StoredValue::U64(1))));

    PolicyStorage::set(&mut env, account, context_rule_id, name_key("counter"), StoredValue::U64(2));
    let value2 = PolicyStorage::get(&env, account, context_rule_id, name_key("counter"));
    assert!(matches!(value2, Some(StoredValue::U64(2))));

    PolicyStorage::set(&mut env, account, context_rule_id, name_key("name"), StoredValue::Text("test".to_string()));
    let value3 = PolicyStorage::get(&env, account, context_rule_id, name_key("name"));
    match value3 {
        Some(StoredValue::Text(t)) => assert_eq!(t, "test".to_string()),
        _ => panic!("expected text"),
    }
}

#[test]
fn test_storage_removal() {
    let mut env = Env::new();
    let account = "GACCOUNT";
    let context_rule_id = 999;

    PolicyStorage::set(&mut env, account, context_rule_id, name_key("temp"), StoredValue::Bool(true));
    assert!(PolicyStorage::has(&env, account, context_rule_id, name_key("temp")));

    // Storing the unit value does not remove the key.
    PolicyStorage::set(&mut env, account, context_rule_id, name_key("temp"), StoredValue::Unit);
    assert!(PolicyStorage::has(&env, account, context_rule_id, name_key("temp")));
}

#[test]
fn test_multiple_accounts_scoping() {
    let mut env = Env::new();
    let (account1, account2, account3) = ("GA1", "GA2", "GA3");
    let context_rule_id = 111;

    PolicyStorage::set(&mut env, account1, context_rule_id, name_key("data"), StoredValue::Text("account1_data".to_string()));
    PolicyStorage::set(&mut env, account2, context_rule_id, name_key("data"), StoredValue::Text("account2_data".to_string()));

    match PolicyStorage::get(&env, account1, context_rule_id, name_key("data")) {
        Some(StoredValue::Text(t)) => assert_eq!(t, "account1_data".to_string()),
        _ => panic!("expected account1 data"),
    }
    match PolicyStorage::get(&env, account2, context_rule_id, name_key("data")) {
        Some(StoredValue::Text(t)) => assert_eq!(t, "account2_data".to_string()),
        _ => panic!("expected account2 data"),
    }
    assert!(PolicyStorage::get(&env, account3, context_rule_id, name_key("data")).is_none());
}

#[test]
fn test_multiple_context_rules_scoping() {
    let mut env = Env::new();
    let account = "GACCOUNT";

    PolicyStorage::set(&mut env, account, 222, name_key("settings"), StoredValue::Text("settings1".to_string()));
    PolicyStorage::set(&mut env, account, 333, name_key("settings"), StoredValue::Text("settings2".to_string()));

    match PolicyStorage::get(&env, account, 222, name_key("settings")) {
        Some(StoredValue::Text(t)) => assert_eq!(t, "settings1".to_string()),
        _ => panic!("expected settings1"),
    }
    match PolicyStorage::get(&env, account, 333, name_key("settings")) {
        Some(StoredValue::Text(t)) => assert_eq!(t, "settings2".to_string()),
        _ => panic!("expected settings2"),
    }
}

#[test]
fn indexed_subkeys_are_distinct_slots() {
    let mut env = Env::new();
    PolicyStorage::set(&mut env, "GA", 1, Subkey::Indexed("policy".to_string(), 0), StoredValue::U64(10));
    PolicyStorage::set(&mut env, "GA", 1, Subkey::Indexed("policy".to_string(), 1), StoredValue::U64(11));
    assert!(matches!(PolicyStorage::get(&env, "GA", 1, Subkey::Indexed("policy".to_string(), 0)), Some(StoredValue::U64(10))));
    assert!(matches!(PolicyStorage::get(&env, "GA", 1, Subkey::Indexed("policy".to_string(), 1)), Some(StoredValue::U64(11))));
    assert!(!PolicyStorage::has(&env, "GA", 1, name_key("policy")));
}

#[test]
fn ledger_sequence_moves_without_touching_storage() {
    let mut env = Env::new();
    assert_eq!(env.sequence(), 0);
    PolicyStorage::set(&mut env, "GA", 1, name_key("x"), StoredValue::U64(1));
    env.set_sequence(500);
    assert_eq!(env.sequence(), 500);
    assert!(matches!(PolicyStorage::get(&env, "GA", 1, name_key("x")), Some(StoredValue::U64(1))));
}
