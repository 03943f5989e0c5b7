use oz_policy_builder::context::{Context, ContractContext, EnforceError, Signer, Val};
use oz_policy_builder::frequency_limit::{FrequencyLimitPolicy, FrequencyState, InstallParams as FrequencyParams};
use oz_policy_builder::spending_limit::{check_spend, InstallParams as SpendingParams, SpendingLimitPolicy, SpendingState};
use oz_policy_builder::storage::{name_key, Env, PolicyError, PolicyStorage, StoredValue};
use oz_policy_builder::time_window::{InstallParams as WindowParams, TimeWindowPolicy, TimeWindowState, WindowType};

fn spending(cap_amount: u64, window_ledgers: u32, allow_partial: bool) -> SpendingParams {
    SpendingParams { cap_amount, asset_id: "CASSET".to_string(), window_ledgers, allow_partial }
}

fn transfer_context() -> Context {
    Context::Contract(ContractContext { contract: "CTOKEN".to_string(), fn_name: "transfer".to_string(), args: vec![] })
}

// ── Spending limit ───────────────────────────────────────────────────────────

#[test]
fn test_install_and_get() {
    let mut env = Env::new();
    let account = "GACCOUNT";
    let rule_id = 123;
    let params = spending(1000, 1000, true);

    SpendingLimitPolicy.install(&mut env, account, rule_id, params.clone()).unwrap();

    let stored_params = SpendingLimitPolicy.get_params(&env, account, rule_id);
    assert!(stored_params.is_ok());
    let stored_params = stored_params.unwrap();
    assert_eq!(stored_params.cap_amount, params.cap_amount);
    assert_eq!(stored_params.asset_id, params.asset_id);

    let state = SpendingLimitPolicy.get_state(&env, account, rule_id);
    assert!(state.is_ok());
    let state = state.unwrap();
    assert_eq!(state.spent_amount, 0);
    assert_eq!(state.window_start, env.sequence());
}

#[test]
fn test_uninstall() {
    let mut env = Env::new();
    let account = "GACCOUNT";
    let rule_id = 123;
    SpendingLimitPolicy.install(&mut env, account, rule_id, spending(1000, 1000, true)).unwrap();

    let state_before = SpendingLimitPolicy.get_state(&env, account, rule_id);
    assert!(state_before.is_ok());

    SpendingLimitPolicy.uninstall(&mut env, account, rule_id).unwrap();

    let state_after = SpendingLimitPolicy.get_state(&env, account, rule_id);
    assert!(state_after.is_err());
}

#[test]
fn test_complete_install_uninstall_cycle() {
    let mut env = Env::new();
    let account = "GACCOUNT";
    let context_rule_id = 123;
    let policy = SpendingLimitPolicy;
    let params = spending(1000, 1000, true);

    let result = policy.install(&mut env, account, context_rule_id, params.clone());
    assert!(result.is_ok(), "Install should succeed with valid params");

    let stored_params = policy.get_params(&env, account, context_rule_id).expect("Should retrieve stored params");
    assert_eq!(stored_params.cap_amount, params.cap_amount);
    assert_eq!(stored_params.asset_id, params.asset_id);
    assert_eq!(stored_params.window_ledgers, params.window_ledgers);
    assert_eq!(stored_params.allow_partial, params.allow_partial);

    let state = policy.get_state(&env, account, context_rule_id).expect("Should retrieve state");
    assert_eq!(state.spent_amount, 0);
    assert_eq!(state.window_start, env.sequence());

    let uninstall_result = policy.uninstall(&mut env, account, context_rule_id);
    assert!(uninstall_result.is_ok(), "Uninstall should succeed");

    let state_result = policy.get_state(&env, account, context_rule_id);
    assert!(state_result.is_err(), "State should be cleared after uninstall");
    assert_eq!(state_result.unwrap_err(), PolicyError::NotFound);
}

#[test]
fn integration_test_parameter_validation() {
    let mut env = Env::new();
    let account = "GACCOUNT";
    let context_rule_id = 456;
    let policy = SpendingLimitPolicy;

    let result1 = policy.install(&mut env, account, context_rule_id, spending(0, 1000, true));
    assert!(result1.is_err(), "Zero cap amount should fail validation");
    assert_eq!(result1.unwrap_err(), PolicyError::InvalidParams);

    let result2 = policy.install(&mut env, account, context_rule_id, spending(1000, 0, true));
    assert!(result2.is_err(), "Zero window ledgers should fail validation");
    assert_eq!(result2.unwrap_err(), PolicyError::InvalidParams);

    let result3 = policy.install(&mut env, account, context_rule_id, spending(1000, 1000, false));
    assert!(result3.is_ok(), "Valid params should succeed");
}

#[test]
fn test_multiple_accounts_isolation() {
    let mut env = Env::new();
    let (account1, account2) = ("GACCOUNT1", "GACCOUNT2");
    let context_rule_id = 789;
    let policy = SpendingLimitPolicy;
    let params1 = spending(1000, 1000, true);
    let params2 = spending(2000, 2000, false);

    policy.install(&mut env, account1, context_rule_id, params1.clone()).expect("Install for account1 should succeed");
    policy.install(&mut env, account2, context_rule_id, params2.clone()).expect("Install for account2 should succeed");

    let stored_params1 = policy.get_params(&env, account1, context_rule_id).expect("Should get account1 params");
    assert_eq!(stored_params1.cap_amount, params1.cap_amount);
    assert_eq!(stored_params1.window_ledgers, params1.window_ledgers);

    let stored_params2 = policy.get_params(&env, account2, context_rule_id).expect("Should get account2 params");
    assert_eq!(stored_params2.cap_amount, params2.cap_amount);
    assert_eq!(stored_params2.window_ledgers, params2.window_ledgers);

    let state1 = policy.get_state(&env, account1, context_rule_id).expect("Should get account1 state");
    let state2 = policy.get_state(&env, account2, context_rule_id).expect("Should get account2 state");
    assert_eq!(state1.spent_amount, 0);
    assert_eq!(state2.spent_amount, 0);
}

#[test]
fn integration_test_policy_trait_implementation() {
    let mut env = Env::new();
    let policy = SpendingLimitPolicy;
    policy.install(&mut env, "GACCOUNT", 1, spending(1000, 1000, true)).unwrap();
    let result = policy.enforce(&mut env, &transfer_context(), 1, "GACCOUNT");
    assert!(result.is_ok(), "Placeholder enforce should succeed");
}

#[test]
fn test_storage_keys_scoping() {
    let mut env = Env::new();
    let account = "GACCOUNT";
    let context_rule_id = 999;
    let policy = SpendingLimitPolicy;

    policy.install(&mut env, account, context_rule_id, spending(1000, 1000, true)).expect("Install should succeed");
    let state = policy.get_state(&env, account, context_rule_id).expect("Should get state");

    env.set_sequence(state.window_start + 500);

    let state_after = policy.get_state(&env, account, context_rule_id).expect("Should still get state after ledger change");
    assert_eq!(state_after.window_start, state.window_start, "Window start should not change without policy enforcement");
}

// ── Time window ──────────────────────────────────────────────────────────────

#[test]
fn test_window_calculations() {
    let policy = TimeWindowPolicy;
    let params = WindowParams { window_type: WindowType::Daily, offset_ledgers: 0 };
    assert_eq!(policy.window_size(&params), 24 * 60 * 6);
    let params = WindowParams { window_type: WindowType::Custom(1000), offset_ledgers: 0 };
    assert_eq!(policy.window_size(&params), 1000);
}

#[test]
fn test_window_validation() {
    let mut env = Env::new();
    let account = "GACCOUNT";
    let context_rule_id = 123;
    let policy = TimeWindowPolicy;

    let params = WindowParams { window_type: WindowType::Custom(0), offset_ledgers: 0 };
    let result = policy.install(&mut env, account, context_rule_id, params);
    assert!(matches!(result, Err(PolicyError::InvalidParams)));

    let params = WindowParams { window_type: WindowType::Custom(1000), offset_ledgers: 0 };
    let result = policy.install(&mut env, account, context_rule_id, params.clone());
    assert!(result.is_ok());

    let stored_params = policy.get_params(&env, account, context_rule_id).unwrap();
    match stored_params.window_type {
        WindowType::Custom(ledgers) => assert_eq!(ledgers, 1000),
        _ => panic!("Expected Custom window type"),
    }
}

#[test]
fn lib_test_window_enforcement_logic() {
    let mut env = Env::new();
    let policy = TimeWindowPolicy;
    let params = WindowParams { window_type: WindowType::Daily, offset_ledgers: 100 };
    let state = TimeWindowState { last_execution: None };

    env.set_sequence(50);
    assert!(!policy.is_within_window(&env, &params, &state));
    env.set_sequence(150);
    assert!(policy.is_within_window(&env, &params, &state));

    let state = TimeWindowState { last_execution: Some(1000) };
    env.set_sequence(1100);
    assert!(!policy.is_within_window(&env, &params, &state));

    let window_size = policy.window_size(&params);
    env.set_sequence(1000 + window_size + 1);
    assert!(policy.is_within_window(&env, &params, &state));
}

#[test]
fn test_window_type_calculations() {
    let policy = TimeWindowPolicy;
    let size = |window_type: WindowType| policy.window_size(&WindowParams { window_type, offset_ledgers: 0 });
    assert_eq!(size(WindowType::Daily), 24 * 60 * 6);
    assert_eq!(size(WindowType::Weekly), 7 * 24 * 60 * 6);
    assert_eq!(size(WindowType::Monthly), 30 * 24 * 60 * 6);
    assert_eq!(size(WindowType::Custom(5000)), 5000);
}

#[test]
fn test_install_and_state_management() {
    let mut env = Env::new();
    let account = "GACCOUNT";
    let context_rule_id = 123;
    let policy = TimeWindowPolicy;
    let params = WindowParams { window_type: WindowType::Daily, offset_ledgers: 100 };

    let result = policy.install(&mut env, account, context_rule_id, params.clone());
    assert!(result.is_ok(), "Install should succeed");

    let stored_params = policy.get_params(&env, account, context_rule_id).expect("Should retrieve params");
    match (stored_params.window_type, params.window_type) {
        (WindowType::Daily, WindowType::Daily) => (),
        _ => panic!("Window type mismatch"),
    }
    assert_eq!(stored_params.offset_ledgers, params.offset_ledgers);

    let state = policy.get_state(&env, account, context_rule_id).expect("Should retrieve state");
    assert_eq!(state.last_execution, None, "Initial state should have no executions");

    env.set_sequence(50);
    let sim_before = policy.simulate_check(&env, account, context_rule_id).expect("Simulation should work");
    assert!(!sim_before, "Should fail before offset");

    env.set_sequence(150);
    let sim_after = policy.simulate_check(&env, account, context_rule_id).expect("Simulation should work");
    assert!(sim_after, "Should pass after offset");
}

#[test]
fn integration_test_window_enforcement_logic() {
    let mut env = Env::new();
    let policy = TimeWindowPolicy;
    let params = WindowParams { window_type: WindowType::Custom(100), offset_ledgers: 50 };
    let state = TimeWindowState { last_execution: None };

    env.set_sequence(40);
    assert!(!policy.is_within_window(&env, &params, &state));
    env.set_sequence(60);
    assert!(policy.is_within_window(&env, &params, &state));

    let state = TimeWindowState { last_execution: Some(1000) };
    env.set_sequence(1050);
    assert!(!policy.is_within_window(&env, &params, &state));
    env.set_sequence(1101);
    assert!(policy.is_within_window(&env, &params, &state));
}

#[test]
fn time_window_test_parameter_validation() {
    let mut env = Env::new();
    let account = "GACCOUNT";
    let context_rule_id = 456;
    let policy = TimeWindowPolicy;

    let result = policy.install(&mut env, account, context_rule_id, WindowParams { window_type: WindowType::Custom(0), offset_ledgers: 0 });
    assert!(result.is_err(), "Zero custom window should fail");
    assert_eq!(result.unwrap_err(), PolicyError::InvalidParams);

    let result = policy.install(&mut env, account, context_rule_id, WindowParams { window_type: WindowType::Custom(1000), offset_ledgers: 500 });
    assert!(result.is_ok(), "Valid custom window should succeed");
}

#[test]
fn time_window_test_policy_trait_implementation() {
    let mut env = Env::new();
    let policy = TimeWindowPolicy;
    let weight = policy.weight();
    assert!(weight > 0, "Policy should have positive weight");
    assert!(weight < 15, "Time window should have lower weight than spending limit");
    let result = policy.enforce(&mut env, 1, &Signer::Other("GSIGNER".to_string()));
    assert_eq!(result, Err(EnforceError::Denied));
}

#[test]
fn test_multiple_window_types() {
    let mut env = Env::new();
    let account = "GACCOUNT";
    let context_rule_id = 789;
    let policy = TimeWindowPolicy;
    let test_cases = vec![
        (WindowType::Daily, "daily"),
        (WindowType::Weekly, "weekly"),
        (WindowType::Monthly, "monthly"),
        (WindowType::Custom(500), "custom"),
    ];
    for (window_type, description) in test_cases {
        let params = WindowParams { window_type: window_type.clone(), offset_ledgers: 0 };
        let result = policy.install(&mut env, account, context_rule_id, params.clone());
        assert!(result.is_ok(), "{} window should install successfully", description);
        policy.uninstall(&mut env, account, context_rule_id).expect("Uninstall should succeed");
    }
}

#[test]
fn time_window_allows_one_execution_per_window() {
    let mut env = Env::new();
    let policy = TimeWindowPolicy;
    let signer = Signer::SmartAccount("GACCOUNT".to_string());
    policy.install(&mut env, "GACCOUNT", 7, WindowParams { window_type: WindowType::Custom(100), offset_ledgers: 10 }).unwrap();
    env.set_sequence(5);
    assert_eq!(policy.enforce(&mut env, 7, &signer), Err(EnforceError::Denied));
    env.set_sequence(20);
    assert_eq!(policy.enforce(&mut env, 7, &signer), Ok(()));
    assert_eq!(policy.get_state(&env, "GACCOUNT", 7).unwrap().last_execution, Some(20));
    env.set_sequence(119);
    assert_eq!(policy.enforce(&mut env, 7, &signer), Err(EnforceError::Denied));
    env.set_sequence(120);
    assert_eq!(policy.enforce(&mut env, 7, &signer), Ok(()));
}

// ── Frequency limit ──────────────────────────────────────────────────────────

fn frequency(max_calls: u32, window_ledgers: u32, reset_on_expiry: bool) -> FrequencyParams {
    FrequencyParams { max_calls, window_ledgers, reset_on_expiry }
}

#[test]
fn lib_test_install_and_basic_operations() {
    let mut env = Env::new();
    let account = "GACCOUNT";
    let policy = FrequencyLimitPolicy;
    let params = frequency(3, 1000, true);

    assert!(policy.install(&mut env, account, 123, params.clone()).is_ok());
    let stored_params = policy.get_params(&env, account, 123).unwrap();
    assert_eq!(stored_params.max_calls, params.max_calls);
    assert_eq!(stored_params.window_ledgers, params.window_ledgers);

    let state = policy.get_state(&env, account, 123).unwrap();
    assert_eq!(state.call_count, 0);
    assert_eq!(state.last_call, 0);
    assert_eq!(state.window_start, env.sequence());
}

#[test]
fn lib_test_install_validation() {
    let mut env = Env::new();
    let policy = FrequencyLimitPolicy;
    let result = policy.install(&mut env, "GACCOUNT", 123, frequency(0, 1000, true));
    assert!(matches!(result, Err(PolicyError::InvalidParams)));
    let result = policy.install(&mut env, "GACCOUNT", 123, frequency(3, 0, true));
    assert!(matches!(result, Err(PolicyError::InvalidParams)));
}

#[test]
fn lib_test_window_update_logic() {
    let mut env = Env::new();
    let policy = FrequencyLimitPolicy;
    let params = frequency(3, 100, true);
    let state = FrequencyState { call_count: 2, window_start: 1000, last_call: 1050 };

    env.set_sequence(1050);
    let updated = policy.update_window(&env, &params, state.clone());
    assert_eq!(updated.call_count, 2);
    assert_eq!(updated.window_start, 1000);

    env.set_sequence(1150);
    let updated = policy.update_window(&env, &params, state);
    assert_eq!(updated.call_count, 0);
    assert_eq!(updated.window_start, 1150);
}

#[test]
fn test_simulation_check() {
    let mut env = Env::new();
    let account = "GACCOUNT";
    let context_rule_id = 123;
    let policy = FrequencyLimitPolicy;

    policy.install(&mut env, account, context_rule_id, frequency(2, 1000, true)).unwrap();
    assert!(policy.simulate_check(&env, account, context_rule_id).unwrap());

    let mut state = policy.get_state(&env, account, context_rule_id).unwrap();
    state.call_count = 2;
    PolicyStorage::set(&mut env, account, context_rule_id, name_key("state"), StoredValue::FrequencyState(state));

    assert!(!policy.simulate_check(&env, account, context_rule_id).unwrap());
}

#[test]
fn test_basic_frequency_operations() {
    let mut env = Env::new();
    let account = "GACCOUNT";
    let policy = FrequencyLimitPolicy;
    let params = frequency(3, 1000, true);

    assert!(policy.install(&mut env, account, 123, params.clone()).is_ok(), "Install should succeed");
    let stored_params = policy.get_params(&env, account, 123).expect("Should retrieve params");
    assert_eq!(stored_params.max_calls, params.max_calls);
    assert_eq!(stored_params.window_ledgers, params.window_ledgers);
    assert_eq!(stored_params.reset_on_expiry, params.reset_on_expiry);

    let state = policy.get_state(&env, account, 123).expect("Should retrieve state");
    assert_eq!(state.call_count, 0);
    assert_eq!(state.last_call, 0);
    assert_eq!(state.window_start, env.sequence());
}

#[test]
fn test_frequency_simulation() {
    let mut env = Env::new();
    let account = "GACCOUNT";
    let context_rule_id = 456;
    let policy = FrequencyLimitPolicy;

    policy.install(&mut env, account, context_rule_id, frequency(2, 1000, true)).expect("Install should succeed");
    let sim1 = policy.simulate_check(&env, account, context_rule_id).expect("Simulation should work");
    assert!(sim1, "Should allow first call");

    let mut state = policy.get_state(&env, account, context_rule_id).expect("Should get state");
    state.call_count = 1;
    state.last_call = env.sequence();
    PolicyStorage::set(&mut env, account, context_rule_id, name_key("state"), StoredValue::FrequencyState(state));
    let sim2 = policy.simulate_check(&env, account, context_rule_id).expect("Simulation should work");
    assert!(sim2, "Should allow second call");

    state.call_count = 2;
    PolicyStorage::set(&mut env, account, context_rule_id, name_key("state"), StoredValue::FrequencyState(state));
    let sim3 = policy.simulate_check(&env, account, context_rule_id).expect("Simulation should work");
    assert!(!sim3, "Should deny third call (limit reached)");
}

#[test]
fn integration_test_window_update_logic() {
    let mut env = Env::new();
    let policy = FrequencyLimitPolicy;
    let params = frequency(3, 100, true);
    let state = FrequencyState { call_count: 2, window_start: 1000, last_call: 1050 };

    env.set_sequence(1050);
    let updated = policy.update_window(&env, &params, state.clone());
    assert_eq!(updated.call_count, 2, "Call count should not reset within window");
    assert_eq!(updated.window_start, 1000, "Window start should not change within window");

    env.set_sequence(1150);
    let updated = policy.update_window(&env, &params, state);
    assert_eq!(updated.call_count, 0, "Call count should reset beyond window");
    assert_eq!(updated.window_start, 1150, "Window start should update to current ledger");

    let params = frequency(3, 100, false);
    let state = FrequencyState { call_count: 2, window_start: 1000, last_call: 1050 };
    env.set_sequence(1150);
    let updated = policy.update_window(&env, &params, state);
    assert_eq!(updated.call_count, 0, "Call count should reset");
}

#[test]
fn frequency_test_parameter_validation() {
    let mut env = Env::new();
    let policy = FrequencyLimitPolicy;
    let result1 = policy.install(&mut env, "GACCOUNT", 789, frequency(0, 1000, true));
    assert!(result1.is_err(), "Zero max_calls should fail");
    assert_eq!(result1.unwrap_err(), PolicyError::InvalidParams);
    let result2 = policy.install(&mut env, "GACCOUNT", 789, frequency(3, 0, true));
    assert!(result2.is_err(), "Zero window_ledgers should fail");
    assert_eq!(result2.unwrap_err(), PolicyError::InvalidParams);
    let result3 = policy.install(&mut env, "GACCOUNT", 789, frequency(5, 5000, false));
    assert!(result3.is_ok(), "Valid params should succeed");
}

#[test]
fn frequency_test_policy_trait_implementation() {
    let mut env = Env::new();
    let policy = FrequencyLimitPolicy;
    let weight = policy.weight();
    assert!(weight > 0, "Policy should have positive weight");
    assert!(weight < 15, "Frequency limit should have moderate weight");
    let result = policy.enforce(&mut env, 1, &Signer::Other("GSIGNER".to_string()));
    assert_eq!(result, Err(EnforceError::Denied));
}

#[test]
fn test_different_frequency_configurations() {
    let mut env = Env::new();
    let account = "GACCOUNT";
    let context_rule_id = 999;
    let policy = FrequencyLimitPolicy;
    let test_cases = vec![
        (1, 100, true, "strict: 1 call per 100 ledgers"),
        (5, 500, true, "moderate: 5 calls per 500 ledgers"),
        (10, 1000, false, "generous: 10 calls per 1000 ledgers sliding"),
        (100, 10000, true, "high frequency: 100 calls per 10000 ledgers"),
    ];
    for (max_calls, window_ledgers, reset_on_expiry, description) in test_cases {
        let params = frequency(max_calls, window_ledgers, reset_on_expiry);
        let result = policy.install(&mut env, account, context_rule_id, params.clone());
        assert!(result.is_ok(), "{} should install successfully", description);
        let stored_params = policy.get_params(&env, account, context_rule_id).expect("Should retrieve params");
        assert_eq!(stored_params.max_calls, max_calls);
        assert_eq!(stored_params.window_ledgers, window_ledgers);
        assert_eq!(stored_params.reset_on_expiry, reset_on_expiry);
        policy.uninstall(&mut env, account, context_rule_id).expect("Uninstall should succeed");
    }
}

#[test]
fn frequency_enforce_counts_up_to_the_limit() {
    let mut env = Env::new();
    let policy = FrequencyLimitPolicy;
    let signer = Signer::SmartAccount("GACCOUNT".to_string());
    env.set_sequence(10);
    policy.install(&mut env, "GACCOUNT", 3, frequency(2, 100, true)).unwrap();
    assert_eq!(policy.enforce(&mut env, 3, &signer), Ok(()));
    assert_eq!(policy.enforce(&mut env, 3, &signer), Ok(()));
    assert_eq!(policy.enforce(&mut env, 3, &signer), Err(EnforceError::Denied));
    assert_eq!(policy.get_state(&env, "GACCOUNT", 3).unwrap().call_count, 2);
    env.set_sequence(110);
    assert_eq!(policy.enforce(&mut env, 3, &signer), Ok(()));
    let state = policy.get_state(&env, "GACCOUNT", 3).unwrap();
    assert_eq!((state.call_count, state.window_start, state.last_call), (1, 110, 110));
}

fn asset_transfer(contract: &str, amount: i128) -> Context {
    Context::Contract(ContractContext {
        contract: contract.to_string(),
        fn_name: "transfer".to_string(),
        args: vec![Val::Address("GACCOUNT".to_string()), Val::Address("GDEST".to_string()), Val::I128(amount)],
    })
}

#[test]
fn spending_limit_caps_the_window() {
    let mut env = Env::new();
    env.set_sequence(100);
    let policy = SpendingLimitPolicy;
    let params = spending(1000, 1000, true);
    policy.install(&mut env, "GACCOUNT", 1, params.clone()).unwrap();

    assert_eq!(policy.enforce(&mut env, &asset_transfer("CASSET", 600), 1, "GACCOUNT"), Ok(()));
    let state = policy.get_state(&env, "GACCOUNT", 1).unwrap();
    assert_eq!(state.spent_amount, 600);

    // A spend beyond the cap is refused; the policy is not enforced then.
    let (after, within) = check_spend(&params, state, 100, &asset_transfer("CASSET", 500));
    assert_eq!(after, SpendingState { spent_amount: 1100, window_start: 100 });
    assert!(!within);
    let (_, within) = check_spend(&params, state, 100, &asset_transfer("CASSET", 400));
    assert!(within);
    assert_eq!(policy.enforce(&mut env, &asset_transfer("CASSET", 400), 1, "GACCOUNT"), Ok(()));
    let state = policy.get_state(&env, "GACCOUNT", 1).unwrap();
    assert_eq!(state.spent_amount, 1000);

    // Other assets are not counted.
    let (_, within) = check_spend(&params, state, 100, &asset_transfer("COTHER", 5000));
    assert!(within);
    assert_eq!(policy.enforce(&mut env, &asset_transfer("COTHER", 5000), 1, "GACCOUNT"), Ok(()));
    assert_eq!(policy.get_state(&env, "GACCOUNT", 1).unwrap().spent_amount, 1000);

    // A new window starts from zero.
    env.set_sequence(1100);
    assert_eq!(policy.enforce(&mut env, &asset_transfer("CASSET", 1000), 1, "GACCOUNT"), Ok(()));
    let state = policy.get_state(&env, "GACCOUNT", 1).unwrap();
    assert_eq!((state.spent_amount, state.window_start), (1000, 1100));
    let (_, within) = check_spend(&params, state, 1100, &asset_transfer("CASSET", 1500));
    assert!(!within);
}

#[test]
fn time_window_counts_an_execution_at_ledger_zero() {
    let mut env = Env::new();
    let policy = TimeWindowPolicy;
    let signer = Signer::SmartAccount("GACCOUNT".to_string());
    policy.install(&mut env, "GACCOUNT", 7, WindowParams { window_type: WindowType::Custom(100), offset_ledgers: 0 }).unwrap();
    assert_eq!(policy.enforce(&mut env, 7, &signer), Ok(()));
    assert_eq!(policy.get_state(&env, "GACCOUNT", 7).unwrap().last_execution, Some(0));
    env.set_sequence(50);
    assert_eq!(policy.enforce(&mut env, 7, &signer), Err(EnforceError::Denied));
    env.set_sequence(100);
    assert_eq!(policy.enforce(&mut env, 7, &signer), Ok(()));
}
