use oz_policy_builder::blend::{self, BlendConstraint};
use oz_policy_builder::bounded_swap::{PolicyError as SwapError, SoroswapBoundedSwapPolicy, SPENDING_CAP, WINDOW_LEDGERS};
use oz_policy_builder::context::{Context, ContextRule, ContractContext, Signer, Val};
use oz_policy_builder::sep41::{self, Sep41Constraint};
use oz_policy_builder::simulation::{SimulationHarness, TestCase, TestMutation};
use oz_policy_builder::soroswap::{self, SoroswapConstraint};
use oz_policy_builder::storage::{Env, StorageKey, StoredValue};
use oz_policy_builder::subscription::{
    check_payment, extract_transfer_args, PaymentRefusal, Sep41SubscriptionParams, Sep41SubscriptionPolicy,
    SubscriptionState,
};
use oz_policy_builder::yield_claim::{evaluate_claim, sac_transfer_amount, BlendYieldClaimParams, BlendYieldClaimPolicy, SpendState};

fn transfer(to: &str, amount: i128) -> Context {
    Context::Contract(ContractContext {
        contract: "CTOKEN".to_string(),
        fn_name: "transfer".to_string(),
        args: vec![Val::Address("GFROM".to_string()), Val::Address(to.to_string()), Val::I128(amount)],
    })
}

fn other_call() -> Context {
    Context::Contract(ContractContext { contract: "CTOKEN".to_string(), fn_name: "approve".to_string(), args: vec![] })
}

// ── Protocol adapters ────────────────────────────────────────────────────────

#[test]
fn lib_test_policy_utils() {
    let swap_func = "swap_exact_tokens_for_tokens";
    let add_liq_func = "add_liquidity";
    let remove_liq_func = "remove_liquidity";
    let other_func = "other";

    assert!(soroswap::is_swap(swap_func));
    assert!(!soroswap::is_swap(add_liq_func));

    assert!(soroswap::is_add_liquidity(add_liq_func));
    assert!(!soroswap::is_add_liquidity(swap_func));

    assert!(soroswap::is_remove_liquidity(remove_liq_func));
    assert!(!soroswap::is_remove_liquidity(other_func));
}

#[test]
fn blend_policy_utils() {
    let claim_func = "claim";
    let deposit_func = "deposit";
    let withdraw_func = "withdraw";
    let other_func = "other";

    assert!(blend::is_yield_claim(claim_func));
    assert!(!blend::is_yield_claim(deposit_func));

    assert!(blend::is_deposit(deposit_func));
    assert!(!blend::is_deposit(claim_func));

    assert!(blend::is_withdraw(withdraw_func));
    assert!(!blend::is_withdraw(other_func));
}

#[test]
fn sep41_policy_utils() {
    let other_func = "other";

    assert!(sep41::is_transfer(sep41::TRANSFER));
    assert!(sep41::is_transfer(sep41::TRANSFER_FROM));
    assert!(!sep41::is_transfer(sep41::APPROVE));

    assert!(sep41::is_approval(sep41::APPROVE));
    assert!(!sep41::is_approval(sep41::TRANSFER));

    assert!(sep41::is_query(sep41::BALANCE));
    assert!(!sep41::is_query(sep41::TRANSFER));
    assert!(!sep41::is_query(other_func));
}

#[test]
fn test_subscription_utilities() {
    assert_eq!(sep41::next_billing_time(1000, 100), 1100);
    assert_eq!(sep41::next_billing_time(0, 1000), 1000);

    assert!(sep41::is_billing_due(1100, 1000, 100));
    assert!(sep41::is_billing_due(1200, 1000, 100));
    assert!(!sep41::is_billing_due(1050, 1000, 100));
    assert!(!sep41::is_billing_due(1099, 1000, 100));

    assert_eq!(sep41::remaining_cycles(10, 0), Some(10));
    assert_eq!(sep41::remaining_cycles(10, 5), Some(5));
    assert_eq!(sep41::remaining_cycles(10, 9), Some(1));
    assert_eq!(sep41::remaining_cycles(10, 10), Some(0));
}

#[test]
fn remaining_cycles_never_go_below_zero() {
    assert_eq!(sep41::remaining_cycles(3, 7), Some(0));
}

#[test]
fn test_slippage_calculations() {
    let expected = 1000u64;

    assert_eq!(soroswap::calculate_min_output(expected, 0), 1000);
    assert_eq!(soroswap::calculate_min_output(expected, 5), 950);
    assert_eq!(soroswap::calculate_min_output(expected, 10), 900);
    assert_eq!(soroswap::calculate_min_output(expected, 100), 0);

    assert!(soroswap::check_slippage(1000, 1000, 5));
    assert!(soroswap::check_slippage(960, 1000, 5));
    assert!(soroswap::check_slippage(950, 1000, 5));
    assert!(!soroswap::check_slippage(940, 1000, 5));
}

#[test]
fn slippage_rounds_down_and_refuses_zero_expected() {
    assert_eq!(soroswap::calculate_min_output(999, 5), 949);
    assert!(!soroswap::check_slippage(10, 0, 5));
}

#[test]
fn test_blend_constraint_serialization() {
    let constraint = BlendConstraint::YieldClaimLimit {
        max_amount: 1000,
        asset_id: "CASSET".to_string(),
        period_ledgers: 10000,
    };
    let copy = constraint.clone();
    assert!(matches!(copy, BlendConstraint::YieldClaimLimit { max_amount: 1000, period_ledgers: 10000, .. }));

    let allowed_pools = vec!["CPOOLA".to_string(), "CPOOLB".to_string()];
    let constraint = BlendConstraint::DepositRestriction { allowed_pools, max_deposit: 5000 };
    let _ = constraint;
}

#[test]
fn test_sep41_constraint_serialization() {
    let recipient1 = "GRECIPIENTA".to_string();
    let recipient2 = "GRECIPIENTB".to_string();
    let allowed_recipients = vec![recipient1.clone(), recipient2.clone()];

    let constraint = Sep41Constraint::TransferLimit {
        max_amount: 1000,
        daily_limit: 5000,
        allowed_recipients,
        allow_any_recipient: false,
    };
    let copy = constraint.clone();
    assert!(matches!(copy, Sep41Constraint::TransferLimit { max_amount: 1000, daily_limit: 5000, .. }));

    let constraint = Sep41Constraint::SubscriptionBilling {
        billing_amount: 100,
        billing_period: 30 * 24 * 60 * 6,
        service_address: "CSERVICE".to_string(),
        max_cycles: Some(12),
    };
    let _ = constraint;
}

#[test]
fn test_soroswap_constraint_serialization() {
    let token_a = "CTOKENA".to_string();
    let token_b = "CTOKENB".to_string();
    let allowed_pairs = vec![(token_a.clone(), token_b.clone())];

    let constraint = SoroswapConstraint::SwapLimit {
        max_input: 10000,
        max_output: 9500,
        allowed_pairs,
        max_slippage_percent: 5,
    };
    let copy = constraint.clone();
    assert!(matches!(copy, SoroswapConstraint::SwapLimit { max_input: 10000, max_output: 9500, .. }));

    let constraint = SoroswapConstraint::TradingHours {
        start_offset: 9 * 60 * 6,
        end_offset: 17 * 60 * 6,
        allowed_days: vec![1, 2, 3, 4, 5],
    };
    let _ = constraint;
}

#[test]
fn adapters_extract_fixed_function_names() {
    assert_eq!(sep41::extract_sep41_function(&Val::Other), Some("transfer".to_string()));
    assert_eq!(soroswap::extract_soroswap_function(&Val::Other), Some("swap_exact_tokens_for_tokens".to_string()));
    assert_eq!(blend::extract_blend_function(&Val::Other), Some("claim".to_string()));
    assert!(!sep41::is_sep41_token(&"CTOKEN".to_string()));
    assert!(!soroswap::is_soroswap_contract(&"CROUTER".to_string()));
    assert!(!blend::is_blend_contract(&"CPOOL".to_string()));
}

// ── Simulation harness ───────────────────────────────────────────────────────

#[test]
fn test_generate_standard_tests() {
    let harness = SimulationHarness;

    let spending_tests = harness.generate_standard_tests("spending_limit").unwrap();
    assert_eq!(spending_tests.len(), 2);

    let time_tests = harness.generate_standard_tests("time_window").unwrap();
    assert_eq!(time_tests.len(), 2);

    let freq_tests = harness.generate_standard_tests("frequency_limit").unwrap();
    assert_eq!(freq_tests.len(), 2);

    let allowlist_tests = harness.generate_standard_tests("allowlist").unwrap();
    assert_eq!(allowlist_tests.len(), 2);

    let composite_tests = harness.generate_standard_tests("composite").unwrap();
    assert_eq!(composite_tests.len(), 1);

    let unknown_tests = harness.generate_standard_tests("unknown").unwrap();
    assert_eq!(unknown_tests.len(), 1);
}

#[test]
fn standard_tests_in_detail() {
    let harness = SimulationHarness;
    let spending_tests = harness.generate_standard_tests("spending_limit").unwrap();
    assert_eq!(spending_tests[0].description, "Amount within limit");
    assert!(matches!(spending_tests[0].mutation, TestMutation::AmountOverLimit(500)));
    assert!(spending_tests[0].should_pass);
    assert_eq!(spending_tests[1].description, "Amount over limit");
    assert!(matches!(spending_tests[1].mutation, TestMutation::AmountOverLimit(1500)));
    assert!(!spending_tests[1].should_pass);

    let composite_tests = harness.generate_standard_tests("composite").unwrap();
    assert_eq!(composite_tests[0].description, "Multiple violations");
    match &composite_tests[0].mutation {
        TestMutation::CombinedViolation(v) => {
            assert_eq!(v.len(), 2);
            assert!(matches!(v[0], TestMutation::AmountOverLimit(1500)));
            assert!(matches!(v[1], TestMutation::OutsideTimeWindow));
        },
        _ => panic!("expected a combined violation"),
    }

    let unknown_tests = harness.generate_standard_tests("unknown").unwrap();
    assert_eq!(unknown_tests[0].description, "Basic permit test");
}

#[test]
fn test_test_case_serialization() {
    let test_case = TestCase {
        description: "Test description".to_string(),
        mutation: TestMutation::AmountOverLimit(1000),
        should_pass: true,
    };
    let copy = test_case.clone();
    assert_eq!(copy.description, "Test description");
    assert!(matches!(copy.mutation, TestMutation::AmountOverLimit(1000)));

    let combined_mutations = vec![TestMutation::AmountOverLimit(1000), TestMutation::OutsideTimeWindow];
    let test_case = TestCase {
        description: "Combined test".to_string(),
        mutation: TestMutation::CombinedViolation(combined_mutations),
        should_pass: false,
    };
    let copy = test_case.clone();
    match copy.mutation {
        TestMutation::CombinedViolation(v) => assert_eq!(v.len(), 2),
        _ => panic!("expected a combined violation"),
    }
}

#[test]
fn test_run_test_case_placeholder() {
    let harness = SimulationHarness;
    let policy_address = "CPOLICY".to_string();
    let rule = ContextRule { id: 0 };
    let signer = Signer::SmartAccount("CACCOUNT".to_string());
    let context: Vec<Context> = Vec::new();
    let auth_context = Val::Other;

    let test_case = TestCase {
        description: "Placeholder test".to_string(),
        mutation: TestMutation::AmountOverLimit(1000),
        should_pass: true,
    };

    let result = harness
        .run_test_case(&policy_address, &rule, &signer, &context, &auth_context, test_case)
        .unwrap();

    assert_eq!(result.description, "Placeholder test");
    assert!(result.passed);
    assert_eq!(result.details, "Test executed (placeholder)");
}

#[test]
fn standard_suite_reports_each_case() {
    let harness = SimulationHarness;
    let rule = ContextRule { id: 1 };
    let signer = Signer::Other("GSIGNER".to_string());
    let results = harness
        .run_standard_suite(&"CPOLICY".to_string(), &rule, &signer, &Vec::new(), &Val::Other, "time_window")
        .unwrap();
    assert_eq!(results.len(), 2);
    assert_eq!(results[0].description, "Within time window");
    assert_eq!(results[1].description, "Outside time window");
    assert!(results.iter().all(|r| r.passed));
}

// ── Subscription policy ──────────────────────────────────────────────────────

fn subscription() -> Sep41SubscriptionParams {
    Sep41SubscriptionParams { recipient: "GSERVICE".to_string(), subscription_amount: 100, period_ledgers: 1000 }
}

#[test]
fn subscription_payment_checks() {
    let params = subscription();
    let fresh = SubscriptionState { last_payment_ledger: None };
    assert_eq!(check_payment(&params, fresh, 5, "GSERVICE", 100), Ok(()));
    assert_eq!(check_payment(&params, fresh, 5, "GOTHER", 100), Err(PaymentRefusal::RecipientMismatch));
    assert_eq!(check_payment(&params, fresh, 5, "GSERVICE", 101), Err(PaymentRefusal::AmountExceedsSubscription));

    let paid = SubscriptionState { last_payment_ledger: Some(2000) };
    assert_eq!(check_payment(&params, paid, 2999, "GSERVICE", 50), Err(PaymentRefusal::PaymentTooSoon));
    assert_eq!(check_payment(&params, paid, 3000, "GSERVICE", 50), Ok(()));
}

#[test]
fn subscription_transfer_arguments() {
    assert_eq!(extract_transfer_args(&transfer("GSERVICE", 42)), Some(("GSERVICE".to_string(), 42)));
    assert_eq!(extract_transfer_args(&other_call()), None);
    assert_eq!(extract_transfer_args(&Context::CreateContract), None);
}

#[test]
fn subscription_lifecycle() {
    let mut env = Env::new();
    env.set_sequence(500);
    let policy = Sep41SubscriptionPolicy;
    policy.install(&mut env, subscription(), 7, "CACCOUNT");
    assert_eq!(policy.get_state(&env, "CACCOUNT", 7), (0, 100, 1000));

    policy.enforce(&mut env, &other_call(), 7, "CACCOUNT");
    assert_eq!(policy.get_state(&env, "CACCOUNT", 7), (0, 100, 1000));

    policy.enforce(&mut env, &transfer("GSERVICE", 100), 7, "CACCOUNT");
    assert_eq!(policy.get_state(&env, "CACCOUNT", 7), (500, 100, 1000));

    policy.uninstall(&mut env, 7, "CACCOUNT");
    assert!(env.get(&StorageKey::AccountParams("CACCOUNT".to_string(), 7)).is_none());
    assert!(env.get(&StorageKey::AccountState("CACCOUNT".to_string(), 7)).is_none());
}

// ── Yield-claim policy ───────────────────────────────────────────────────────

#[test]
fn yield_claim_window_and_cap() {
    let params = BlendYieldClaimParams { spending_limit: 1000, period_ledgers: 100 };
    let state = SpendState { spent: 900, window_start_ledger: 10 };

    let (next, ok) = evaluate_claim(params, state, 50, 100);
    assert_eq!(next, SpendState { spent: 1000, window_start_ledger: 10 });
    assert!(ok);

    let (next, ok) = evaluate_claim(params, state, 50, 101);
    assert_eq!(next, SpendState { spent: 1001, window_start_ledger: 10 });
    assert!(!ok);

    let (next, ok) = evaluate_claim(params, state, 110, 500);
    assert_eq!(next, SpendState { spent: 500, window_start_ledger: 110 });
    assert!(ok);

    let (next, ok) = evaluate_claim(params, state, 50, -5);
    assert_eq!(next, state);
    assert!(ok);
}

#[test]
fn yield_claim_transfer_amount() {
    assert_eq!(sac_transfer_amount(&transfer("GPOOL", 250)), 250);
    assert_eq!(sac_transfer_amount(&other_call()), 0);
    assert_eq!(sac_transfer_amount(&Context::CreateContract), 0);
}

#[test]
fn yield_claim_enforce_records_spending() {
    let mut env = Env::new();
    env.set_sequence(40);
    let policy = BlendYieldClaimPolicy;
    policy.install(&mut env, BlendYieldClaimParams { spending_limit: 1000, period_ledgers: 100 }, 3, "CACCOUNT");

    policy.enforce(&mut env, &transfer("GPOOL", 300), 3, "CACCOUNT");
    policy.enforce(&mut env, &other_call(), 3, "CACCOUNT");
    match env.get(&StorageKey::AccountState("CACCOUNT".to_string(), 3)) {
        Some(StoredValue::SpendState(s)) => assert_eq!(s, SpendState { spent: 300, window_start_ledger: 40 }),
        _ => panic!("expected a spend state"),
    }

    policy.uninstall(&mut env, 3, "CACCOUNT");
    assert!(env.get(&StorageKey::AccountState("CACCOUNT".to_string(), 3)).is_none());
}

// ── Bounded swap policy ──────────────────────────────────────────────────────

#[test]
fn bounded_swap_daily_cap() {
    let mut env = Env::new();
    env.set_sequence(100);
    let policy = SoroswapBoundedSwapPolicy;
    let account = "CACCOUNT".to_string();
    let router = "CROUTER".to_string();

    assert_eq!(policy.can_enforce(&env, &account, "swap", &router, "swap"), Err(SwapError::NotInstalled));
    assert_eq!(policy.enforce(&mut env, &account, "swap", &router, "swap", 1), Err(SwapError::NotInstalled));

    policy.install(&mut env, &account, "swap");
    assert_eq!(policy.can_enforce(&env, &account, "swap", &router, "swap"), Ok(()));

    assert_eq!(policy.enforce(&mut env, &account, "swap", &router, "swap", SPENDING_CAP), Ok(()));
    assert_eq!(policy.enforce(&mut env, &account, "swap", &router, "swap", 1), Err(SwapError::SpendingLimitExceeded));

    env.set_sequence(100 + WINDOW_LEDGERS);
    assert_eq!(policy.enforce(&mut env, &account, "swap", &router, "swap", 1), Ok(()));

    policy.uninstall(&mut env, &account, "swap");
    assert_eq!(policy.can_enforce(&env, &account, "swap", &router, "swap"), Err(SwapError::NotInstalled));
}

#[test]
fn bounded_swap_slippage() {
    let policy = SoroswapBoundedSwapPolicy;
    assert_eq!(policy.check_slippage(10_000, 9_500), Ok(()));
    assert_eq!(policy.check_slippage(10_000, 9_499), Err(SwapError::SlippageExceeded));
    assert_eq!(policy.check_slippage(999, 950), Ok(()));
    assert_eq!(policy.check_slippage(999, 949), Err(SwapError::SlippageExceeded));
}

#[test]
fn subscription_payment_at_ledger_zero_counts() {
    let mut env = Env::new();
    let policy = Sep41SubscriptionPolicy;
    policy.install(&mut env, subscription(), 7, "CACCOUNT");
    policy.enforce(&mut env, &transfer("GSERVICE", 100), 7, "CACCOUNT");
    match env.get(&StorageKey::AccountState("CACCOUNT".to_string(), 7)) {
        Some(StoredValue::SubscriptionState(s)) => assert_eq!(s.last_payment_ledger, Some(0)),
        _ => panic!("expected a subscription state"),
    }
    let paid = SubscriptionState { last_payment_ledger: Some(0) };
    assert_eq!(check_payment(&subscription(), paid, 999, "GSERVICE", 100), Err(PaymentRefusal::PaymentTooSoon));
    assert_eq!(check_payment(&subscription(), paid, 1000, "GSERVICE", 100), Ok(()));
    assert_eq!(policy.get_state(&env, "CACCOUNT", 7), (0, 100, 1000));
}

#[test]
fn saturating_addition_of_spending() {
    assert_eq!(oz_policy_builder::num::saturating_add(2, 3), 5);
    assert_eq!(oz_policy_builder::num::saturating_add(i128::MAX, 1), i128::MAX);
    assert_eq!(oz_policy_builder::num::saturating_add(i128::MIN, -1), i128::MIN);
    assert_eq!(oz_policy_builder::num::saturating_add(i128::MAX, i128::MIN), -1);
}
