use oz_policy_builder::composer::{describe_composition, find_primitive};
use oz_policy_builder::decision_tree::{can_synthesize, format_amount_with_headroom, format_window_label, synthesize, ONE_WEEK_SECS};
use oz_policy_builder::deny::{deny_cases_ready, run_deny_cases, DenyCase};
use oz_policy_builder::emitter::{emit_policy_crate, sanitize_crate_name, to_pascal_case, format_string_list, EmitError};
use oz_policy_builder::generator::{sanitize_crate_name as generator_sanitize, GenerationRequest};
use oz_policy_builder::harness::{harness_can_run, run_harness, TestOutcome};
use oz_policy_builder::json::{JsonNumber, JsonValue};
use oz_policy_builder::manifest::{AssetFlow, AuthBoundary, CallManifest, ContractRef, FlowDirection};
use oz_policy_builder::mutations::{apply_mutation, can_mutate, format_raw, MutationType};
use oz_policy_builder::permit::{evaluate_policy, is_evaluable, run_permit_case};
use oz_policy_builder::policy_spec::{
    CompositionMode, Constraints, ContextRule, Params, PolicyLayer, PolicyLayerKind, PolicySpec,
};

fn manifest(label: Option<&str>, protocol: Option<&str>, counterparty: Option<&str>, function: &str) -> CallManifest {
    CallManifest {
        transaction_hash: "abc123".to_string(),
        network: "testnet".to_string(),
        ledger_sequence: 100,
        timestamp: "2025-01-01T00:00:00Z".to_string(),
        invoking_account: "GABC".to_string(),
        top_level_calls: vec![],
        unique_contracts: vec![ContractRef {
            id: "CABC".to_string(),
            label: label.map(String::from),
            protocol: protocol.map(String::from),
        }],
        unique_functions: vec![function.to_string()],
        asset_flows: vec![AssetFlow {
            asset_id: "CUSDC".to_string(),
            asset_symbol: Some("USDC".to_string()),
            direction: FlowDirection::Outbound,
            amount_raw: 50_000_000,
            amount_display: "5.0000000".to_string(),
            decimals: 7,
            counterparty: counterparty.map(String::from),
        }],
        auth_boundaries: vec![AuthBoundary {
            contract_id: "CABC".to_string(),
            function_name: function.to_string(),
            account: "GABC".to_string(),
        }],
        observed_amounts: vec![],
        summary: "Blend yield claim".to_string(),
        is_simulation: false,
        simulation_cost: None,
    }
}

fn base_manifest() -> CallManifest {
    manifest(Some("Blend"), Some("blend"), Some("BLEND_POOL"), "claim")
}

fn blend_manifest() -> CallManifest {
    let mut m = manifest(Some("Blend Pool"), Some("blend"), Some("CBLEND_POOL"), "claim");
    m.unique_contracts[0].id = "CBLEND_POOL".to_string();
    m.auth_boundaries[0].contract_id = "CBLEND_POOL".to_string();
    m
}

fn deny_manifest() -> CallManifest {
    let mut m = manifest(None, None, None, "claim");
    m.transaction_hash = "abc".to_string();
    m
}

fn swap_manifest() -> CallManifest {
    let mut m = manifest(None, None, None, "swap");
    m.transaction_hash = "abc".to_string();
    m.auth_boundaries = vec![];
    m.summary = "Test swap".to_string();
    m
}

// ── Decision tree ────────────────────────────────────────────────────────────

#[test]
fn test_synthesize_blend_claim() {
    let manifest = base_manifest();
    let spec = synthesize(&manifest, None);
    assert!(!spec.policies.is_empty());
    assert!(spec.policies.len() <= 5);
    assert!(spec.policies.iter().any(|p| p.kind == PolicyLayerKind::SpendingLimit));
    assert!(spec.policies.iter().any(|p| p.kind == PolicyLayerKind::TimeWindow));
}

#[test]
fn test_synthesize_with_constraints() {
    let manifest = base_manifest();
    let constraints = Constraints {
        amount_cap: Some(100_000_000),
        time_window_seconds: Some(ONE_WEEK_SECS),
        ..Default::default()
    };
    let spec = synthesize(&manifest, Some(&constraints));
    let amount_clarification = spec.clarifications_needed.iter().any(|c| c.field == "amount_cap");
    assert!(!amount_clarification);
}

#[test]
fn test_max_five_policies() {
    let mut manifest = base_manifest();
    for i in 0..5 {
        manifest.unique_contracts.push(ContractRef { id: format!("C{i}"), label: None, protocol: None });
    }
    let spec = synthesize(&manifest, None);
    assert!(spec.policies.len() <= 5);
}

#[test]
fn synthesized_blend_claim_in_detail() {
    let spec = synthesize(&base_manifest(), None);
    let kinds: Vec<PolicyLayerKind> = spec.policies.iter().map(|p| p.kind).collect();
    assert_eq!(
        kinds,
        vec![PolicyLayerKind::SpendingLimit, PolicyLayerKind::TimeWindow, PolicyLayerKind::SimpleThreshold]
    );
    assert_eq!(spec.composition_mode, CompositionMode::Compose);
    assert_eq!(spec.policy_name, "claim");
    assert_eq!(spec.context_rule.contracts, vec!["CABC".to_string()]);
    assert_eq!(spec.context_rule.lifetime_seconds, 31_536_000);
    let spending = &spec.policies[0];
    assert_eq!(spending.params.get("cap_amount_raw").unwrap().as_str().unwrap(), "50000000");
    assert_eq!(spending.params.get("window_seconds").unwrap().as_u64(), Some(604_800));
    assert_eq!(spending.description, "Limit outbound USDC to 5.0000000 per week");
    assert_eq!(spec.policies[1].description, "Restrict invocation to once per week");
    let fields: Vec<&str> = spec.clarifications_needed.iter().map(|c| c.field.as_str()).collect();
    assert_eq!(fields, vec!["amount_cap", "time_window_seconds", "contract_lock"]);
    assert_eq!(
        spec.clarifications_needed[0].question,
        "This transaction sent 5.0000000 USDC. Should I cap the policy at exactly 5.0000000 USDC, or allow some headroom — say 6.0000000 USDC per week?"
    );
    assert_eq!(
        spec.clarifications_needed[2].question,
        "I see blend was called. Should I lock the policy to this exact contract address (CABC), or allow any blend contract?"
    );
    assert_eq!(
        spec.rationale,
        "Policy composition: SpendingLimit + TimeWindow + SimpleThreshold. spending_limit added because transaction has outbound asset flow. time_window added to restrict invocation frequency"
    );
}

#[test]
fn swap_gets_a_custom_slippage_layer() {
    let spec = synthesize(&swap_manifest(), None);
    assert_eq!(spec.composition_mode, CompositionMode::Generate);
    let last = spec.policies.last().unwrap();
    assert_eq!(last.kind, PolicyLayerKind::Custom);
    assert!(!last.oz_primitive);
    assert_eq!(last.description, "Slippage guard: reject swap if slippage exceeds 5%");
    assert_eq!(last.params.get("max_slippage_percent").unwrap().number_to_string(), Some("5".to_string()));
    assert_eq!(spec.policies[0].params.get("window_seconds").unwrap().as_u64(), Some(86_400));
}

#[test]
fn many_contracts_get_a_weighted_threshold_and_generated_code() {
    let mut m = base_manifest();
    for i in 0..4 {
        m.unique_contracts.push(ContractRef { id: format!("C{i}"), label: None, protocol: None });
    }
    let spec = synthesize(&m, None);
    assert_eq!(spec.clarifications_needed[0].field, "contract_complexity");
    assert_eq!(
        spec.clarifications_needed[0].question,
        "This transaction involves 5 contracts, which is complex. Should I generate a custom policy, or attempt to compose primitives?"
    );
    assert!(spec.policies.iter().any(|p| p.kind == PolicyLayerKind::WeightedThreshold));
    assert_eq!(spec.composition_mode, CompositionMode::Generate);
}

#[test]
fn policy_name_from_label_when_no_function() {
    let mut m = base_manifest();
    m.unique_functions = vec![];
    m.unique_contracts[0].label = Some("Blend Pool".to_string());
    assert_eq!(synthesize(&m, None).policy_name, "blend-pool");
    m.unique_contracts = vec![];
    assert_eq!(synthesize(&m, None).policy_name, "custom-policy");
    let mut m = base_manifest();
    m.unique_functions = vec!["swap_exact_tokens".to_string()];
    assert_eq!(synthesize(&m, None).policy_name, "swap-exact-tokens");
}

#[test]
fn window_labels_and_headroom() {
    assert_eq!(format_window_label(86_400), "day");
    assert_eq!(format_window_label(86_401), "week");
    assert_eq!(format_window_label(2_592_000), "month");
    assert_eq!(format_window_label(2_592_001), "year");
    assert_eq!(format_amount_with_headroom(50_000_000, 7), "6.0000000");
    assert_eq!(format_amount_with_headroom(7, 0), "8.0");
    assert_eq!(format_amount_with_headroom(u128::MAX, 0), format!("{}.0", u128::MAX));
}

#[test]
fn subscriptions_infer_a_month() {
    let mut m = base_manifest();
    m.unique_functions = vec!["Subscribe_Monthly".to_string()];
    let spec = synthesize(&m, None);
    assert_eq!(spec.policies[1].params.get("window_seconds").unwrap().as_u64(), Some(2_592_000));
}

// ── Composition and generation ───────────────────────────────────────────────

#[test]
fn composition_description() {
    let spec = synthesize(&base_manifest(), None);
    assert_eq!(describe_composition(&spec.policies), "Composing: SpendingLimit + TimeWindow + SimpleThreshold");
    assert_eq!(describe_composition(&vec![]), "No composable OZ primitives — requires net-new codegen");
    let custom = synthesize(&swap_manifest(), None);
    assert!(find_primitive(custom.policies.last().unwrap()).is_none());
    assert_eq!(find_primitive(&spec.policies[0]).unwrap().name, "SpendingLimit");
}

#[test]
fn generator_test_sanitize_crate_name() {
    assert_eq!(generator_sanitize("Blend Yield Claim"), "blend-yield-claim");
    assert_eq!(generator_sanitize("swap_exact_tokens"), "swap_exact_tokens");
    assert_eq!(generator_sanitize("SEP-41 Sub!"), "sep-41-sub-");
}

#[test]
fn generation_request_from_spec() {
    let mut spec = synthesize(&base_manifest(), None);
    spec.policy_name = "my-yield-claim".to_string();
    let req = GenerationRequest::from_spec(&spec, "/out");
    assert_eq!(req.crate_name, "my-yield-claim");
    assert_eq!(req.display_name, "my yield claim");
    assert_eq!(req.output_dir, "/out");
}

// ── Code generation ──────────────────────────────────────────────────────────

#[test]
fn test_emit_compose_mode() {
    let manifest = blend_manifest();
    let spec = synthesize(&manifest, None);
    let emitted = emit_policy_crate(&spec, None).expect("emit failed");
    assert!(emitted.file("Cargo.toml").is_some());
    assert!(emitted.file("src/lib.rs").is_some());
    assert!(emitted.file("REVIEW.md").is_some());
    assert!(emitted.file(".gitignore").is_some());
}

#[test]
fn test_emit_crate_path_uses_output_dir() {
    let manifest = blend_manifest();
    let spec = synthesize(&manifest, None);
    let emitted = emit_policy_crate(&spec, Some("/tmp/policies")).expect("emit failed");
    assert!(emitted.crate_path.starts_with("/tmp/policies/"));
}

#[test]
fn test_emit_cargo_toml_has_crate_name() {
    let manifest = blend_manifest();
    let spec = synthesize(&manifest, None);
    let emitted = emit_policy_crate(&spec, None).expect("emit failed");
    let cargo = emitted.file("Cargo.toml").unwrap();
    assert!(cargo.contains(&emitted.summary.crate_name), "Cargo.toml must contain crate name");
}

#[test]
fn test_emit_review_md_has_spending_info() {
    let manifest = blend_manifest();
    let spec = synthesize(&manifest, None);
    let emitted = emit_policy_crate(&spec, None).expect("emit failed");
    assert!(emitted.review_md.contains("50000000") || emitted.review_md.contains("100_000_000"));
}

#[test]
fn test_emit_rejects_too_many_policies() {
    let spec = PolicySpec {
        policy_name: "over-limit".to_string(),
        context_rule: ContextRule::default(),
        composition_mode: CompositionMode::Compose,
        rationale: String::new(),
        clarifications_needed: vec![],
        policies: (0..6)
            .map(|i| PolicyLayer {
                kind: PolicyLayerKind::SimpleThreshold,
                params: Params::new(),
                oz_primitive: true,
                description: format!("Layer {}", i),
            })
            .collect(),
    };
    let result = emit_policy_crate(&spec, None);
    assert!(matches!(result, Err(EmitError::TooManyPolicies(6))));
}

#[test]
fn test_to_pascal_case() {
    assert_eq!(to_pascal_case("blend-yield-claim"), "BlendYieldClaim");
    assert_eq!(to_pascal_case("custom_policy"), "CustomPolicy");
    assert_eq!(to_pascal_case("sep41"), "Sep41");
}

#[test]
fn emitter_test_sanitize_crate_name() {
    assert_eq!(sanitize_crate_name("Blend Yield Claim!"), "blend-yield-claim-");
    assert_eq!(sanitize_crate_name("---my-policy---"), "my-policy");
}

#[test]
fn test_emit_generate_mode_has_policy_trait() {
    let mut spending_params = Params::new();
    spending_params.insert("cap_amount_raw".to_string(), JsonValue::String("50000000".to_string()));
    spending_params.insert("asset_id".to_string(), JsonValue::String("CUSDC".to_string()));
    spending_params.insert("window_seconds".to_string(), JsonValue::Number(JsonNumber::PosInt(86400u64)));

    let spec = PolicySpec {
        policy_name: "my-generate-policy".to_string(),
        context_rule: ContextRule::default(),
        composition_mode: CompositionMode::Generate,
        rationale: "Net-new codegen required for slippage".to_string(),
        clarifications_needed: vec![],
        policies: vec![PolicyLayer {
            kind: PolicyLayerKind::SpendingLimit,
            params: spending_params,
            oz_primitive: false,
            description: "Custom spending limit".to_string(),
        }],
    };

    let emitted = emit_policy_crate(&spec, None).expect("emit failed");
    let lib = emitted.file("src/lib.rs").unwrap();
    assert!(lib.contains("contractimpl"), "generate mode must include contractimpl");
    assert!(lib.contains("enforce"), "generate mode must include enforce fn");
}

#[test]
fn emit_validation_errors() {
    let mut spec = synthesize(&base_manifest(), None);
    spec.policy_name = "   ".to_string();
    assert!(matches!(emit_policy_crate(&spec, None), Err(EmitError::EmptyPolicyName)));
    spec.policy_name = "\t\u{3000}\u{2028}".to_string();
    assert!(matches!(emit_policy_crate(&spec, None), Err(EmitError::EmptyPolicyName)));
    spec.policy_name = "bad name".to_string();
    match emit_policy_crate(&spec, None) {
        Err(EmitError::InvalidPolicyName(n)) => assert_eq!(n, "bad name"),
        _ => panic!("expected InvalidPolicyName"),
    }
    spec.policy_name = "good-name".to_string();
    spec.policies[0].params = Params::new();
    match emit_policy_crate(&spec, None) {
        Err(e) => assert_eq!(e.message(), "SpendingLimit layer is missing required param: cap_amount_raw"),
        Ok(_) => panic!("expected MissingSpendingLimitParam"),
    }
    assert_eq!(EmitError::TooManyPolicies(7).message(), "Policy has 7 layers; OZ accounts supports at most 5");
}

#[test]
fn emitted_crate_in_detail() {
    let spec = synthesize(&blend_manifest(), None);
    let emitted = emit_policy_crate(&spec, Some("out//")).expect("emit failed");
    assert_eq!(emitted.crate_path, "out/claim");
    assert_eq!(emitted.summary.crate_name, "claim");
    assert_eq!(emitted.summary.mode, "Compose");
    assert_eq!(emitted.summary.layer_count, 3);
    assert!(!emitted.summary.has_custom_code);
    assert_eq!(emitted.summary.pending_clarifications.len(), 3);
    assert!(emitted.summary.pending_clarifications[0].starts_with("[amount_cap] This transaction sent"));
    assert_eq!(emitted.file("REVIEW.md").unwrap(), &emitted.review_md);
    assert_eq!(emitted.file(".gitignore").unwrap(), "/target\nCargo.lock\n");
    let lib = emitted.file("src/lib.rs").unwrap();
    assert!(lib.contains("pub struct Claim;"));
    assert!(lib.contains("&[\"CBLEND_POOL\"]"));
    assert!(emitted.review_md.contains("| Spending window (seconds) | 604800 |"));
    let default_path = emit_policy_crate(&spec, None).unwrap();
    assert_eq!(default_path.crate_path, "generated/claim");
    assert!(emitted.file("missing").is_none());
}

#[test]
fn string_lists() {
    assert_eq!(format_string_list(&vec![]), "[]");
    assert_eq!(format_string_list(&vec!["a".to_string(), "b".to_string()]), "[\"a\", \"b\"]");
}

// ── Harness ──────────────────────────────────────────────────────────────────

#[test]
fn test_amount_exceeded_doubles_amount() {
    let m = swap_manifest();
    let mutated = apply_mutation(&m, &MutationType::AmountExceeded, 86400);
    assert_eq!(mutated.asset_flows[0].amount_raw, 100_000_000);
}

#[test]
fn test_wrong_asset_changes_symbol() {
    let m = swap_manifest();
    let mutated = apply_mutation(&m, &MutationType::WrongAsset, 86400);
    assert_ne!(mutated.asset_flows[0].asset_symbol, Some("USDC".to_string()));
}

#[test]
fn test_extra_function_call_adds_node() {
    let m = swap_manifest();
    let mutated = apply_mutation(&m, &MutationType::ExtraFunctionCall, 86400);
    assert!(mutated.unique_functions.contains(&"unauthorized_drain".to_string()));
}

#[test]
fn test_out_of_window_advances_time() {
    let m = swap_manifest();
    let mutated = apply_mutation(&m, &MutationType::OutOfWindow, 86400);
    assert!(mutated.timestamp.starts_with("2099"));
}

#[test]
fn mutations_in_detail() {
    let m = swap_manifest();
    let doubled = apply_mutation(&m, &MutationType::AmountExceeded, 86400);
    assert_eq!(doubled.asset_flows[0].amount_display, "10.0000000");
    assert_eq!(doubled.summary, "[MUTATION: amount×2] Test swap");
    let wrong = apply_mutation(&m, &MutationType::WrongAsset, 86400);
    assert_eq!(wrong.asset_flows[0].asset_id, "CEURC_TESTNET_WRONG");
    assert_eq!(wrong.asset_flows[0].asset_symbol, Some("EURC".to_string()));
    let contract = apply_mutation(&m, &MutationType::WrongContract, 86400);
    assert_eq!(contract.unique_contracts[0].id, "CWRONG_CONTRACT_ADDRESS_DO_NOT_PERMIT");
    assert_eq!(contract.unique_contracts[0].label, Some("Wrong contract".to_string()));
    let late = apply_mutation(&m, &MutationType::OutOfWindow, 86400);
    assert_eq!(late.ledger_sequence, 10_000_100);
    assert_eq!(late.timestamp, "2099-01-01T00:00:00Z");
    let extra = apply_mutation(&m, &MutationType::ExtraFunctionCall, 86400);
    assert_eq!(extra.top_level_calls.len(), 1);
    assert_eq!(extra.top_level_calls[0].authorized_by, Some("GABC".to_string()));
    assert_eq!(MutationType::OutOfWindow.name(), "out_of_window");
    assert_eq!(format_raw(123, 2), "1.23");
}

#[test]
fn test_deny_amount_exceeded() {
    let manifest = deny_manifest();
    let spec = synthesize(&manifest, None);
    let results = run_deny_cases(&spec, &manifest);
    let amount_case = results.iter().find(|r| r.case_name == "amount_exceeded").expect("amount_exceeded case missing");
    assert!(amount_case.passed, "amount_exceeded should be DENIED but got: {}", amount_case.details);
}

#[test]
fn test_deny_wrong_contract() {
    let manifest = deny_manifest();
    let spec = synthesize(&manifest, None);
    let results = run_deny_cases(&spec, &manifest);
    let case = results.iter().find(|r| r.case_name == "wrong_contract").expect("wrong_contract case missing");
    assert!(case.passed, "wrong_contract should be DENIED but got: {}", case.details);
}

#[test]
fn test_deny_out_of_window() {
    let manifest = deny_manifest();
    let spec = synthesize(&manifest, None);
    let results = run_deny_cases(&spec, &manifest);
    let case = results.iter().find(|r| r.case_name == "out_of_window").expect("out_of_window case missing");
    assert!(case.passed, "out_of_window should be DENIED but got: {}", case.details);
}

#[test]
fn test_all_five_deny_cases_generated() {
    let manifest = deny_manifest();
    let spec = synthesize(&manifest, None);
    let results = run_deny_cases(&spec, &manifest);
    assert_eq!(results.len(), 5, "Must have exactly 5 deny cases");
}

#[test]
fn permit_case_of_the_original_passes() {
    let manifest = deny_manifest();
    let spec = synthesize(&manifest, None);
    let permit = run_permit_case(&spec, &manifest);
    assert_eq!(permit.actual, TestOutcome::Permit);
    assert!(permit.passed);
    assert_eq!(permit.details, "All policy layers passed");
    assert_eq!(permit.case_name, "original_transaction");
}

#[test]
fn policy_evaluation_details() {
    let manifest = deny_manifest();
    let spec = synthesize(&manifest, None);
    let doubled = apply_mutation(&manifest, &MutationType::AmountExceeded, 86400);
    let (outcome, details) = evaluate_policy(&spec, &doubled);
    assert_eq!(outcome, TestOutcome::Deny);
    assert_eq!(details, "SpendingLimit: outbound 100000000 exceeds cap 50000000");
    let wrong = apply_mutation(&manifest, &MutationType::WrongContract, 86400);
    let (_, details) = evaluate_policy(&spec, &wrong);
    assert_eq!(details, "Contract CWRONG_CONTRACT_ADDRESS_DO_NOT_PERMIT not in context rule whitelist");
    let extra = apply_mutation(&manifest, &MutationType::ExtraFunctionCall, 86400);
    let (_, details) = evaluate_policy(&spec, &extra);
    assert_eq!(details, "Function unauthorized_drain not in context rule whitelist");
    let late = apply_mutation(&manifest, &MutationType::OutOfWindow, 86400);
    let (_, details) = evaluate_policy(&spec, &late);
    assert_eq!(details, "TimeWindow: timestamp past end of allowed window");
    let mut stranger = manifest.clone();
    stranger.auth_boundaries[0].account = "GOTHER".to_string();
    let (_, details) = evaluate_policy(&spec, &stranger);
    assert_eq!(details, "Threshold: invoking account not in auth boundaries");
}

#[test]
fn harness_report_in_detail() {
    let manifest = deny_manifest();
    let spec = synthesize(&manifest, None);
    let report = run_harness(&spec, &manifest, None);
    assert!(report.permit_result.passed);
    assert_eq!(report.deny_results.len(), 5);
    let wrong_asset = &report.deny_results[1];
    assert_eq!(wrong_asset.case_name, "wrong_asset");
    assert_eq!(wrong_asset.actual, TestOutcome::Deny);
    assert!(wrong_asset.details.ends_with("Policy eval: SpendingLimit: outbound asset CEURC_TESTNET_WRONG not covered by the policy"));
    assert!(report.deny_results.iter().all(|r| r.passed));
    assert!(report.passed);
    assert!(report.report.starts_with("═══════════════════════════════════════\n OZ Policy Builder — Harness Report\n"));
    assert!(report.report.contains("PERMIT: ✅ PASS — All policy layers passed"));
    assert!(!report.report.contains("HARNESS FAILED"));
}

// ── Preconditions of the pipeline ────────────────────────────────────────────

#[test]
fn synthesis_needs_ascii_ids_and_small_decimals() {
    let m = base_manifest();
    assert!(can_synthesize(&m, None));

    let mut no_symbol = base_manifest();
    no_symbol.asset_flows[0].asset_symbol = None;
    assert!(can_synthesize(&no_symbol, None));
    no_symbol.asset_flows[0].asset_id = "CUSDCXY\u{e9}_SAC".to_string();
    assert!(!can_synthesize(&no_symbol, None));
    no_symbol.asset_flows[0].asset_id = "CUSD\u{e9}_SAC".to_string();
    assert!(can_synthesize(&no_symbol, None));
    let spec = synthesize(&no_symbol, None);
    let symbol = spec.policies[0].params.get("asset_symbol").unwrap().as_str().unwrap().clone();
    assert_eq!(symbol, "CUSD\u{e9}_S");

    let mut wide = base_manifest();
    wide.asset_flows[0].decimals = 39;
    assert!(!can_synthesize(&wide, None));
    let capped = Constraints { amount_cap: Some(10), ..Constraints::default() };
    assert!(can_synthesize(&wide, Some(&capped)));
}

#[test]
fn evaluation_needs_spending_to_fit() {
    let m = base_manifest();
    let spec = synthesize(&m, None);
    assert!(is_evaluable(&spec, &m));

    let mut big = base_manifest();
    let mut second = big.asset_flows[0].clone();
    big.asset_flows[0].amount_raw = u128::MAX;
    second.amount_raw = 1;
    big.asset_flows.push(second);
    assert!(!is_evaluable(&spec, &big));
    assert!(!harness_can_run(&spec, &big, &None));
}

#[test]
fn mutations_need_room() {
    let m = base_manifest();
    assert!(can_mutate(&m, MutationType::AmountExceeded));
    assert!(can_mutate(&m, MutationType::OutOfWindow));

    let mut big = base_manifest();
    big.asset_flows[0].amount_raw = u128::MAX / 2 + 1;
    assert!(!can_mutate(&big, MutationType::AmountExceeded));
    assert!(can_mutate(&big, MutationType::WrongAsset));

    let mut late = base_manifest();
    late.ledger_sequence = u32::MAX - 9_999_999;
    assert!(!can_mutate(&late, MutationType::OutOfWindow));
    late.ledger_sequence = u32::MAX - 10_000_000;
    assert!(can_mutate(&late, MutationType::OutOfWindow));
}

#[test]
fn harness_readiness() {
    let m = base_manifest();
    let spec = synthesize(&m, None);
    assert!(deny_cases_ready(&spec, &m));
    assert!(harness_can_run(&spec, &m, &None));

    let extra = DenyCase { name: "extra".to_string(), description: "extra case".to_string(), mutated_manifest: base_manifest() };
    assert!(harness_can_run(&spec, &m, &Some(vec![extra])));

    let mut big = base_manifest();
    big.asset_flows[0].amount_raw = u128::MAX;
    let mut second = big.asset_flows[0].clone();
    second.amount_raw = 1;
    big.asset_flows.push(second);
    let bad = DenyCase { name: "bad".to_string(), description: "overflowing case".to_string(), mutated_manifest: big };
    assert!(!harness_can_run(&spec, &m, &Some(vec![bad])));

    let mut late = base_manifest();
    late.ledger_sequence = u32::MAX;
    assert!(!deny_cases_ready(&spec, &late));
}

#[test]
fn whitespace_agrees_with_std() {
    for u in 0u32..=0x10FFFF {
        if let Some(c) = char::from_u32(u) {
            assert_eq!(oz_policy_builder::text::is_whitespace(c), c.is_whitespace(), "U+{:04X}", u);
        }
    }
}
