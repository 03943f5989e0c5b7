use oz_policy_builder::asset_extractor::{
    extract_address_from_scval, extract_amount_from_scval, extract_asset_flows, extract_symbol_from_scval,
    format_amount,
};
use oz_policy_builder::invocation_tree::{collect_unique_contracts, collect_unique_functions, max_depth, prune_call_tree};
use oz_policy_builder::json::{FloatValue, JsonNumber, JsonValue};
use oz_policy_builder::manifest::{AssetFlow, CallNode, FlowDirection};
use oz_policy_builder::xdr::{extract_auth_boundaries, DiagnosticEvent, RawAuthEntry, RawInvocation, XdrDecodeError};

fn text(s: &str) -> JsonValue {
    JsonValue::String(s.to_string())
}

fn num(n: u64) -> JsonValue {
    JsonValue::Number(JsonNumber::PosInt(n))
}

fn obj(members: Vec<(&str, JsonValue)>) -> JsonValue {
    JsonValue::Object(members.into_iter().map(|(k, v)| (k.to_string(), v)).collect())
}

fn make_node(contract_id: &str, function_name: &str, authorized_by: Option<&str>) -> CallNode {
    CallNode {
        contract_id: contract_id.to_string(),
        contract_label: None,
        function_name: function_name.to_string(),
        args: vec![],
        sub_calls: vec![],
        requires_auth: authorized_by.is_some(),
        authorized_by: authorized_by.map(String::from),
    }
}

#[test]
fn test_format_amount_xlm() {
    assert_eq!(format_amount(50_000_000, 7), "5.0000000");
    assert_eq!(format_amount(1_234_567, 7), "0.1234567");
    assert_eq!(format_amount(0, 7), "0.0000000");
}

#[test]
fn test_extract_symbol() {
    let val = obj(vec![("symbol", text("transfer"))]);
    assert_eq!(extract_symbol_from_scval(&val), Some("transfer".to_string()));
}

#[test]
fn test_extract_amount_i128() {
    let val = obj(vec![("i128", obj(vec![("lo", num(50000000)), ("hi", num(0))]))]);
    assert_eq!(extract_amount_from_scval(&val), Some(50_000_000));
}

#[test]
fn test_extract_asset_flows_outbound() {
    let events = vec![DiagnosticEvent {
        in_successful_call: true,
        contract_id: Some("CUSDC_SAC".to_string()),
        event_type: "contract".to_string(),
        topics: vec![
            obj(vec![("symbol", text("transfer"))]),
            obj(vec![("address", text("GABC_INVOKER"))]),
            obj(vec![("address", text("GXYZ_RECIPIENT"))]),
            obj(vec![("symbol", text("USDC"))]),
        ],
        data: obj(vec![("i128", obj(vec![("lo", num(10_0000000u64)), ("hi", num(0u64))]))]),
    }];

    let flows = extract_asset_flows(&events, "GABC_INVOKER");
    assert_eq!(flows.len(), 1);
    assert_eq!(flows[0].direction, FlowDirection::Outbound);
    assert_eq!(flows[0].asset_symbol, Some("USDC".to_string()));
    assert_eq!(flows[0].amount_raw, 100_000_000);
    assert_eq!(flows[0].amount_display, "10.0000000");
}

#[test]
fn test_extract_asset_flows_ignores_unrelated() {
    let events = vec![DiagnosticEvent {
        in_successful_call: true,
        contract_id: Some("CUSDC_SAC".to_string()),
        event_type: "contract".to_string(),
        topics: vec![
            obj(vec![("symbol", text("transfer"))]),
            obj(vec![("address", text("GOTHER1"))]),
            obj(vec![("address", text("GOTHER2"))]),
        ],
        data: num(100),
    }];

    let flows = extract_asset_flows(&events, "GABC_INVOKER");
    assert_eq!(flows.len(), 0);
}

#[test]
fn test_raw_invocation_into_call_node() {
    let raw = RawInvocation {
        contract_id: "CABC123".to_string(),
        function_name: "swap".to_string(),
        args: vec![num(100)],
        sub_invocations: vec![RawInvocation {
            contract_id: "CDEF456".to_string(),
            function_name: "transfer".to_string(),
            args: vec![],
            sub_invocations: vec![],
        }],
    };

    let node = raw.into_call_node(Some("GABC".to_string()));
    assert_eq!(node.contract_id, "CABC123");
    assert_eq!(node.function_name, "swap");
    assert_eq!(node.sub_calls.len(), 1);
    assert_eq!(node.sub_calls[0].function_name, "transfer");
    assert!(node.requires_auth);
}

#[test]
fn test_extract_auth_boundaries() {
    let entries = vec![RawAuthEntry {
        account: "GABC".to_string(),
        root_invocation: Some(RawInvocation {
            contract_id: "CABC".to_string(),
            function_name: "claim".to_string(),
            args: vec![],
            sub_invocations: vec![],
        }),
    }];
    let boundaries = extract_auth_boundaries(&entries);
    assert_eq!(boundaries.len(), 1);
    assert_eq!(boundaries[0].account, "GABC");
    assert_eq!(boundaries[0].function_name, "claim");
}

#[test]
fn test_prune_keeps_authorized_node() {
    let nodes = vec![make_node("C1", "swap", Some("GABC"))];
    let pruned = prune_call_tree(nodes, "GABC", &[]);
    assert_eq!(pruned.len(), 1);
}

#[test]
fn test_prune_removes_unauthorized_node() {
    let nodes = vec![make_node("C1", "internal_fn", None)];
    let pruned = prune_call_tree(nodes, "GABC", &[]);
    assert_eq!(pruned.len(), 0);
}

#[test]
fn test_prune_keeps_asset_flow_node() {
    let nodes = vec![make_node("C_SAC", "transfer", None)];
    let flows = vec![AssetFlow {
        asset_id: "C_SAC".to_string(),
        asset_symbol: Some("USDC".to_string()),
        direction: FlowDirection::Outbound,
        amount_raw: 1_000_000,
        amount_display: "1.0000000".to_string(),
        decimals: 7,
        counterparty: Some("GABC".to_string()),
    }];
    let pruned = prune_call_tree(nodes, "GABC", &flows);
    assert_eq!(pruned.len(), 1);
}

#[test]
fn test_collect_unique_functions() {
    let mut root = make_node("C1", "swap", Some("GABC"));
    root.sub_calls = vec![make_node("C2", "transfer", None)];
    let fns = collect_unique_functions(&[root]);
    assert!(fns.contains(&"swap".to_string()));
    assert!(fns.contains(&"transfer".to_string()));
}

#[test]
fn test_max_depth() {
    let mut root = make_node("C1", "swap", Some("GABC"));
    root.sub_calls = vec![make_node("C2", "transfer", None)];
    assert_eq!(max_depth(&[root]), 2);
}

// ── Further cases ────────────────────────────────────────────────────────────

#[test]
fn format_amount_without_decimals_is_an_integer() {
    assert_eq!(format_amount(1234, 0), "1234");
    assert_eq!(format_amount(5, 2), "0.05");
    assert_eq!(format_amount(u128::MAX, 38), "3.40282366920938463463374607431768211455");
}

#[test]
fn symbol_forms() {
    assert_eq!(extract_symbol_from_scval(&obj(vec![("string", text("swap"))])), Some("swap".to_string()));
    assert_eq!(extract_symbol_from_scval(&text("plain")), Some("plain".to_string()));
    assert_eq!(extract_symbol_from_scval(&obj(vec![("symbol", num(3))])), None);
    assert_eq!(extract_symbol_from_scval(&num(3)), None);
}

#[test]
fn address_forms() {
    assert_eq!(extract_address_from_scval(None), None);
    let v = obj(vec![("accountId", text("GACC"))]);
    assert_eq!(extract_address_from_scval(Some(&v)), Some("GACC".to_string()));
    assert_eq!(extract_address_from_scval(Some(&text("GPLAIN"))), Some("GPLAIN".to_string()));
    assert_eq!(extract_address_from_scval(Some(&JsonValue::Null)), None);
}

#[test]
fn amount_forms() {
    let wide = obj(vec![("u128", obj(vec![("lo", num(5)), ("hi", num(1))]))]);
    assert_eq!(extract_amount_from_scval(&wide), Some((1u128 << 64) | 5));
    let missing_parts = obj(vec![("i128", obj(vec![]))]);
    assert_eq!(extract_amount_from_scval(&missing_parts), Some(0));
    assert_eq!(extract_amount_from_scval(&num(42)), Some(42));
    assert_eq!(extract_amount_from_scval(&JsonValue::Number(JsonNumber::NegInt(-7))), Some(0));
    let float = JsonValue::Number(JsonNumber::Float(FloatValue { truncated: 12, negative: false, text: "12.5".to_string() }));
    assert_eq!(extract_amount_from_scval(&float), Some(12));
    assert_eq!(extract_amount_from_scval(&text("12")), None);
}

#[test]
fn inbound_flow_has_sender_as_counterparty() {
    let events = vec![DiagnosticEvent {
        in_successful_call: true,
        contract_id: Some("CXLM".to_string()),
        event_type: "contract".to_string(),
        topics: vec![text("transfer"), text("GSENDER"), text("GME")],
        data: num(25),
    }];
    let flows = extract_asset_flows(&events, "GME");
    assert_eq!(flows.len(), 1);
    assert_eq!(flows[0].direction, FlowDirection::Inbound);
    assert_eq!(flows[0].counterparty, Some("GSENDER".to_string()));
    assert_eq!(flows[0].asset_symbol, None);
    assert_eq!(flows[0].amount_display, "0.0000025");
}

#[test]
fn non_contract_events_are_ignored() {
    let events = vec![DiagnosticEvent {
        in_successful_call: true,
        contract_id: Some("CXLM".to_string()),
        event_type: "diagnostic".to_string(),
        topics: vec![text("transfer"), text("GME"), text("GOTHER")],
        data: num(25),
    }];
    assert_eq!(extract_asset_flows(&events, "GME").len(), 0);
}

#[test]
fn auth_boundaries_follow_the_tree_in_pre_order() {
    let leaf = |c: &str, f: &str| RawInvocation {
        contract_id: c.to_string(),
        function_name: f.to_string(),
        args: vec![],
        sub_invocations: vec![],
    };
    let root = RawInvocation {
        contract_id: "CROOT".to_string(),
        function_name: "swap".to_string(),
        args: vec![],
        sub_invocations: vec![
            RawInvocation {
                contract_id: "CMID".to_string(),
                function_name: "route".to_string(),
                args: vec![],
                sub_invocations: vec![leaf("CLEAF", "transfer")],
            },
            leaf("CSECOND", "approve"),
        ],
    };
    let entries = vec![
        RawAuthEntry { account: "GA".to_string(), root_invocation: Some(root) },
        RawAuthEntry { account: "GB".to_string(), root_invocation: None },
    ];
    let b = extract_auth_boundaries(&entries);
    let order: Vec<&str> = b.iter().map(|x| x.contract_id.as_str()).collect();
    assert_eq!(order, vec!["CROOT", "CMID", "CLEAF", "CSECOND"]);
    assert!(b.iter().all(|x| x.account == "GA"));
}

#[test]
fn sub_calls_of_a_call_node_carry_no_account() {
    let raw = RawInvocation {
        contract_id: "C1".to_string(),
        function_name: "f".to_string(),
        args: vec![],
        sub_invocations: vec![RawInvocation {
            contract_id: "C2".to_string(),
            function_name: "g".to_string(),
            args: vec![],
            sub_invocations: vec![],
        }],
    };
    let node = raw.into_call_node(None);
    assert!(!node.requires_auth);
    assert_eq!(node.authorized_by, None);
    assert_eq!(node.sub_calls[0].authorized_by, None);
    assert!(!node.sub_calls[0].requires_auth);
}

#[test]
fn unique_contracts_keep_first_occurrence() {
    let mut root = make_node("C1", "swap", Some("GABC"));
    root.sub_calls = vec![make_node("C2", "transfer", None), make_node("C1", "swap", None)];
    let second = make_node("C2", "transfer", None);
    let ids = collect_unique_contracts(&[root.clone(), second.clone()]);
    assert_eq!(ids, vec!["C1".to_string(), "C2".to_string()]);
    let fns = collect_unique_functions(&[root, second]);
    assert_eq!(fns, vec!["swap".to_string(), "transfer".to_string()]);
}

#[test]
fn pruning_drops_unrelated_sub_calls() {
    let mut root = make_node("C1", "swap", Some("GABC"));
    root.sub_calls = vec![make_node("C2", "internal", None), make_node("C3", "pay", Some("GABC"))];
    let pruned = prune_call_tree(vec![root], "GABC", &[]);
    assert_eq!(pruned.len(), 1);
    assert_eq!(pruned[0].sub_calls.len(), 1);
    assert_eq!(pruned[0].sub_calls[0].contract_id, "C3");
}

#[test]
fn empty_tree_has_depth_zero() {
    assert_eq!(max_depth(&[]), 0);
}

#[test]
fn xdr_error_messages() {
    assert_eq!(XdrDecodeError::Base64("bad".to_string()).message(), "Base64 decode failed: bad");
    assert_eq!(XdrDecodeError::NotV3.message(), "Not a V3 TransactionMeta");
    assert_eq!(XdrDecodeError::TransactionFailed.message(), "Transaction failed on-chain");
}

#[test]
fn unique_functions_hold_each_name_once() {
    let mut root = make_node("C1", "swap", Some("GABC"));
    root.sub_calls = vec![make_node("C2", "swap", None), make_node("C3", "transfer", None)];
    assert_eq!(collect_unique_functions(&[root]), vec!["swap".to_string(), "transfer".to_string()]);
}
