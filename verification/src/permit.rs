//! The permit case, and the evaluation of a policy against a manifest that
//! both the permit and the deny cases use.
use vstd::prelude::*;

use crate::harness::{HarnessResult, HarnessResultView, TestOutcome};
use crate::json::{JsonView, is_negative_number};
use crate::manifest::{AssetFlowView, CallManifest, CallManifestView, ContractRefView, FlowDirection, flows_view};
use crate::policy_spec::{PolicyLayer, PolicyLayerKind, PolicyLayerView, PolicySpec, PolicySpecView, layers_view, param};
use crate::text::{
    contains_string, decimal, has_prefix, parse_u128, parse_u128_spec, push_decimal, push_str,
    starts_with_str, str_eq, to_owned_string,
};

verus! {

/// The first of `items` that `allowed` does not hold.
pub open spec fn first_missing(items: Seq<Seq<char>>, allowed: Seq<Seq<char>>) -> Option<Seq<char>>
    decreases items.len(),
{
    if items.len() == 0 {
        None
    } else if !allowed.contains(items[0]) {
        Some(items[0])
    } else {
        first_missing(items.drop_first(), allowed)
    }
}

/// Why the context rule rejects the manifest, if it does.
pub open spec fn whitelist_denial(s: PolicySpecView, m: CallManifestView) -> Option<Seq<char>> {
    let ids = m.unique_contracts.map_values(|c: ContractRefView| c.id);
    if s.context_rule.contracts.len() > 0 && first_missing(ids, s.context_rule.contracts) is Some {
        Some("Contract "@ + first_missing(ids, s.context_rule.contracts)->0 + " not in context rule whitelist"@)
    } else if s.context_rule.functions.len() > 0 && first_missing(m.unique_functions, s.context_rule.functions) is Some {
        Some("Function "@ + first_missing(m.unique_functions, s.context_rule.functions)->0
            + " not in context rule whitelist"@)
    } else {
        None
    }
}

/// The cap of a spending-limit layer: its `cap_amount_raw` text parsed, or
/// no cap (`u128::MAX`).
pub open spec fn cap_of(l: PolicyLayerView) -> u128 {
    match param(l.params, "cap_amount_raw"@) {
        Some(JsonView::String(t)) => match parse_u128_spec(t) {
            Some(v) => v,
            None => u128::MAX,
        },
        _ => u128::MAX,
    }
}

/// The asset a spending-limit layer counts (empty: every asset).
pub open spec fn asset_filter(l: PolicyLayerView) -> Seq<char> {
    match param(l.params, "asset_id"@) {
        Some(JsonView::String(t)) => t,
        _ => Seq::empty(),
    }
}

/// The sum of the outbound flows of `asset` (of every asset when empty).
pub open spec fn outbound_total(flows: Seq<AssetFlowView>, asset: Seq<char>) -> nat
    decreases flows.len(),
{
    if flows.len() == 0 {
        0
    } else {
        outbound_total(flows.drop_last(), asset) + (if flows.last().direction == FlowDirection::Outbound && (
        asset.len() == 0 || flows.last().asset_id == asset) {
            flows.last().amount_raw as nat
        } else {
            0nat
        })
    }
}

/// The invoking account is among the auth boundaries' accounts.
pub open spec fn account_in_auth(m: CallManifestView) -> bool {
    exists|i: int| 0 <= i < m.auth_boundaries.len() && #[trigger] m.auth_boundaries[i].account == m.invoking_account
}

/// A custom layer's slippage bound is a negative number.
pub open spec fn slippage_invalid(l: PolicyLayerView) -> bool {
    match param(l.params, "max_slippage_percent"@) {
        Some(v) => is_negative_number(v) == Some(true),
        None => false,
    }
}

/// The asset of the first outbound flow of an asset other than `asset`.
pub open spec fn foreign_outbound(flows: Seq<AssetFlowView>, asset: Seq<char>) -> Option<Seq<char>>
    decreases flows.len(),
{
    if flows.len() == 0 {
        None
    } else if flows[0].direction == FlowDirection::Outbound && flows[0].asset_id != asset {
        Some(flows[0].asset_id)
    } else {
        foreign_outbound(flows.drop_first(), asset)
    }
}

/// Why one layer denies the manifest, if it does. A spending limit on one
/// asset denies outbound flows of any other asset, then spending beyond its
/// cap.
pub open spec fn layer_denial(l: PolicyLayerView, m: CallManifestView) -> Option<Seq<char>> {
    match l.kind {
        PolicyLayerKind::SpendingLimit => {
            let total = outbound_total(m.asset_flows, asset_filter(l));
            if asset_filter(l).len() > 0 && foreign_outbound(m.asset_flows, asset_filter(l)) is Some {
                Some("SpendingLimit: outbound asset "@ + foreign_outbound(m.asset_flows, asset_filter(l))->0
                    + " not covered by the policy"@)
            } else if total > cap_of(l) {
                Some("SpendingLimit: outbound "@ + decimal(total) + " exceeds cap "@ + decimal(cap_of(l) as nat))
            } else {
                None
            }
        },
        PolicyLayerKind::TimeWindow => if has_prefix(m.timestamp, "2099"@) {
            Some("TimeWindow: timestamp past end of allowed window"@)
        } else {
            None
        },
        PolicyLayerKind::SimpleThreshold | PolicyLayerKind::WeightedThreshold => if m.auth_boundaries.len()
            > 0 && !account_in_auth(m) {
            Some("Threshold: invoking account not in auth boundaries"@)
        } else {
            None
        },
        PolicyLayerKind::Custom => if slippage_invalid(l) {
            Some("Custom: invalid slippage parameter"@)
        } else {
            None
        },
    }
}

/// Why the first denying layer denies the manifest, if one does.
pub open spec fn layers_denial(ls: Seq<PolicyLayerView>, m: CallManifestView) -> Option<Seq<char>>
    decreases ls.len(),
{
    if ls.len() == 0 {
        None
    } else {
        match layer_denial(ls[0], m) {
            Some(d) => Some(d),
            None => layers_denial(ls.drop_first(), m),
        }
    }
}

/// The outcome of evaluating a policy against a manifest, and its details.
pub open spec fn evaluate_spec(s: PolicySpecView, m: CallManifestView) -> (TestOutcome, Seq<char>) {
    match whitelist_denial(s, m) {
        Some(d) => (TestOutcome::Deny, d),
        None => match layers_denial(s.policies, m) {
            Some(d) => (TestOutcome::Deny, d),
            None => (TestOutcome::Permit, "All policy layers passed"@),
        },
    }
}

/// The spending sums of the layers evaluated fit a `u128`.
pub open spec fn layers_evaluable(ls: Seq<PolicyLayerView>, m: CallManifestView) -> bool
    decreases ls.len(),
{
    if ls.len() == 0 {
        true
    } else {
        &&& (ls[0].kind == PolicyLayerKind::SpendingLimit ==> outbound_total(m.asset_flows, asset_filter(ls[0]))
            <= u128::MAX)
        &&& (layer_denial(ls[0], m) is None ==> layers_evaluable(ls.drop_first(), m))
    }
}

/// Evaluating the policy sums no spending beyond a `u128`.
pub open spec fn evaluable(s: PolicySpecView, m: CallManifestView) -> bool {
    whitelist_denial(s, m) is None ==> layers_evaluable(s.policies, m)
}

/// The first of `items` missing from `allowed`.
fn find_missing(items: &Vec<String>, allowed: &Vec<String>) -> (r: Option<usize>)
    ensures
        match first_missing(items.deep_view(), allowed.deep_view()) {
            Some(x) => r matches Some(i) && i < items@.len() && items@[i as int]@ == x,
            None => r is None,
        },
{
    let ghost xs = items.deep_view();
    assert(xs.subrange(0, xs.len() as int) =~= xs);
    let mut i: usize = 0;
    while i < items.len()
        invariant
            xs == items.deep_view(),
            i <= items@.len(),
            first_missing(xs, allowed.deep_view()) == first_missing(xs.subrange(i as int, xs.len() as int), allowed.deep_view()),
        decreases items.len() - i,
    {
        let ghost rest = xs.subrange(i as int, xs.len() as int);
        assert(rest[0] == items@[i as int]@);
        if !contains_string(allowed, items[i].as_str()) {
            return Some(i);
        }
        assert(rest.drop_first() =~= xs.subrange(i + 1, xs.len() as int));
        i = i + 1;
    }
    None
}

/// The sum of the outbound flows of `asset` (every asset when empty), or
/// `None` when it exceeds a `u128`.
fn sum_outbound(flows: &Vec<crate::manifest::AssetFlow>, asset: &str) -> (r: Option<u128>)
    ensures
        match r {
            Some(v) => v as nat == outbound_total(flows_view(flows@), asset@),
            None => outbound_total(flows_view(flows@), asset@) > u128::MAX,
        },
{
    let ghost fs = flows_view(flows@);
    let mut total: u128 = 0;
    let mut i: usize = 0;
    while i < flows.len()
        invariant
            fs == flows_view(flows@),
            i <= flows@.len(),
            total as nat == outbound_total(fs.subrange(0, i as int), asset@),
        decreases flows.len() - i,
    {
        proof {
            assert(fs.subrange(0, i + 1).drop_last() =~= fs.subrange(0, i as int));
        }
        let f = &flows[i];
        if f.direction == FlowDirection::Outbound && (asset.unicode_len() == 0 || str_eq(f.asset_id.as_str(), asset)) {
            match total.checked_add(f.amount_raw) {
                Some(t) => {
                    total = t;
                },
                None => {
                    proof {
                        lemma_outbound_total_prefix(fs, asset@, i as int + 1);
                    }
                    return None;
                },
            }
        }
        i = i + 1;
    }
    assert(fs.subrange(0, fs.len() as int) =~= fs);
    Some(total)
}

/// A prefix of the flows sums to no more than all of them.
proof fn lemma_outbound_total_prefix(fs: Seq<AssetFlowView>, asset: Seq<char>, k: int)
    requires
        0 <= k <= fs.len(),
    ensures
        outbound_total(fs.subrange(0, k), asset) <= outbound_total(fs, asset),
    decreases fs.len() - k,
{
    if k < fs.len() {
        lemma_outbound_total_prefix(fs.drop_last(), asset, if k < fs.len() - 1 { k } else { fs.len() - 1 });
        assert(fs.drop_last().subrange(0, k) =~= fs.subrange(0, k));
        if k == fs.len() - 1 {
            assert(fs.subrange(0, k) =~= fs.drop_last());
        } else {
            lemma_outbound_total_prefix(fs.drop_last(), asset, k);
        }
    } else {
        assert(fs.subrange(0, k) =~= fs);
    }
}

/// The first outbound flow of an asset other than `asset`.
fn find_foreign(flows: &Vec<crate::manifest::AssetFlow>, asset: &str) -> (r: Option<usize>)
    ensures
        match foreign_outbound(flows_view(flows@), asset@) {
            Some(x) => r matches Some(i) && i < flows@.len() && flows@[i as int].asset_id@ == x,
            None => r is None,
        },
{
    let ghost fs = flows_view(flows@);
    assert(fs.subrange(0, fs.len() as int) =~= fs);
    let mut i: usize = 0;
    while i < flows.len()
        invariant
            fs == flows_view(flows@),
            i <= flows@.len(),
            foreign_outbound(fs, asset@) == foreign_outbound(fs.subrange(i as int, fs.len() as int), asset@),
        decreases flows.len() - i,
    {
        let ghost rest = fs.subrange(i as int, fs.len() as int);
        assert(rest[0] == flows@[i as int]@);
        if flows[i].direction == FlowDirection::Outbound && !str_eq(flows[i].asset_id.as_str(), asset) {
            return Some(i);
        }
        assert(rest.drop_first() =~= fs.subrange(i + 1, fs.len() as int));
        i = i + 1;
    }
    assert(fs.subrange(i as int, fs.len() as int) =~= Seq::<AssetFlowView>::empty());
    None
}

/// The asset a spending layer counts (empty: every asset).
fn layer_asset(layer: &PolicyLayer) -> (r: String)
    ensures
        r@ == asset_filter(layer@),
{
    match layer.params.get("asset_id") {
        Some(v) => match v.as_str() {
            Some(t) => t.clone(),
            None => String::new(),
        },
        None => String::new(),
    }
}

/// The outbound spending a layer counts: the flows of its `asset_id`, or of
/// every asset; `None` when the sum exceeds a `u128`.
fn layer_spending(layer: &PolicyLayer, manifest: &CallManifest) -> (r: Option<u128>)
    ensures
        match r {
            Some(v) => v as nat == outbound_total(manifest@.asset_flows, asset_filter(layer@)),
            None => outbound_total(manifest@.asset_flows, asset_filter(layer@)) > u128::MAX,
        },
{
    let empty = String::new();
    let asset: &String = match layer.params.get("asset_id") {
        Some(v) => match v.as_str() {
            Some(t) => t,
            None => &empty,
        },
        None => &empty,
    };
    assert(asset@ == asset_filter(layer@));
    sum_outbound(&manifest.asset_flows, asset.as_str())
}

/// Why one layer denies the manifest, if it does.
fn check_layer(layer: &PolicyLayer, manifest: &CallManifest) -> (r: Option<String>)
    requires
        layer@.kind == PolicyLayerKind::SpendingLimit ==> outbound_total(manifest@.asset_flows, asset_filter(layer@))
            <= u128::MAX,
    ensures
        match layer_denial(layer@, manifest@) {
            Some(d) => r matches Some(s) && s@ == d,
            None => r is None,
        },
{
    match layer.kind {
        PolicyLayerKind::SpendingLimit => {
            let asset = layer_asset(layer);
            if asset.unicode_len() > 0 {
                match find_foreign(&manifest.asset_flows, asset.as_str()) {
                    Some(i) => {
                        let mut d = to_owned_string("SpendingLimit: outbound asset ");
                        push_str(&mut d, manifest.asset_flows[i].asset_id.as_str());
                        push_str(&mut d, " not covered by the policy");
                        return Some(d);
                    },
                    None => {},
                }
            }
            let cap: u128 = match layer.params.get("cap_amount_raw") {
                Some(v) => match v.as_str() {
                    Some(t) => match parse_u128(t.as_str()) {
                        Some(x) => x,
                        None => u128::MAX,
                    },
                    None => u128::MAX,
                },
                None => u128::MAX,
            };
            assert(cap == cap_of(layer@));
            let total = match layer_spending(layer, manifest) {
                Some(t) => t,
                None => {
                    return None;
                },
            };
            if total > cap {
                let mut d = to_owned_string("SpendingLimit: outbound ");
                push_decimal(&mut d, total);
                push_str(&mut d, " exceeds cap ");
                push_decimal(&mut d, cap);
                Some(d)
            } else {
                None
            }
        },
        PolicyLayerKind::TimeWindow => {
            if starts_with_str(manifest.timestamp.as_str(), "2099") {
                Some(to_owned_string("TimeWindow: timestamp past end of allowed window"))
            } else {
                None
            }
        },
        PolicyLayerKind::SimpleThreshold | PolicyLayerKind::WeightedThreshold => {
            let mut found = false;
            let mut i: usize = 0;
            while i < manifest.auth_boundaries.len()
                invariant
                    i <= manifest.auth_boundaries@.len(),
                    found == exists|j: int|
                        0 <= j < i && #[trigger] manifest@.auth_boundaries[j].account == manifest@.invoking_account,
                decreases manifest.auth_boundaries.len() - i,
            {
                assert(manifest@.auth_boundaries[i as int] == manifest.auth_boundaries@[i as int]@);
                if str_eq(manifest.auth_boundaries[i].account.as_str(), manifest.invoking_account.as_str()) {
                    assert(manifest@.auth_boundaries[i as int].account == manifest@.invoking_account);
                    found = true;
                } else {
                    assert(manifest@.auth_boundaries[i as int].account != manifest@.invoking_account);
                }
                i = i + 1;
            }
            if manifest.auth_boundaries.len() > 0 && !found {
                Some(to_owned_string("Threshold: invoking account not in auth boundaries"))
            } else {
                None
            }
        },
        PolicyLayerKind::Custom => {
            let invalid = match layer.params.get("max_slippage_percent") {
                Some(v) => match v.is_negative() {
                    Some(b) => b,
                    None => false,
                },
                None => false,
            };
            if invalid {
                Some(to_owned_string("Custom: invalid slippage parameter"))
            } else {
                None
            }
        },
    }
}

/// Why the context rule's whitelists reject the manifest, if they do.
fn check_whitelists(spec: &PolicySpec, manifest: &CallManifest) -> (r: Option<String>)
    ensures
        match whitelist_denial(spec@, manifest@) {
            Some(d) => r matches Some(s) && s@ == d,
            None => r is None,
        },
{
    let m = manifest;
    let ghost ids = manifest@.unique_contracts.map_values(|c: ContractRefView| c.id);
    if spec.context_rule.contracts.len() > 0 {
        let mut ids_vec: Vec<String> = Vec::new();
        let mut i: usize = 0;
        while i < m.unique_contracts.len()
            invariant
                i <= m.unique_contracts@.len(),
                ids_vec@.len() == i,
                forall|j: int| 0 <= j < i ==> #[trigger] ids_vec@[j]@ == m.unique_contracts@[j].id@,
            decreases m.unique_contracts.len() - i,
        {
            ids_vec.push(m.unique_contracts[i].id.clone());
            i = i + 1;
        }
        assert(ids_vec.deep_view() =~= ids);
        match find_missing(&ids_vec, &spec.context_rule.contracts) {
            Some(k) => {
                let mut d = to_owned_string("Contract ");
                push_str(&mut d, ids_vec[k].as_str());
                push_str(&mut d, " not in context rule whitelist");
                return Some(d);
            },
            None => {},
        }
    }
    if spec.context_rule.functions.len() > 0 {
        match find_missing(&m.unique_functions, &spec.context_rule.functions) {
            Some(k) => {
                let mut d = to_owned_string("Function ");
                push_str(&mut d, m.unique_functions[k].as_str());
                push_str(&mut d, " not in context rule whitelist");
                return Some(d);
            },
            None => {},
        }
    }
    None
}

/// Core policy evaluation: the context rule's whitelists, then each layer
/// in order; the first check that fails denies.
pub fn evaluate_policy(spec: &PolicySpec, manifest: &CallManifest) -> (r: (TestOutcome, String))
    requires
        evaluable(spec@, manifest@),
    ensures
        (r.0, r.1@) == evaluate_spec(spec@, manifest@),
{
    match check_whitelists(spec, manifest) {
        Some(d) => {
            return (TestOutcome::Deny, d);
        },
        None => {},
    }
    assert(whitelist_denial(spec@, manifest@) is None);
    let ghost ls = spec@.policies;
    assert(ls.subrange(0, ls.len() as int) =~= ls);
    let mut i: usize = 0;
    while i < spec.policies.len()
        invariant
            ls == layers_view(spec.policies@),
            ls == spec@.policies,
            whitelist_denial(spec@, manifest@) is None,
            i <= spec.policies@.len(),
            layers_denial(ls, manifest@) == layers_denial(ls.subrange(i as int, ls.len() as int), manifest@),
            layers_evaluable(ls.subrange(i as int, ls.len() as int), manifest@),
        decreases spec.policies.len() - i,
    {
        let ghost rest = ls.subrange(i as int, ls.len() as int);
        assert(rest.len() > 0);
        assert(rest[0] == spec.policies@[i as int]@);
        assert(layers_evaluable(rest, manifest@));
        assert(rest[0].kind == PolicyLayerKind::SpendingLimit ==> outbound_total(manifest@.asset_flows, asset_filter(rest[0])) <= u128::MAX);
        let layer = &spec.policies[i];
        assert(layer@ == rest[0]);
        match check_layer(layer, manifest) {
            Some(d) => {
                return (TestOutcome::Deny, d);
            },
            None => {},
        }
        assert(rest.drop_first() =~= ls.subrange(i + 1, ls.len() as int));
        i = i + 1;
    }
    (TestOutcome::Permit, to_owned_string("All policy layers passed"))
}

/// Whether the policy can be evaluated against the manifest: the spending
/// sums that the evaluation computes fit a `u128`.
pub fn is_evaluable(spec: &PolicySpec, manifest: &CallManifest) -> (r: bool)
    ensures
        r == evaluable(spec@, manifest@),
{
    if check_whitelists(spec, manifest).is_some() {
        return true;
    }
    let ghost ls = spec@.policies;
    assert(ls.subrange(0, ls.len() as int) =~= ls);
    let mut i: usize = 0;
    while i < spec.policies.len()
        invariant
            ls == layers_view(spec.policies@),
            ls == spec@.policies,
            whitelist_denial(spec@, manifest@) is None,
            i <= spec.policies@.len(),
            evaluable(spec@, manifest@) == layers_evaluable(ls.subrange(i as int, ls.len() as int), manifest@),
        decreases spec.policies.len() - i,
    {
        let ghost rest = ls.subrange(i as int, ls.len() as int);
        assert(rest[0] == spec.policies@[i as int]@);
        let layer = &spec.policies[i];
        if layer.kind == PolicyLayerKind::SpendingLimit {
            if layer_spending(layer, manifest).is_none() {
                return false;
            }
        }
        if check_layer(layer, manifest).is_some() {
            return true;
        }
        assert(rest.drop_first() =~= ls.subrange(i + 1, ls.len() as int));
        i = i + 1;
    }
    true
}

/// The result of the permit case.
pub open spec fn permit_result_spec(s: PolicySpecView, m: CallManifestView) -> HarnessResultView {
    let (outcome, details) = evaluate_spec(s, m);
    HarnessResultView {
        case_name: "original_transaction"@,
        mutation: None,
        expected: TestOutcome::Permit,
        actual: outcome,
        passed: outcome == TestOutcome::Permit,
        details,
    }
}

/// Runs the permit case: the original manifest evaluated against the
/// policy. The harness passes only if this permits.
pub fn run_permit_case(spec: &PolicySpec, manifest: &CallManifest) -> (r: HarnessResult)
    requires
        evaluable(spec@, manifest@),
    ensures
        r@ == permit_result_spec(spec@, manifest@),
{
    let (outcome, details) = evaluate_policy(spec, manifest);
    HarnessResult {
        case_name: to_owned_string("original_transaction"),
        mutation: None,
        expected: TestOutcome::Permit,
        actual: outcome,
        passed: outcome == TestOutcome::Permit,
        details,
    }
}

} // verus!
