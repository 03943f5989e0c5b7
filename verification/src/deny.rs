//! Deny cases: the five standard mutations, each of which the policy must reject.
use vstd::prelude::*;

use crate::harness::{HarnessResult, HarnessResultView, TestOutcome, results_view};
use crate::json::{JsonView, NumberView, as_unsigned};
use crate::manifest::{CallManifest, CallManifestView};
use crate::mutations::{MutationType, apply_mutation, can_mutate, mutable_by, mutate_spec, mutation_description, mutation_name};
use crate::permit::{evaluable, evaluate_policy, evaluate_spec, is_evaluable};
use crate::policy_spec::{PolicyLayerView, PolicySpec, PolicySpecView, layers_view, param};
use crate::text::{push_str, to_owned_string};

verus! {

/// A deny case: a named, described mutation of the original manifest.
#[derive(Debug)]
pub struct DenyCase {
    pub name: String,
    pub description: String,
    pub mutated_manifest: CallManifest,
}

/// The content of a [`DenyCase`].
pub struct DenyCaseView {
    pub name: Seq<char>,
    pub description: Seq<char>,
    pub mutated_manifest: CallManifestView,
}

impl View for DenyCase {
    type V = DenyCaseView;

    open spec fn view(&self) -> DenyCaseView {
        DenyCaseView {
            name: self.name@,
            description: self.description@,
            mutated_manifest: self.mutated_manifest@,
        }
    }
}

/// The five standard mutations, in the order they are run.
pub open spec fn standard_mutations() -> Seq<MutationType> {
    seq![
        MutationType::AmountExceeded,
        MutationType::WrongAsset,
        MutationType::WrongContract,
        MutationType::ExtraFunctionCall,
        MutationType::OutOfWindow,
    ]
}

/// The result of a deny case.
pub open spec fn deny_result_spec(s: PolicySpecView, c: DenyCaseView) -> HarnessResultView {
    let (outcome, details) = evaluate_spec(s, c.mutated_manifest);
    HarnessResultView {
        case_name: c.name,
        mutation: Some(c.description),
        expected: TestOutcome::Deny,
        actual: outcome,
        passed: outcome == TestOutcome::Deny,
        details: c.description + " | Policy eval: "@ + details,
    }
}

/// The deny case a standard mutation makes of a manifest.
pub open spec fn standard_case(m: CallManifestView, mutation: MutationType) -> DenyCaseView {
    DenyCaseView {
        name: mutation_name(mutation),
        description: mutation_description(mutation),
        mutated_manifest: mutate_spec(m, mutation),
    }
}

/// The results of the five standard deny cases.
pub open spec fn standard_results(s: PolicySpecView, m: CallManifestView) -> Seq<HarnessResultView> {
    standard_mutations().map_values(|mu: MutationType| deny_result_spec(s, standard_case(m, mu)))
}

/// Every standard mutation can be applied and its result evaluated.
pub open spec fn deny_ready(s: PolicySpecView, m: CallManifestView) -> bool {
    forall|i: int|
        0 <= i < 5 ==> mutable_by(m, #[trigger] standard_mutations()[i]) && evaluable(
            s,
            mutate_spec(m, standard_mutations()[i]),
        )
}

/// The first window in seconds among the layers, else a day.
pub open spec fn window_secs_spec(ls: Seq<PolicyLayerView>) -> u64
    decreases ls.len(),
{
    if ls.len() == 0 {
        86_400
    } else {
        match param(ls[0].params, "window_seconds"@) {
            Some(v) => match as_unsigned(v) {
                Some(n) => n,
                None => window_secs_spec(ls.drop_first()),
            },
            None => window_secs_spec(ls.drop_first()),
        }
    }
}

/// The first `window_seconds` integer among the policy's layers, or a day.
pub fn extract_window_secs(spec: &PolicySpec) -> (r: u64)
    ensures
        r == window_secs_spec(spec@.policies),
{
    let ghost ls = spec@.policies;
    assert(ls.subrange(0, ls.len() as int) =~= ls);
    let mut i: usize = 0;
    while i < spec.policies.len()
        invariant
            ls == layers_view(spec.policies@),
            i <= spec.policies@.len(),
            window_secs_spec(ls) == window_secs_spec(ls.subrange(i as int, ls.len() as int)),
        decreases spec.policies.len() - i,
    {
        let ghost rest = ls.subrange(i as int, ls.len() as int);
        assert(rest[0] == spec.policies@[i as int]@);
        match spec.policies[i].params.get("window_seconds") {
            Some(v) => match v.as_u64() {
                Some(n) => {
                    return n;
                },
                None => {},
            },
            None => {},
        }
        assert(rest.drop_first() =~= ls.subrange(i + 1, ls.len() as int));
        i = i + 1;
    }
    86_400
}

/// Evaluates one deny case against the policy.
pub fn evaluate_deny_case(spec: &PolicySpec, original: &CallManifest, case: &DenyCase) -> (r: HarnessResult)
    requires
        evaluable(spec@, case@.mutated_manifest),
    ensures
        r@ == deny_result_spec(spec@, case@),
{
    let (outcome, details) = evaluate_policy(spec, &case.mutated_manifest);
    let mut text = case.description.clone();
    push_str(&mut text, " | Policy eval: ");
    push_str(&mut text, details.as_str());
    HarnessResult {
        case_name: case.name.clone(),
        mutation: Some(case.description.clone()),
        expected: TestOutcome::Deny,
        actual: outcome,
        passed: outcome == TestOutcome::Deny,
        details: text,
    }
}

/// Whether the five standard deny cases can be run (see [`deny_ready`]).
pub fn deny_cases_ready(spec: &PolicySpec, manifest: &CallManifest) -> (r: bool)
    ensures
        r == deny_ready(spec@, manifest@),
{
    let window_secs = extract_window_secs(spec);
    let mut mutations: Vec<MutationType> = Vec::new();
    mutations.push(MutationType::AmountExceeded);
    mutations.push(MutationType::WrongAsset);
    mutations.push(MutationType::WrongContract);
    mutations.push(MutationType::ExtraFunctionCall);
    mutations.push(MutationType::OutOfWindow);
    assert(mutations@ =~= standard_mutations());
    let mut i: usize = 0;
    while i < mutations.len()
        invariant
            mutations@ == standard_mutations(),
            i <= 5,
            forall|j: int|
                0 <= j < i ==> mutable_by(manifest@, #[trigger] standard_mutations()[j]) && evaluable(
                    spec@,
                    mutate_spec(manifest@, standard_mutations()[j]),
                ),
        decreases mutations.len() - i,
    {
        let mutation = mutations[i];
        if !can_mutate(manifest, mutation) {
            return false;
        }
        let mutated = apply_mutation(manifest, &mutation, window_secs);
        if !is_evaluable(spec, &mutated) {
            return false;
        }
        i = i + 1;
    }
    true
}

/// Runs the five standard deny mutations against the policy.
pub fn run_deny_cases(spec: &PolicySpec, manifest: &CallManifest) -> (r: Vec<HarnessResult>)
    requires
        deny_ready(spec@, manifest@),
    ensures
        results_view(r@) == standard_results(spec@, manifest@),
        r@.len() == 5,
{
    let window_secs = extract_window_secs(spec);
    let mut mutations: Vec<MutationType> = Vec::new();
    mutations.push(MutationType::AmountExceeded);
    mutations.push(MutationType::WrongAsset);
    mutations.push(MutationType::WrongContract);
    mutations.push(MutationType::ExtraFunctionCall);
    mutations.push(MutationType::OutOfWindow);
    assert(mutations@ =~= standard_mutations());
    let mut results: Vec<HarnessResult> = Vec::new();
    let mut i: usize = 0;
    while i < mutations.len()
        invariant
            mutations@ == standard_mutations(),
            deny_ready(spec@, manifest@),
            i <= 5,
            results@.len() == i,
            forall|j: int| 0 <= j < i ==> #[trigger] results@[j]@ == deny_result_spec(
                spec@,
                standard_case(manifest@, standard_mutations()[j]),
            ),
        decreases mutations.len() - i,
    {
        let mutation = &mutations[i];
        assert(mutable_by(manifest@, standard_mutations()[i as int]));
        let mutated = apply_mutation(manifest, mutation, window_secs);
        let case = DenyCase {
            name: to_owned_string(mutation.name()),
            description: to_owned_string(mutation.description()),
            mutated_manifest: mutated,
        };
        assert(case@ == standard_case(manifest@, standard_mutations()[i as int]));
        results.push(evaluate_deny_case(spec, manifest, &case));
        i = i + 1;
    }
    assert(results_view(results@) =~= standard_results(spec@, manifest@));
    results
}

} // verus!

verus! {

// ── What the standard deny cases catch in a synthesized policy ─────────────

use crate::decision_tree::{first_outbound, lemma_param_names_distinct, synthesize_spec};
use crate::manifest::{AssetFlowView, ContractRefView, FlowDirection};
use crate::mutations::{doubled_flow, swapped_asset_flow, wrong_contract_id};
use crate::permit::{
    account_in_auth, asset_filter, cap_of, first_missing, foreign_outbound, layer_denial, layers_denial, outbound_total,
    permit_result_spec, slippage_invalid, whitelist_denial,
};
use crate::policy_spec::{ConstraintsView, PolicyLayerKind};
use crate::text::{has_prefix, lemma_parse_decimal};

/// A layer that denies makes the layers deny.
proof fn lemma_layers_deny(ls: Seq<PolicyLayerView>, m: CallManifestView, k: int)
    requires
        0 <= k < ls.len(),
        layer_denial(ls[k], m) is Some,
    ensures
        layers_denial(ls, m) is Some,
    decreases k,
{
    if k > 0 && layer_denial(ls[0], m) is None {
        lemma_layers_deny(ls.drop_first(), m, k - 1);
    }
}

/// An item the whitelist lacks is found missing.
proof fn lemma_missing_found(items: Seq<Seq<char>>, allowed: Seq<Seq<char>>, k: int)
    requires
        0 <= k < items.len(),
        !allowed.contains(items[k]),
    ensures
        first_missing(items, allowed) is Some,
    decreases k,
{
    if k > 0 && allowed.contains(items[0]) {
        lemma_missing_found(items.drop_first(), allowed, k - 1);
    }
}

/// The first outbound flow is one of the flows.
proof fn lemma_first_outbound_at(fs: Seq<AssetFlowView>)
    requires
        first_outbound(fs) is Some,
    ensures
        exists|i: int| 0 <= i < fs.len() && fs[i] == first_outbound(fs)->0 && fs[i].direction == FlowDirection::Outbound,
    decreases fs.len(),
{
    if fs[0].direction != FlowDirection::Outbound {
        lemma_first_outbound_at(fs.drop_first());
        let i = choose|i: int|
            0 <= i < fs.drop_first().len() && fs.drop_first()[i] == first_outbound(fs.drop_first())->0
                && fs.drop_first()[i].direction == FlowDirection::Outbound;
        assert(fs[i + 1] == fs.drop_first()[i]);
    } else {
        assert(fs[0] == first_outbound(fs)->0);
    }
}

/// An outbound flow of the counted asset is part of the total.
proof fn lemma_total_covers(fs: Seq<AssetFlowView>, a: Seq<char>, i: int)
    requires
        0 <= i < fs.len(),
        fs[i].direction == FlowDirection::Outbound,
        a.len() == 0 || fs[i].asset_id == a,
    ensures
        outbound_total(fs, a) >= fs[i].amount_raw,
    decreases fs.len(),
{
    if i < fs.len() - 1 {
        lemma_total_covers(fs.drop_last(), a, i);
    }
}

/// Doubling every amount doubles the total.
proof fn lemma_total_doubled(fs: Seq<AssetFlowView>, a: Seq<char>)
    requires
        forall|i: int| 0 <= i < fs.len() ==> 2 * (#[trigger] fs[i]).amount_raw <= u128::MAX,
    ensures
        outbound_total(fs.map_values(|f: AssetFlowView| doubled_flow(f)), a) == 2 * outbound_total(fs, a),
    decreases fs.len(),
{
    if fs.len() > 0 {
        lemma_total_doubled(fs.drop_last(), a);
        assert(fs.map_values(|f: AssetFlowView| doubled_flow(f)).drop_last() =~= fs.drop_last().map_values(
            |f: AssetFlowView| doubled_flow(f),
        ));
    }
}

/// The out-of-window case of a synthesized policy is always denied: the
/// policy always has a time window, and the mutation moves the timestamp
/// past it.
pub proof fn lemma_out_of_window_denied(m: CallManifestView, c: ConstraintsView)
    ensures
        standard_results(synthesize_spec(m, c), m)[4].passed,
{
    let s = synthesize_spec(m, c);
    let mm = mutate_spec(m, MutationType::OutOfWindow);
    assert(standard_mutations()[4] == MutationType::OutOfWindow);
    if whitelist_denial(s, mm) is None {
        let k: int = if first_outbound(m.asset_flows) is Some { 1 } else { 0 };
        assert(s.policies[k].kind == PolicyLayerKind::TimeWindow);
        reveal_strlit("2099-01-01T00:00:00Z");
        reveal_strlit("2099");
        assert(mm.timestamp.subrange(0, 4) =~= "2099"@);
        assert(layer_denial(s.policies[k], mm) is Some);
        lemma_layers_deny(s.policies, mm, k);
    }
}

/// The amount-exceeded case of a policy synthesized without a cap is denied
/// when the first outbound flow moved a positive amount: the doubled total
/// of its asset exceeds the cap, which is that amount.
pub proof fn lemma_amount_exceeded_denied(m: CallManifestView, c: ConstraintsView)
    requires
        c.amount_cap is None,
        first_outbound(m.asset_flows) is Some,
        first_outbound(m.asset_flows)->0.amount_raw > 0,
        mutable_by(m, MutationType::AmountExceeded),
    ensures
        standard_results(synthesize_spec(m, c), m)[0].passed,
{
    let s = synthesize_spec(m, c);
    let mm = mutate_spec(m, MutationType::AmountExceeded);
    let f = first_outbound(m.asset_flows)->0;
    assert(standard_mutations()[0] == MutationType::AmountExceeded);
    if whitelist_denial(s, mm) is None {
        let l = s.policies[0];
        assert(l.kind == PolicyLayerKind::SpendingLimit);
        lemma_param_names_distinct();
        lemma_parse_decimal(f.amount_raw);
        assert(l.params[0].0 == "cap_amount_raw"@);
        assert(cap_of(l) == f.amount_raw);
        assert(l.params[1].0 == "asset_id"@);
        assert(l.params.drop_first()[0] == l.params[1]);
        assert(l.params[1].1 == JsonView::String(f.asset_id));
        assert(crate::json::first_member(l.params.drop_first(), "asset_id"@) == Some(l.params[1].1));
        assert(crate::json::first_member(l.params, "asset_id"@) == Some(l.params[1].1));
        assert(asset_filter(l) == f.asset_id);
        lemma_first_outbound_at(m.asset_flows);
        let i = choose|i: int|
            0 <= i < m.asset_flows.len() && m.asset_flows[i] == f && m.asset_flows[i].direction
                == FlowDirection::Outbound;
        lemma_total_covers(m.asset_flows, f.asset_id, i);
        lemma_total_doubled(m.asset_flows, f.asset_id);
        assert(outbound_total(mm.asset_flows, asset_filter(l)) > cap_of(l));
        assert(layer_denial(l, mm) is Some);
        lemma_layers_deny(s.policies, mm, 0);
    }
}

/// The wrong-contract case of a synthesized policy is denied when the
/// transaction called a contract and the substituted address is not one of
/// its contracts: the context rule whitelists exactly those contracts.
pub proof fn lemma_wrong_contract_denied(m: CallManifestView, c: ConstraintsView)
    requires
        m.unique_contracts.len() > 0,
        !m.unique_contracts.map_values(|r: ContractRefView| r.id).contains(wrong_contract_id()),
    ensures
        standard_results(synthesize_spec(m, c), m)[2].passed,
{
    let s = synthesize_spec(m, c);
    let mm = mutate_spec(m, MutationType::WrongContract);
    assert(standard_mutations()[2] == MutationType::WrongContract);
    let ids = mm.unique_contracts.map_values(|r: ContractRefView| r.id);
    assert(ids[0] == wrong_contract_id());
    lemma_missing_found(ids, s.context_rule.contracts, 0);
    assert(whitelist_denial(s, mm) is Some);
}

/// The extra-function-call case of a synthesized policy is denied when the
/// transaction called a function and none named "unauthorized_drain": the
/// context rule whitelists exactly its functions.
pub proof fn lemma_extra_call_denied(m: CallManifestView, c: ConstraintsView)
    requires
        m.unique_functions.len() > 0,
        !m.unique_functions.contains("unauthorized_drain"@),
    ensures
        standard_results(synthesize_spec(m, c), m)[3].passed,
{
    let s = synthesize_spec(m, c);
    let mm = mutate_spec(m, MutationType::ExtraFunctionCall);
    assert(standard_mutations()[3] == MutationType::ExtraFunctionCall);
    let fns = mm.unique_functions;
    assert(fns[fns.len() - 1] == "unauthorized_drain"@);
    lemma_missing_found(fns, s.context_rule.functions, fns.len() - 1);
    assert(whitelist_denial(s, mm) is Some);
}

/// No layer denies, so the layers do not deny.
proof fn lemma_layers_pass(ls: Seq<PolicyLayerView>, m: CallManifestView)
    requires
        forall|k: int| 0 <= k < ls.len() ==> layer_denial(#[trigger] ls[k], m) is None,
    ensures
        layers_denial(ls, m) is None,
    decreases ls.len(),
{
    if ls.len() > 0 {
        assert(layer_denial(ls[0], m) is None);
        assert forall|k: int| 0 <= k < ls.drop_first().len() implies layer_denial(#[trigger] ls.drop_first()[k], m)
            is None by {
            assert(ls.drop_first()[k] == ls[k + 1]);
        }
        lemma_layers_pass(ls.drop_first(), m);
    }
}

/// Nothing is missing when every item is allowed.
proof fn lemma_none_missing(items: Seq<Seq<char>>, allowed: Seq<Seq<char>>)
    requires
        forall|i: int| 0 <= i < items.len() ==> allowed.contains(#[trigger] items[i]),
    ensures
        first_missing(items, allowed) is None,
    decreases items.len(),
{
    if items.len() > 0 {
        assert(allowed.contains(items[0]));
        assert forall|i: int| 0 <= i < items.drop_first().len() implies allowed.contains(
            #[trigger] items.drop_first()[i],
        ) by {
            assert(items.drop_first()[i] == items[i + 1]);
        }
        lemma_none_missing(items.drop_first(), allowed);
    }
}

/// Nothing of a list is missing from the list itself.
proof fn lemma_none_missing_from_self(items: Seq<Seq<char>>)
    ensures
        first_missing(items, items) is None,
{
    assert forall|i: int| 0 <= i < items.len() implies items.contains(#[trigger] items[i]) by {}
    lemma_none_missing(items, items);
}

/// No foreign flow is found when every outbound flow is of the asset.
proof fn lemma_no_foreign(fs: Seq<AssetFlowView>, a: Seq<char>)
    requires
        forall|i: int| 0 <= i < fs.len() && (#[trigger] fs[i]).direction == FlowDirection::Outbound ==> fs[i].asset_id == a,
    ensures
        foreign_outbound(fs, a) is None,
    decreases fs.len(),
{
    if fs.len() > 0 {
        assert forall|i: int| 0 <= i < fs.drop_first().len() && (#[trigger] fs.drop_first()[i]).direction
            == FlowDirection::Outbound implies fs.drop_first()[i].asset_id == a by {
            assert(fs.drop_first()[i] == fs[i + 1]);
        }
        lemma_no_foreign(fs.drop_first(), a);
    }
}

/// An outbound flow of another asset is found.
proof fn lemma_foreign_found(fs: Seq<AssetFlowView>, a: Seq<char>, k: int)
    requires
        0 <= k < fs.len(),
        fs[k].direction == FlowDirection::Outbound,
        fs[k].asset_id != a,
    ensures
        foreign_outbound(fs, a) is Some,
    decreases k,
{
    if k > 0 && !(fs[0].direction == FlowDirection::Outbound && fs[0].asset_id != a) {
        assert(fs.drop_first()[k - 1] == fs[k]);
        lemma_foreign_found(fs.drop_first(), a, k - 1);
    }
}

/// The asset a synthesized spending layer counts is the first outbound
/// flow's, and its cap the given one, else that flow's amount.
proof fn lemma_spending_layer_reads(m: CallManifestView, c: ConstraintsView)
    requires
        first_outbound(m.asset_flows) is Some,
    ensures
        synthesize_spec(m, c).policies[0].kind == PolicyLayerKind::SpendingLimit,
        asset_filter(synthesize_spec(m, c).policies[0]) == first_outbound(m.asset_flows)->0.asset_id,
        cap_of(synthesize_spec(m, c).policies[0]) == match c.amount_cap {
            Some(x) => x,
            None => first_outbound(m.asset_flows)->0.amount_raw,
        },
{
    let l = synthesize_spec(m, c).policies[0];
    let f = first_outbound(m.asset_flows)->0;
    let cap = match c.amount_cap {
        Some(x) => x,
        None => f.amount_raw,
    };
    lemma_param_names_distinct();
    lemma_parse_decimal(cap);
    assert(l.params[0].0 == "cap_amount_raw"@);
    assert(l.params[1].0 == "asset_id"@);
    assert(l.params.drop_first()[0] == l.params[1]);
    assert(crate::json::first_member(l.params.drop_first(), "asset_id"@) == Some(l.params[1].1));
    assert(crate::json::first_member(l.params, "asset_id"@) == Some(l.params[1].1));
}

/// The wrong-asset case of a synthesized policy is denied when the
/// transaction moved an asset out and the mutation gives that flow another
/// asset ID: the spending limit covers only the asset it names.
pub proof fn lemma_wrong_asset_denied(m: CallManifestView, c: ConstraintsView)
    requires
        first_outbound(m.asset_flows) is Some,
        first_outbound(m.asset_flows)->0.asset_id.len() > 0,
        swapped_asset_flow(first_outbound(m.asset_flows)->0).asset_id != first_outbound(m.asset_flows)->0.asset_id,
    ensures
        standard_results(synthesize_spec(m, c), m)[1].passed,
{
    let s = synthesize_spec(m, c);
    let mm = mutate_spec(m, MutationType::WrongAsset);
    let f = first_outbound(m.asset_flows)->0;
    assert(standard_mutations()[1] == MutationType::WrongAsset);
    if whitelist_denial(s, mm) is None {
        lemma_spending_layer_reads(m, c);
        let l = s.policies[0];
        lemma_first_outbound_at(m.asset_flows);
        let i = choose|i: int|
            0 <= i < m.asset_flows.len() && m.asset_flows[i] == f && m.asset_flows[i].direction
                == FlowDirection::Outbound;
        assert(mm.asset_flows[i] == swapped_asset_flow(f));
        lemma_foreign_found(mm.asset_flows, f.asset_id, i);
        assert(layer_denial(l, mm) is Some);
        lemma_layers_deny(s.policies, mm, 0);
    }
}

/// A synthesized policy permits the transaction it was synthesized from, as
/// long as the transaction stays within the policy's layers: every outbound
/// flow is of the first outbound asset and their total is within the cap
/// (the given one, else the first outbound amount), the timestamp is not in
/// 2099, and, when the transaction has auth entries, the invoking account
/// signed one of them. So the harness's permit case passes.
pub proof fn lemma_original_permitted(m: CallManifestView, c: ConstraintsView)
    requires
        first_outbound(m.asset_flows) matches Some(f) ==> forall|i: int|
            0 <= i < m.asset_flows.len() && (#[trigger] m.asset_flows[i]).direction == FlowDirection::Outbound
                ==> m.asset_flows[i].asset_id == f.asset_id,
        first_outbound(m.asset_flows) matches Some(f) ==> outbound_total(m.asset_flows, f.asset_id) <= match c.amount_cap {
            Some(cap) => cap,
            None => f.amount_raw,
        },
        !has_prefix(m.timestamp, "2099"@),
        m.auth_boundaries.len() > 0 ==> account_in_auth(m),
    ensures
        evaluate_spec(synthesize_spec(m, c), m).0 == TestOutcome::Permit,
        permit_result_spec(synthesize_spec(m, c), m).passed,
{
    let s = synthesize_spec(m, c);
    lemma_none_missing_from_self(m.unique_contracts.map_values(|r: ContractRefView| r.id));
    lemma_none_missing_from_self(m.unique_functions);
    assert(whitelist_denial(s, m) is None);
    lemma_param_names_distinct();
    assert forall|k: int| 0 <= k < s.policies.len() implies layer_denial(#[trigger] s.policies[k], m) is None by {
        let l = s.policies[k];
        if l.kind == PolicyLayerKind::SpendingLimit {
            let f = first_outbound(m.asset_flows)->0;
            let cap = match c.amount_cap {
                Some(x) => x,
                None => f.amount_raw,
            };
            assert(k == 0);
            lemma_no_foreign(m.asset_flows, f.asset_id);
            lemma_parse_decimal(cap);
            assert(l.params[0].0 == "cap_amount_raw"@);
            assert(cap_of(l) == cap);
            assert(l.params[1].0 == "asset_id"@);
            assert(l.params.drop_first()[0] == l.params[1]);
            assert(crate::json::first_member(l.params.drop_first(), "asset_id"@) == Some(l.params[1].1));
            assert(crate::json::first_member(l.params, "asset_id"@) == Some(l.params[1].1));
            assert(asset_filter(l) == f.asset_id);
        } else if l.kind == PolicyLayerKind::Custom {
            assert(l.params[0].0 == "max_slippage_percent"@);
            assert(!slippage_invalid(l));
        }
    }
    lemma_layers_pass(s.policies, m);
}

} // verus!
