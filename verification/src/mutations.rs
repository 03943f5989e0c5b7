//! The five standard deny mutations.
//!
//! Each mutation changes the manifest in a way that the policy must reject.
use vstd::prelude::*;

use crate::json::{JsonValue, JsonView};
use crate::manifest::{
    AssetFlow, AssetFlowView, CallManifest, CallManifestView, CallNode, CallNodeView, ContractRef,
    ContractRefView, flows_view, lemma_nodes_view, node_view, nodes_view,
};
use crate::text::{fixed_point, push_fixed_point, push_str, str_eq, to_owned_string};

verus! {

/// Which mutation to apply.
#[derive(Clone, Copy, Debug, PartialEq, Eq, Structural)]
pub enum MutationType {
    /// Same transaction, amount doubled
    AmountExceeded,
    /// Same transaction, different asset
    WrongAsset,
    /// Same function, different contract address
    WrongContract,
    /// Original plus an extra unauthorized function call
    ExtraFunctionCall,
    /// Same transaction, timestamp past the end of the time window
    OutOfWindow,
}

/// The name of a mutation.
pub open spec fn mutation_name(m: MutationType) -> Seq<char> {
    match m {
        MutationType::AmountExceeded => "amount_exceeded"@,
        MutationType::WrongAsset => "wrong_asset"@,
        MutationType::WrongContract => "wrong_contract"@,
        MutationType::ExtraFunctionCall => "extra_function_call"@,
        MutationType::OutOfWindow => "out_of_window"@,
    }
}

/// The description of a mutation.
pub open spec fn mutation_description(m: MutationType) -> Seq<char> {
    match m {
        MutationType::AmountExceeded => "Same transaction but amount × 2 — should exceed spending limit"@,
        MutationType::WrongAsset => "Same transaction but asset swapped — should be rejected by asset whitelist"@,
        MutationType::WrongContract => "Same function but different contract address — should fail contract whitelist"@,
        MutationType::ExtraFunctionCall => "Original + extra function call not in manifest — should be rejected"@,
        MutationType::OutOfWindow => "Same tx but timestamp past window end — should fail time window check"@,
    }
}

impl MutationType {
    /// The mutation's name.
    pub fn name(&self) -> (r: &'static str)
        ensures
            r@ == mutation_name(*self),
    {
        match self {
            MutationType::AmountExceeded => "amount_exceeded",
            MutationType::WrongAsset => "wrong_asset",
            MutationType::WrongContract => "wrong_contract",
            MutationType::ExtraFunctionCall => "extra_function_call",
            MutationType::OutOfWindow => "out_of_window",
        }
    }

    /// What the mutation does and why the policy must reject it.
    pub fn description(&self) -> (r: &'static str)
        ensures
            r@ == mutation_description(*self),
    {
        match self {
            MutationType::AmountExceeded => "Same transaction but amount × 2 — should exceed spending limit",
            MutationType::WrongAsset => "Same transaction but asset swapped — should be rejected by asset whitelist",
            MutationType::WrongContract => "Same function but different contract address — should fail contract whitelist",
            MutationType::ExtraFunctionCall => "Original + extra function call not in manifest — should be rejected",
            MutationType::OutOfWindow => "Same tx but timestamp past window end — should fail time window check",
        }
    }
}

/// The contract address the wrong-contract mutation uses.
pub open spec fn wrong_contract_id() -> Seq<char> {
    "CWRONG_CONTRACT_ADDRESS_DO_NOT_PERMIT"@
}

/// A call node and all its sub-calls, with every contract ID replaced by `id`.
pub open spec fn swap_node_view(n: CallNodeView, id: Seq<char>) -> CallNodeView
    decreases n, 0nat,
{
    CallNodeView {
        contract_id: id,
        contract_label: n.contract_label,
        function_name: n.function_name,
        args: n.args,
        sub_calls: swap_nodes_view(n.sub_calls, id),
        requires_auth: n.requires_auth,
        authorized_by: n.authorized_by,
    }
}

/// [`swap_node_view`] on each node of a list.
pub open spec fn swap_nodes_view(s: Seq<CallNodeView>, id: Seq<char>) -> Seq<CallNodeView>
    decreases s, 0nat,
{
    if s.len() == 0 {
        Seq::empty()
    } else {
        swap_nodes_view(s.drop_last(), id).push(swap_node_view(s.last(), id))
    }
}

/// A flow with its amount doubled.
pub open spec fn doubled_flow(f: AssetFlowView) -> AssetFlowView {
    AssetFlowView {
        amount_raw: (2 * f.amount_raw) as u128,
        amount_display: fixed_point((2 * f.amount_raw) as nat, f.decimals as nat),
        ..f
    }
}

/// A flow moved to another asset: USDC becomes EURC, XLM becomes USDC,
/// anything else a made-up asset.
pub open spec fn swapped_asset_flow(f: AssetFlowView) -> AssetFlowView {
    if f.asset_symbol == Some("USDC"@) {
        AssetFlowView { asset_symbol: Some("EURC"@), asset_id: "CEURC_TESTNET_WRONG"@, ..f }
    } else if f.asset_symbol == Some("XLM"@) {
        AssetFlowView { asset_symbol: Some("USDC"@), asset_id: "CUSDC_TESTNET_WRONG"@, ..f }
    } else {
        AssetFlowView { asset_symbol: Some("WRONGASSET"@), asset_id: "CWRONGASSET"@, ..f }
    }
}

/// The call the extra-function-call mutation adds.
pub open spec fn extra_call(account: Seq<char>) -> CallNodeView {
    CallNodeView {
        contract_id: "CUNAUTHORIZED"@,
        contract_label: None,
        function_name: "unauthorized_drain"@,
        args: seq![JsonView::String("all_funds"@)],
        sub_calls: Seq::empty(),
        requires_auth: true,
        authorized_by: Some(account),
    }
}

/// One more node of a list, viewed and swapped.
proof fn lemma_swap_step(s: Seq<CallNode>, i: int, id: Seq<char>)
    requires
        0 <= i < s.len(),
    ensures
        swap_nodes_view(nodes_view(s.subrange(0, i + 1)), id) == swap_nodes_view(
            nodes_view(s.subrange(0, i)),
            id,
        ).push(swap_node_view(node_view(&s[i]), id)),
{
    let prev = nodes_view(s.subrange(0, i));
    assert(s.subrange(0, i + 1).drop_last() =~= s.subrange(0, i));
    assert(nodes_view(s.subrange(0, i + 1)) == prev.push(node_view(&s[i])));
    assert(prev.push(node_view(&s[i])).drop_last() =~= prev);
}

/// The manifest after a mutation.
pub open spec fn mutate_spec(m: CallManifestView, mutation: MutationType) -> CallManifestView {
    match mutation {
        MutationType::AmountExceeded => CallManifestView {
            asset_flows: m.asset_flows.map_values(|f: AssetFlowView| doubled_flow(f)),
            summary: "[MUTATION: amount×2] "@ + m.summary,
            ..m
        },
        MutationType::WrongAsset => CallManifestView {
            asset_flows: m.asset_flows.map_values(|f: AssetFlowView| swapped_asset_flow(f)),
            summary: "[MUTATION: wrong_asset] "@ + m.summary,
            ..m
        },
        MutationType::WrongContract => CallManifestView {
            unique_contracts: if m.unique_contracts.len() > 0 {
                m.unique_contracts.update(
                    0,
                    ContractRefView {
                        id: wrong_contract_id(),
                        label: Some("Wrong contract"@),
                        protocol: m.unique_contracts[0].protocol,
                    },
                )
            } else {
                m.unique_contracts
            },
            top_level_calls: swap_nodes_view(m.top_level_calls, wrong_contract_id()),
            summary: "[MUTATION: wrong_contract] "@ + m.summary,
            ..m
        },
        MutationType::ExtraFunctionCall => CallManifestView {
            unique_functions: m.unique_functions.push("unauthorized_drain"@),
            top_level_calls: m.top_level_calls.push(extra_call(m.invoking_account)),
            summary: "[MUTATION: extra_function_call] "@ + m.summary,
            ..m
        },
        MutationType::OutOfWindow => CallManifestView {
            timestamp: "2099-01-01T00:00:00Z"@,
            ledger_sequence: (m.ledger_sequence + 10_000_000) as u32,
            summary: "[MUTATION: out_of_window] "@ + m.summary,
            ..m
        },
    }
}

/// The mutation can be applied without overflow: doubled amounts fit a
/// `u128` and their decimals a power of ten; the advanced ledger a `u32`.
pub open spec fn mutable_by(m: CallManifestView, mutation: MutationType) -> bool {
    match mutation {
        MutationType::AmountExceeded => forall|i: int|
            0 <= i < m.asset_flows.len() ==> 2 * (#[trigger] m.asset_flows[i]).amount_raw <= u128::MAX
                && m.asset_flows[i].decimals <= 38,
        MutationType::OutOfWindow => m.ledger_sequence + 10_000_000 <= u32::MAX,
        _ => true,
    }
}

/// Whether the mutation can be applied to the manifest (see [`mutable_by`]).
pub fn can_mutate(manifest: &CallManifest, mutation: MutationType) -> (r: bool)
    ensures
        r == mutable_by(manifest@, mutation),
{
    match mutation {
        MutationType::AmountExceeded => {
            let mut i: usize = 0;
            while i < manifest.asset_flows.len()
                invariant
                    mutation == MutationType::AmountExceeded,
                    i <= manifest.asset_flows@.len(),
                    forall|j: int|
                        0 <= j < i ==> 2 * (#[trigger] manifest@.asset_flows[j]).amount_raw <= u128::MAX
                            && manifest@.asset_flows[j].decimals <= 38,
                decreases manifest.asset_flows.len() - i,
            {
                let f = &manifest.asset_flows[i];
                assert(manifest@.asset_flows[i as int] == f@);
                if f.amount_raw > u128::MAX / 2 || f.decimals > 38 {
                    assert(!(2 * manifest@.asset_flows[i as int].amount_raw <= u128::MAX
                        && manifest@.asset_flows[i as int].decimals <= 38));
                    return false;
                }
                i = i + 1;
            }
            true
        },
        MutationType::OutOfWindow => manifest.ledger_sequence <= u32::MAX - 10_000_000,
        _ => true,
    }
}

/// `raw` written with `decimals` decimal places.
pub fn format_raw(raw: u128, decimals: u8) -> (r: String)
    requires
        decimals <= 38,
    ensures
        r@ == fixed_point(raw as nat, decimals as nat),
{
    let mut r = String::new();
    push_fixed_point(&mut r, raw, decimals);
    r
}

/// A copy of a call node with every contract ID, its own and its
/// sub-calls', replaced by `new_id`.
pub fn swap_contract_id(node: &CallNode, new_id: &str) -> (r: CallNode)
    ensures
        r@ == swap_node_view(node@, new_id@),
    decreases node,
{
    let s = &node.sub_calls;
    let mut w: Vec<CallNode> = Vec::new();
    let mut i: usize = 0;
    while i < s.len()
        invariant
            i <= s@.len(),
            nodes_view(w@) == swap_nodes_view(nodes_view(s@.subrange(0, i as int)), new_id@),
            forall|j: int| 0 <= j < s@.len() ==> decreases_to!(*node => s@[j]),
        decreases s.len() - i,
    {
        proof {
            vstd::std_specs::vec::axiom_vec_index_decreases(*s, i as int);
        }
        let d = swap_contract_id(&s[i], new_id);
        let ghost before = w@;
        w.push(d);
        proof {
            assert(w@.drop_last() =~= before);
            lemma_swap_step(s@, i as int, new_id@);
        }
        i = i + 1;
    }
    assert(s@.subrange(0, s@.len() as int) =~= s@);
    CallNode {
        contract_id: to_owned_string(new_id),
        contract_label: crate::text::clone_opt(&node.contract_label),
        function_name: node.function_name.clone(),
        args: crate::manifest::duplicate_values(&node.args),
        sub_calls: w,
        requires_auth: node.requires_auth,
        authorized_by: crate::text::clone_opt(&node.authorized_by),
    }
}

/// Prefixes the summary with a mutation tag.
fn tag_summary(summary: &String, tag: &str) -> (r: String)
    ensures
        r@ == tag@ + summary@,
{
    let mut r = to_owned_string(tag);
    push_str(&mut r, summary.as_str());
    r
}

/// The manifest with `mutation` applied. The time window does not enter
/// any of the five mutations.
pub fn apply_mutation(manifest: &CallManifest, mutation: &MutationType, time_window_seconds: u64) -> (r: CallManifest)
    requires
        mutable_by(manifest@, *mutation),
    ensures
        r@ == mutate_spec(manifest@, *mutation),
{
    let mut mutated = manifest.duplicate();
    match mutation {
        MutationType::AmountExceeded => {
            let mut flows: Vec<AssetFlow> = Vec::new();
            let mut i: usize = 0;
            while i < manifest.asset_flows.len()
                invariant
                    i <= manifest.asset_flows@.len(),
                    mutable_by(manifest@, MutationType::AmountExceeded),
                    flows@.len() == i,
                    forall|j: int| 0 <= j < i ==> #[trigger] flows@[j]@ == doubled_flow(manifest.asset_flows@[j]@),
                decreases manifest.asset_flows.len() - i,
            {
                let mut f = manifest.asset_flows[i].duplicate();
                assert(manifest@.asset_flows[i as int] == manifest.asset_flows@[i as int]@);
                f.amount_raw = f.amount_raw * 2;
                f.amount_display = format_raw(f.amount_raw, f.decimals);
                flows.push(f);
                i = i + 1;
            }
            assert(flows_view(flows@) =~= manifest@.asset_flows.map_values(|f: AssetFlowView| doubled_flow(f)));
            mutated.asset_flows = flows;
            mutated.summary = tag_summary(&manifest.summary, "[MUTATION: amount×2] ");
        },
        MutationType::WrongAsset => {
            let mut flows: Vec<AssetFlow> = Vec::new();
            let mut i: usize = 0;
            while i < manifest.asset_flows.len()
                invariant
                    i <= manifest.asset_flows@.len(),
                    flows@.len() == i,
                    forall|j: int| 0 <= j < i ==> #[trigger] flows@[j]@ == swapped_asset_flow(manifest.asset_flows@[j]@),
                decreases manifest.asset_flows.len() - i,
            {
                let mut f = manifest.asset_flows[i].duplicate();
                let is_usdc = match &f.asset_symbol {
                    Some(s) => str_eq(s.as_str(), "USDC"),
                    None => false,
                };
                let is_xlm = match &f.asset_symbol {
                    Some(s) => str_eq(s.as_str(), "XLM"),
                    None => false,
                };
                if is_usdc {
                    f.asset_symbol = Some(to_owned_string("EURC"));
                    f.asset_id = to_owned_string("CEURC_TESTNET_WRONG");
                } else if is_xlm {
                    f.asset_symbol = Some(to_owned_string("USDC"));
                    f.asset_id = to_owned_string("CUSDC_TESTNET_WRONG");
                } else {
                    f.asset_symbol = Some(to_owned_string("WRONGASSET"));
                    f.asset_id = to_owned_string("CWRONGASSET");
                }
                flows.push(f);
                i = i + 1;
            }
            assert(flows_view(flows@) =~= manifest@.asset_flows.map_values(|f: AssetFlowView| swapped_asset_flow(f)));
            mutated.asset_flows = flows;
            mutated.summary = tag_summary(&manifest.summary, "[MUTATION: wrong_asset] ");
        },
        MutationType::WrongContract => {
            let wrong = "CWRONG_CONTRACT_ADDRESS_DO_NOT_PERMIT";
            if manifest.unique_contracts.len() > 0 {
                let first = ContractRef {
                    id: to_owned_string(wrong),
                    label: Some(to_owned_string("Wrong contract")),
                    protocol: crate::text::clone_opt(&manifest.unique_contracts[0].protocol),
                };
                mutated.unique_contracts.set(0, first);
                assert(crate::manifest::contracts_view(mutated.unique_contracts@) =~= manifest@.unique_contracts.update(
                    0,
                    ContractRefView {
                        id: wrong_contract_id(),
                        label: Some("Wrong contract"@),
                        protocol: manifest@.unique_contracts[0].protocol,
                    },
                ));
            }
            let calls = &manifest.top_level_calls;
            let mut w: Vec<CallNode> = Vec::new();
            let mut i: usize = 0;
            while i < calls.len()
                invariant
                    i <= calls@.len(),
                    nodes_view(w@) == swap_nodes_view(nodes_view(calls@.subrange(0, i as int)), wrong@),
                decreases calls.len() - i,
            {
                let d = swap_contract_id(&calls[i], wrong);
                let ghost before = w@;
                w.push(d);
                proof {
                    assert(w@.drop_last() =~= before);
                    lemma_swap_step(calls@, i as int, wrong@);
                }
                i = i + 1;
            }
            assert(calls@.subrange(0, calls@.len() as int) =~= calls@);
            mutated.top_level_calls = w;
            mutated.summary = tag_summary(&manifest.summary, "[MUTATION: wrong_contract] ");
        },
        MutationType::ExtraFunctionCall => {
            mutated.unique_functions.push(to_owned_string("unauthorized_drain"));
            let mut args: Vec<JsonValue> = Vec::new();
            args.push(JsonValue::from_text("all_funds"));
            let extra = CallNode {
                contract_id: to_owned_string("CUNAUTHORIZED"),
                contract_label: None,
                function_name: to_owned_string("unauthorized_drain"),
                args,
                sub_calls: Vec::new(),
                requires_auth: true,
                authorized_by: Some(manifest.invoking_account.clone()),
            };
            proof {
                lemma_nodes_view(mutated.top_level_calls@);
                crate::json::lemma_list_view(extra.args@);
                assert(crate::json::list_view(extra.args@) =~= seq![JsonView::String("all_funds"@)]);
                assert(nodes_view(extra.sub_calls@) =~= Seq::<CallNodeView>::empty());
                assert(extra@ == extra_call(manifest@.invoking_account));
            }
            let ghost before = mutated.top_level_calls@;
            mutated.top_level_calls.push(extra);
            proof {
                assert(mutated.top_level_calls@.drop_last() =~= before);
            }
            mutated.summary = tag_summary(&manifest.summary, "[MUTATION: extra_function_call] ");
            assert(mutated.unique_functions.deep_view() =~= manifest@.unique_functions.push("unauthorized_drain"@));
        },
        MutationType::OutOfWindow => {
            mutated.timestamp = to_owned_string("2099-01-01T00:00:00Z");
            mutated.ledger_sequence = mutated.ledger_sequence + 10_000_000;
            mutated.summary = tag_summary(&manifest.summary, "[MUTATION: out_of_window] ");
        },
    }
    mutated
}

} // verus!
