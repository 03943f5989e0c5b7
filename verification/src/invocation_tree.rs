//! Walking and pruning the call tree.
//!
//! A node is kept when the invoking account authorized it, or when some
//! asset flow involves the invoking account or the node's contract;
//! everything else is discarded, with its sub-calls.
use vstd::prelude::*;

use crate::manifest::{AssetFlow, AssetFlowView, CallNode, CallNodeView, flows_view, lemma_nodes_view, node_view, nodes_view};
use crate::text::{contains_string, str_eq, to_owned_string};

verus! {

/// Some asset flow has the invoking account as counterparty, or the node's
/// contract as asset.
pub open spec fn has_asset_delta(n: CallNodeView, account: Seq<char>, flows: Seq<AssetFlowView>) -> bool {
    exists|i: int|
        0 <= i < flows.len() && ((#[trigger] flows[i]).counterparty == Some(account) || n.contract_id
            == flows[i].asset_id)
}

/// The node is kept.
pub open spec fn keeps(n: CallNodeView, account: Seq<char>, flows: Seq<AssetFlowView>) -> bool {
    n.authorized_by == Some(account) || has_asset_delta(n, account, flows)
}

/// A node pruned: dropped, or kept with its sub-calls pruned.
pub open spec fn prune_node_spec(n: CallNodeView, account: Seq<char>, flows: Seq<AssetFlowView>) -> Option<CallNodeView>
    decreases n, 0nat,
{
    if !keeps(n, account, flows) {
        None
    } else {
        Some(CallNodeView { sub_calls: prune_spec(n.sub_calls, account, flows), ..n })
    }
}

/// A list of nodes pruned, in order.
pub open spec fn prune_spec(s: Seq<CallNodeView>, account: Seq<char>, flows: Seq<AssetFlowView>) -> Seq<CallNodeView>
    decreases s, 0nat,
{
    if s.len() == 0 {
        Seq::empty()
    } else {
        prune_spec(s.drop_last(), account, flows) + match prune_node_spec(s.last(), account, flows) {
            Some(x) => seq![x],
            None => Seq::empty(),
        }
    }
}

/// Whether an asset flow involves the invoking account or the contract.
fn asset_delta(contract_id: &str, invoking_account: &str, asset_flows: &[AssetFlow]) -> (r: bool)
    ensures
        r == exists|i: int|
            0 <= i < asset_flows@.len() && ((#[trigger] flows_view(asset_flows@)[i]).counterparty == Some(
                invoking_account@,
            ) || contract_id@ == flows_view(asset_flows@)[i].asset_id),
{
    let ghost fs = flows_view(asset_flows@);
    let mut i: usize = 0;
    while i < asset_flows.len()
        invariant
            fs == flows_view(asset_flows@),
            i <= asset_flows@.len(),
            forall|j: int|
                0 <= j < i ==> !((#[trigger] fs[j]).counterparty == Some(invoking_account@) || contract_id@
                    == fs[j].asset_id),
        decreases asset_flows.len() - i,
    {
        let f = &asset_flows[i];
        assert(fs[i as int] == f@);
        let by_counterparty = match &f.counterparty {
            Some(c) => str_eq(c.as_str(), invoking_account),
            None => false,
        };
        if by_counterparty || str_eq(contract_id, f.asset_id.as_str()) {
            return true;
        }
        i = i + 1;
    }
    false
}

/// Prunes one node: `None` when it is dropped.
pub fn prune_node(node: CallNode, invoking_account: &str, asset_flows: &[AssetFlow]) -> (r: Option<CallNode>)
    ensures
        match prune_node_spec(node@, invoking_account@, flows_view(asset_flows@)) {
            Some(x) => r matches Some(y) && y@ == x,
            None => r is None,
        },
    decreases node,
{
    let authorized_by_invoker = match &node.authorized_by {
        Some(a) => str_eq(a.as_str(), invoking_account),
        None => false,
    };
    let has_delta = asset_delta(node.contract_id.as_str(), invoking_account, asset_flows);
    if !authorized_by_invoker && !has_delta {
        return None;
    }
    let ghost whole = node;
    let CallNode { contract_id, contract_label, function_name, args, sub_calls, requires_auth, authorized_by } = node;
    proof {
        assert(decreases_to!(whole => whole.sub_calls));
    }
    let pruned = prune_call_tree(sub_calls, invoking_account, asset_flows);
    Some(CallNode { contract_id, contract_label, function_name, args, sub_calls: pruned, requires_auth, authorized_by })
}

/// Prunes a call tree to the nodes initiated by, or relevant to, the
/// invoking account.
pub fn prune_call_tree(nodes: Vec<CallNode>, invoking_account: &str, asset_flows: &[AssetFlow]) -> (r: Vec<CallNode>)
    ensures
        nodes_view(r@) == prune_spec(nodes_view(nodes@), invoking_account@, flows_view(asset_flows@)),
    decreases nodes,
{
    let ghost orig = nodes@;
    let ghost whole = nodes;
    let ghost fs = flows_view(asset_flows@);
    let mut rest = nodes;
    let n = rest.len();
    let mut out: Vec<CallNode> = Vec::new();
    let mut k: usize = 0;
    proof {
        lemma_nodes_view(orig);
        assert(orig.subrange(0, 0) =~= Seq::<CallNode>::empty());
    }
    while rest.len() > 0
        invariant
            orig == whole@,
            whole == nodes,
            orig.len() == n,
            k <= n,
            fs == flows_view(asset_flows@),
            rest@ == orig.subrange(k as int, n as int),
            nodes_view(out@) == prune_spec(nodes_view(orig.subrange(0, k as int)), invoking_account@, fs),
        decreases rest.len(),
    {
        assert(k < n);
        let first = rest.remove(0);
        assert(first == orig[k as int]);
        proof {
            vstd::std_specs::vec::axiom_vec_index_decreases(whole, k as int);
        }
        let ghost before = out@;
        match prune_node(first, invoking_account, asset_flows) {
            Some(kept) => {
                out.push(kept);
            },
            None => {},
        }
        proof {
            let pre = orig.subrange(0, k + 1);
            assert(pre.drop_last() =~= orig.subrange(0, k as int));
            lemma_nodes_view(pre);
            lemma_nodes_view(orig.subrange(0, k as int));
            assert(nodes_view(pre).drop_last() =~= nodes_view(orig.subrange(0, k as int)));
            assert(nodes_view(pre).last() == node_view(&orig[k as int]));
            lemma_nodes_view(out@);
            lemma_nodes_view(before);
            assert(nodes_view(out@) =~= prune_spec(nodes_view(pre), invoking_account@, fs));
            assert(rest@ =~= orig.subrange(k + 1, n as int));
        }
        k = k + 1;
    }
    assert(orig.subrange(0, k as int) =~= orig);
    out
}

// ── Walking the tree ─────────────────────────────────────────────────────────

/// A node and all its sub-calls, in pre-order.
pub open spec fn preorder_node(n: CallNodeView) -> Seq<CallNodeView>
    decreases n, 0nat,
{
    seq![n] + preorder(n.sub_calls)
}

/// The nodes of a list of trees, in pre-order.
pub open spec fn preorder(s: Seq<CallNodeView>) -> Seq<CallNodeView>
    decreases s, 0nat,
{
    if s.len() == 0 {
        Seq::empty()
    } else {
        preorder(s.drop_last()) + preorder_node(s.last())
    }
}

/// `acc` extended by the entries of `s` whose key no earlier entry has.
pub open spec fn keep_first(acc: Seq<(Seq<char>, Seq<char>)>, s: Seq<(Seq<char>, Seq<char>)>) -> Seq<(Seq<char>, Seq<char>)>
    decreases s.len(),
{
    if s.len() == 0 {
        acc
    } else {
        keep_first(
            if exists|i: int| 0 <= i < acc.len() && (#[trigger] acc[i]).0 == s[0].0 {
                acc
            } else {
                acc.push(s[0])
            },
            s.drop_first(),
        )
    }
}

/// Keeping first entries of a concatenation goes part by part.
pub proof fn lemma_keep_first_append(acc: Seq<(Seq<char>, Seq<char>)>, a: Seq<(Seq<char>, Seq<char>)>, b: Seq<(Seq<char>, Seq<char>)>)
    ensures
        keep_first(acc, a + b) == keep_first(keep_first(acc, a), b),
    decreases a.len(),
{
    if a.len() == 0 {
        assert(a + b =~= b);
    } else {
        assert((a + b)[0] == a[0]);
        assert((a + b).drop_first() =~= a.drop_first() + b);
        let next = if exists|i: int| 0 <= i < acc.len() && (#[trigger] acc[i]).0 == a[0].0 {
            acc
        } else {
            acc.push(a[0])
        };
        lemma_keep_first_append(next, a.drop_first(), b);
    }
}

/// A contract ID keyed by itself.
pub open spec fn contract_entry(n: CallNodeView) -> (Seq<char>, Seq<char>) {
    (n.contract_id, n.contract_id)
}

/// A function name keyed by itself.
pub open spec fn function_entry(n: CallNodeView) -> (Seq<char>, Seq<char>) {
    (n.function_name, n.function_name)
}

/// The entry a node contributes: keyed by function or by contract.
pub open spec fn entry_of(n: CallNodeView, by_function: bool) -> (Seq<char>, Seq<char>) {
    if by_function {
        function_entry(n)
    } else {
        contract_entry(n)
    }
}

/// The entries of a list of nodes.
pub open spec fn entries(s: Seq<CallNodeView>, by_function: bool) -> Seq<(Seq<char>, Seq<char>)> {
    s.map_values(|n: CallNodeView| entry_of(n, by_function))
}

/// The pairs of seen keys and outputs.
pub open spec fn zip(keys: Seq<Seq<char>>, vals: Seq<Seq<char>>) -> Seq<(Seq<char>, Seq<char>)> {
    Seq::new(keys.len(), |i: int| (keys[i], vals[i]))
}

/// The unique contract IDs of a call tree, in pre-order of first occurrence.
pub open spec fn unique_contracts_spec(s: Seq<CallNodeView>) -> Seq<Seq<char>> {
    keep_first(Seq::empty(), entries(preorder(s), false)).map_values(
        |e: (Seq<char>, Seq<char>)| e.1,
    )
}

/// The function names of a call tree, each once, in pre-order of first
/// occurrence.
pub open spec fn unique_functions_spec(s: Seq<CallNodeView>) -> Seq<Seq<char>> {
    keep_first(Seq::empty(), entries(preorder(s), true)).map_values(
        |e: (Seq<char>, Seq<char>)| e.1,
    )
}

/// One more entry, kept when its key is new.
proof fn lemma_keep_one(acc: Seq<(Seq<char>, Seq<char>)>, e: (Seq<char>, Seq<char>))
    ensures
        keep_first(acc, seq![e]) == if exists|i: int| 0 <= i < acc.len() && (#[trigger] acc[i]).0 == e.0 {
            acc
        } else {
            acc.push(e)
        },
{
    let one = seq![e];
    assert(one[0] == e);
    assert(one.drop_first() =~= Seq::<(Seq<char>, Seq<char>)>::empty());
    let next = if exists|i: int| 0 <= i < acc.len() && (#[trigger] acc[i]).0 == e.0 {
        acc
    } else {
        acc.push(e)
    };
    assert(keep_first(next, one.drop_first()) == next);
}

/// The pre-order of the first `k + 1` trees of a list.
proof fn lemma_preorder_step(s: Seq<CallNode>, k: int)
    requires
        0 <= k < s.len(),
    ensures
        preorder(nodes_view(s.subrange(0, k + 1))) == preorder(nodes_view(s.subrange(0, k))) + seq![node_view(&s[k])]
            + preorder(nodes_view(s[k].sub_calls@)),
{
    let pre = s.subrange(0, k + 1);
    assert(pre.drop_last() =~= s.subrange(0, k));
    lemma_nodes_view(pre);
    lemma_nodes_view(s.subrange(0, k));
    assert(nodes_view(pre).drop_last() =~= nodes_view(s.subrange(0, k)));
    assert(nodes_view(pre).last() == node_view(&s[k]));
    assert(node_view(&s[k]).sub_calls == nodes_view(s[k].sub_calls@));
    assert(preorder(nodes_view(pre)) == preorder(nodes_view(s.subrange(0, k))) + preorder_node(node_view(&s[k])));
    assert(preorder(nodes_view(pre)) =~= preorder(nodes_view(s.subrange(0, k))) + seq![node_view(&s[k])]
        + preorder(nodes_view(s[k].sub_calls@)));
}

/// Appends the unique (by key) entries of a call tree, in pre-order.
fn collect_recursive(nodes: &[CallNode], by_function: bool, seen: &mut Vec<String>, out: &mut Vec<String>)
    requires
        old(seen)@.len() == old(out)@.len(),
    ensures
        final(seen)@.len() == final(out)@.len(),
        zip(final(seen).deep_view(), final(out).deep_view()) == keep_first(
            zip(old(seen).deep_view(), old(out).deep_view()),
            entries(preorder(nodes_view(nodes@)), by_function),
        ),
    decreases nodes@,
{
    let ghost start = zip(seen.deep_view(), out.deep_view());
    assert(nodes@.subrange(0, 0) =~= Seq::<CallNode>::empty());
    assert(entries(preorder(nodes_view(nodes@.subrange(0, 0))), by_function) =~= Seq::<(Seq<char>, Seq<char>)>::empty());
    let mut i: usize = 0;
    while i < nodes.len()
        invariant
            i <= nodes@.len(),
            seen@.len() == out@.len(),
            zip(seen.deep_view(), out.deep_view()) == keep_first(
                start,
                entries(preorder(nodes_view(nodes@.subrange(0, i as int))), by_function),
            ),
        decreases nodes.len() - i,
    {
        let node = &nodes[i];
        let key = if by_function {
            node.function_name.clone()
        } else {
            node.contract_id.clone()
        };
        let value = if by_function {
            node.function_name.clone()
        } else {
            node.contract_id.clone()
        };
        let ghost e = entry_of(node@, by_function);
        assert(e == (key@, value@));
        let ghost acc = zip(seen.deep_view(), out.deep_view());
        let known = contains_string(seen, key.as_str());
        assert(known == exists|j: int| 0 <= j < acc.len() && (#[trigger] acc[j]).0 == e.0) by {
            if known {
                let j = choose|j: int| 0 <= j < seen.deep_view().len() && seen.deep_view()[j] == key@;
                assert(acc[j].0 == e.0);
            }
            if exists|j: int| 0 <= j < acc.len() && (#[trigger] acc[j]).0 == e.0 {
                let j = choose|j: int| 0 <= j < acc.len() && (#[trigger] acc[j]).0 == e.0;
                assert(seen.deep_view()[j] == key@);
            }
        }
        if !known {
            seen.push(key);
            out.push(value);
            assert(zip(seen.deep_view(), out.deep_view()) =~= acc.push(e));
        }
        proof {
            lemma_keep_one(acc, e);
        }
        let ghost mid = zip(seen.deep_view(), out.deep_view());
        proof {
            assert(decreases_to!(nodes@ => nodes@[i as int]));
            assert(decreases_to!(nodes@[i as int] => nodes@[i as int].sub_calls));
            assert(decreases_to!(nodes@[i as int].sub_calls => nodes@[i as int].sub_calls@));
        }
        collect_recursive(node.sub_calls.as_slice(), by_function, seen, out);
        proof {
            lemma_preorder_step(nodes@, i as int);
            let p0 = preorder(nodes_view(nodes@.subrange(0, i as int)));
            let p1 = preorder(nodes_view(node.sub_calls@));
            assert(entries(preorder(nodes_view(nodes@.subrange(0, i + 1))), by_function) =~= entries(p0, by_function)
                + seq![e] + entries(p1, by_function));
            lemma_keep_first_append(start, entries(p0, by_function) + seq![e], entries(p1, by_function));
            lemma_keep_first_append(start, entries(p0, by_function), seq![e]);
        }
        i = i + 1;
    }
    assert(nodes@.subrange(0, nodes@.len() as int) =~= nodes@);
}

/// Appends the contract IDs of a call tree not seen yet, in pre-order.
pub fn collect_contracts_recursive(nodes: &[CallNode], seen: &mut Vec<String>, out: &mut Vec<String>)
    requires
        old(seen)@.len() == old(out)@.len(),
    ensures
        final(seen)@.len() == final(out)@.len(),
        zip(final(seen).deep_view(), final(out).deep_view()) == keep_first(
            zip(old(seen).deep_view(), old(out).deep_view()),
            entries(preorder(nodes_view(nodes@)), false),
        ),
{
    collect_recursive(nodes, false, seen, out);
}

/// Appends the function names of a call tree not seen yet, in pre-order.
pub fn collect_functions_recursive(nodes: &[CallNode], seen: &mut Vec<String>, out: &mut Vec<String>)
    requires
        old(seen)@.len() == old(out)@.len(),
    ensures
        final(seen)@.len() == final(out)@.len(),
        zip(final(seen).deep_view(), final(out).deep_view()) == keep_first(
            zip(old(seen).deep_view(), old(out).deep_view()),
            entries(preorder(nodes_view(nodes@)), true),
        ),
{
    collect_recursive(nodes, true, seen, out);
}

/// The unique contract IDs of a call tree, in pre-order of first occurrence.
pub fn collect_unique_contracts(nodes: &[CallNode]) -> (r: Vec<String>)
    ensures
        r.deep_view() == unique_contracts_spec(nodes_view(nodes@)),
{
    let mut seen: Vec<String> = Vec::new();
    let mut result: Vec<String> = Vec::new();
    let ghost z0 = zip(seen.deep_view(), result.deep_view());
    assert(z0 =~= Seq::<(Seq<char>, Seq<char>)>::empty());
    collect_contracts_recursive(nodes, &mut seen, &mut result);
    let ghost kept = zip(seen.deep_view(), result.deep_view());
    let ghost p = preorder(nodes_view(nodes@));
    assert(kept == keep_first(z0, entries(p, false)));
    assert(result.deep_view() =~= unique_contracts_spec(nodes_view(nodes@)));
    result
}

/// The function names of a call tree, each once, in pre-order of first
/// occurrence.
pub fn collect_unique_functions(nodes: &[CallNode]) -> (r: Vec<String>)
    ensures
        r.deep_view() == unique_functions_spec(nodes_view(nodes@)),
{
    let mut seen: Vec<String> = Vec::new();
    let mut result: Vec<String> = Vec::new();
    let ghost z0 = zip(seen.deep_view(), result.deep_view());
    assert(z0 =~= Seq::<(Seq<char>, Seq<char>)>::empty());
    collect_functions_recursive(nodes, &mut seen, &mut result);
    let ghost kept = zip(seen.deep_view(), result.deep_view());
    let ghost p = preorder(nodes_view(nodes@));
    assert(kept == keep_first(z0, entries(p, true)));
    assert(result.deep_view() =~= unique_functions_spec(nodes_view(nodes@)));
    result
}

/// The nesting depth of a call node.
pub open spec fn node_depth(n: CallNodeView) -> nat
    decreases n, 0nat,
{
    1 + depth(n.sub_calls)
}

/// The largest nesting depth of a list of trees (0 for none).
pub open spec fn depth(s: Seq<CallNodeView>) -> nat
    decreases s, 0nat,
{
    if s.len() == 0 {
        0
    } else {
        let a = depth(s.drop_last());
        let b = node_depth(s.last());
        if a >= b {
            a
        } else {
            b
        }
    }
}

/// The maximum nesting depth of a call tree.
pub fn max_depth(nodes: &[CallNode]) -> (r: usize)
    requires
        depth(nodes_view(nodes@)) <= usize::MAX,
    ensures
        r == depth(nodes_view(nodes@)),
    decreases nodes@,
{
    let mut best: usize = 0;
    let mut i: usize = 0;
    proof {
        lemma_nodes_view(nodes@);
    }
    assert(nodes@.subrange(0, 0) =~= Seq::<CallNode>::empty());
    while i < nodes.len()
        invariant
            i <= nodes@.len(),
            depth(nodes_view(nodes@)) <= usize::MAX,
            nodes_view(nodes@).len() == nodes@.len(),
            forall|j: int| 0 <= j < nodes@.len() ==> #[trigger] nodes_view(nodes@)[j] == node_view(&nodes@[j]),
            best == depth(nodes_view(nodes@.subrange(0, i as int))),
        decreases nodes.len() - i,
    {
        let node = &nodes[i];
        proof {
            let pre = nodes@.subrange(0, i + 1);
            assert(pre.drop_last() =~= nodes@.subrange(0, i as int));
            lemma_nodes_view(pre);
            lemma_nodes_view(nodes@.subrange(0, i as int));
            assert(nodes_view(pre).drop_last() =~= nodes_view(nodes@.subrange(0, i as int)));
            assert(nodes_view(pre).last() == node_view(&nodes@[i as int]));
            lemma_depth_prefix(nodes_view(nodes@), i + 1);
            assert(nodes_view(nodes@).subrange(0, i + 1) =~= nodes_view(pre));
            assert(decreases_to!(nodes@ => nodes@[i as int]));
            assert(decreases_to!(nodes@[i as int] => nodes@[i as int].sub_calls));
            assert(decreases_to!(nodes@[i as int].sub_calls => nodes@[i as int].sub_calls@));
            assert(depth(nodes_view(pre)) >= node_depth(node_view(&nodes@[i as int])));
            assert(node_depth(node_view(&nodes@[i as int])) == 1 + depth(nodes_view(nodes@[i as int].sub_calls@)));
        }
        let below = max_depth(node.sub_calls.as_slice());
        let d = 1 + below;
        if d > best {
            best = d;
        }
        i = i + 1;
    }
    assert(nodes@.subrange(0, nodes@.len() as int) =~= nodes@);
    best
}

/// A prefix of a list of trees is no deeper than the list.
proof fn lemma_depth_prefix(s: Seq<CallNodeView>, k: int)
    requires
        0 <= k <= s.len(),
    ensures
        depth(s.subrange(0, k)) <= depth(s),
    decreases s.len() - k,
{
    if k < s.len() {
        lemma_depth_prefix(s.drop_last(), if k < s.len() - 1 { k } else { s.len() - 1 });
        assert(s.drop_last().subrange(0, k) =~= s.subrange(0, k));
        if k == s.len() - 1 {
            assert(s.subrange(0, k) =~= s.drop_last());
        } else {
            lemma_depth_prefix(s.drop_last(), k);
        }
    } else {
        assert(s.subrange(0, k) =~= s);
    }
}

} // verus!

verus! {

/// Keeping first entries keeps the keys distinct and loses no key.
proof fn lemma_keep_first_props(acc: Seq<(Seq<char>, Seq<char>)>, s: Seq<(Seq<char>, Seq<char>)>)
    requires
        forall|i: int, j: int| 0 <= i < j < acc.len() ==> #[trigger] acc[i].0 != #[trigger] acc[j].0,
    ensures
        forall|i: int, j: int|
            0 <= i < j < keep_first(acc, s).len() ==> #[trigger] keep_first(acc, s)[i].0 != #[trigger] keep_first(
                acc,
                s,
            )[j].0,
        forall|k: int|
            0 <= k < s.len() ==> exists|i: int|
                0 <= i < keep_first(acc, s).len() && #[trigger] keep_first(acc, s)[i].0 == (#[trigger] s[k]).0,
        keep_first(acc, s).len() >= acc.len(),
        forall|k: int| 0 <= k < acc.len() ==> #[trigger] keep_first(acc, s)[k] == acc[k],
    decreases s.len(),
{
    if s.len() > 0 {
        let known = exists|i: int| 0 <= i < acc.len() && (#[trigger] acc[i]).0 == s[0].0;
        let next = if known {
            acc
        } else {
            acc.push(s[0])
        };
        if !known {
            assert forall|i: int, j: int| 0 <= i < j < next.len() implies #[trigger] next[i].0 != #[trigger] next[j].0 by {
                if j == acc.len() {
                    assert(next[i] == acc[i]);
                }
            }
        }
        lemma_keep_first_props(next, s.drop_first());
        let r = keep_first(acc, s);
        assert(r == keep_first(next, s.drop_first()));
        assert forall|k: int| 0 <= k < s.len() implies exists|i: int|
            0 <= i < r.len() && #[trigger] r[i].0 == (#[trigger] s[k]).0 by {
            if k == 0 {
                if known {
                    let a = choose|a: int| 0 <= a < acc.len() && (#[trigger] acc[a]).0 == s[0].0;
                    assert(next[a].0 == s[0].0);
                    assert(r[a] == next[a]);
                } else {
                    assert(next[acc.len() as int].0 == s[0].0);
                    assert(r[acc.len() as int] == next[acc.len() as int]);
                }
            } else {
                assert(s.drop_first()[k - 1] == s[k]);
            }
        }
        assert forall|k: int| 0 <= k < acc.len() implies #[trigger] r[k] == acc[k] by {
            assert(next[k] == acc[k]);
        }
    } else {
        assert(keep_first(acc, s) == acc);
    }
}

/// The unique contracts of a call tree: no contract occurs twice, and every
/// contract of the tree occurs.
pub proof fn lemma_unique_contracts(s: Seq<CallNodeView>)
    ensures
        forall|i: int, j: int|
            0 <= i < j < unique_contracts_spec(s).len() ==> #[trigger] unique_contracts_spec(s)[i]
                != #[trigger] unique_contracts_spec(s)[j],
        forall|k: int|
            0 <= k < preorder(s).len() ==> unique_contracts_spec(s).contains((#[trigger] preorder(s)[k]).contract_id),
{
    let es = entries(preorder(s), false);
    let kept = keep_first(Seq::empty(), es);
    lemma_keep_first_props(Seq::empty(), es);
    lemma_keep_first_entries_keyed(Seq::empty(), es);
    assert forall|k: int| 0 <= k < preorder(s).len() implies unique_contracts_spec(s).contains(
        (#[trigger] preorder(s)[k]).contract_id,
    ) by {
        assert(es[k].0 == preorder(s)[k].contract_id);
        let i = choose|i: int| 0 <= i < kept.len() && #[trigger] kept[i].0 == es[k].0;
        assert(unique_contracts_spec(s)[i] == kept[i].1);
    }
}

/// The unique function names of a call tree: no name occurs twice, and
/// every function called in the tree occurs.
pub proof fn lemma_unique_functions(s: Seq<CallNodeView>)
    ensures
        forall|i: int, j: int|
            0 <= i < j < unique_functions_spec(s).len() ==> #[trigger] unique_functions_spec(s)[i]
                != #[trigger] unique_functions_spec(s)[j],
        forall|k: int|
            0 <= k < preorder(s).len() ==> unique_functions_spec(s).contains((#[trigger] preorder(s)[k]).function_name),
{
    let es = entries(preorder(s), true);
    let kept = keep_first(Seq::empty(), es);
    lemma_keep_first_props(Seq::empty(), es);
    lemma_keep_first_entries_keyed(Seq::empty(), es);
    assert forall|k: int| 0 <= k < preorder(s).len() implies unique_functions_spec(s).contains(
        (#[trigger] preorder(s)[k]).function_name,
    ) by {
        assert(es[k].0 == preorder(s)[k].function_name);
        let i = choose|i: int| 0 <= i < kept.len() && #[trigger] kept[i].0 == es[k].0;
        assert(unique_functions_spec(s)[i] == kept[i].1);
    }
}

/// Kept entries carry their key as their value.
proof fn lemma_keep_first_entries_keyed(acc: Seq<(Seq<char>, Seq<char>)>, s: Seq<(Seq<char>, Seq<char>)>)
    requires
        forall|i: int| 0 <= i < acc.len() ==> (#[trigger] acc[i]).0 == acc[i].1,
        forall|i: int| 0 <= i < s.len() ==> (#[trigger] s[i]).0 == s[i].1,
    ensures
        forall|i: int| 0 <= i < keep_first(acc, s).len() ==> (#[trigger] keep_first(acc, s)[i]).0 == keep_first(
            acc,
            s,
        )[i].1,
    decreases s.len(),
{
    if s.len() > 0 {
        let next = if exists|i: int| 0 <= i < acc.len() && (#[trigger] acc[i]).0 == s[0].0 {
            acc
        } else {
            acc.push(s[0])
        };
        assert forall|i: int| 0 <= i < s.drop_first().len() implies (#[trigger] s.drop_first()[i]).0
            == s.drop_first()[i].1 by {
            assert(s.drop_first()[i] == s[i + 1]);
        }
        assert forall|i: int| 0 <= i < next.len() implies (#[trigger] next[i]).0 == next[i].1 by {
            if i < acc.len() {
                assert(next[i] == acc[i]);
            }
        }
        lemma_keep_first_entries_keyed(next, s.drop_first());
        assert(keep_first(acc, s) == keep_first(next, s.drop_first()));
    } else {
        assert(keep_first(acc, s) == acc);
    }
}

/// What pruning keeps: a call the invoking account authorized is kept, with
/// its contract, function, arguments and authorization; so is a call whose
/// contract is the asset of some flow. A call the account did not authorize
/// is dropped when no flow has the account as counterparty or the call's
/// contract as asset.
pub proof fn lemma_prune_node(n: CallNodeView, account: Seq<char>, flows: Seq<AssetFlowView>)
    ensures
        (n.authorized_by == Some(account) || exists|i: int| 0 <= i < flows.len() && (#[trigger] flows[i]).asset_id
            == n.contract_id) ==> (prune_node_spec(n, account, flows) matches Some(x) && x.contract_id == n.contract_id
            && x.function_name == n.function_name && x.args == n.args && x.authorized_by == n.authorized_by
            && x.requires_auth == n.requires_auth),
        (n.authorized_by != Some(account) && forall|i: int|
            0 <= i < flows.len() ==> (#[trigger] flows[i]).counterparty != Some(account) && flows[i].asset_id
                != n.contract_id) ==> prune_node_spec(n, account, flows) is None,
{
}

} // verus!
