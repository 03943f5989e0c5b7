//! Decoded Soroban transaction metadata, and the auth tree read from it.
//!
//! The raw XDR is decoded elsewhere; the library receives its decoded form.
use vstd::prelude::*;

use crate::json::{JsonValue, JsonView, list_view};
use crate::manifest::{AuthBoundary, AuthBoundaryView, CallNode, CallNodeView, nodes_view, boundaries_view};
use crate::text::{clone_opt, push_str, to_owned_string};

verus! {

/// Errors of XDR decoding.
#[derive(Debug)]
pub enum XdrDecodeError {
    Base64(String),
    XdrParse(String),
    NotV3,
    NoSorobanMeta,
    TransactionFailed,
}

/// The message of an XDR decoding error.
pub open spec fn xdr_error_message(e: &XdrDecodeError) -> Seq<char> {
    match e {
        XdrDecodeError::Base64(s) => "Base64 decode failed: "@ + s@,
        XdrDecodeError::XdrParse(s) => "XDR parse failed: "@ + s@,
        XdrDecodeError::NotV3 => "Not a V3 TransactionMeta"@,
        XdrDecodeError::NoSorobanMeta => "No Soroban meta in transaction"@,
        XdrDecodeError::TransactionFailed => "Transaction failed on-chain"@,
    }
}

impl XdrDecodeError {
    /// The error's message.
    pub fn message(&self) -> (r: String)
        ensures
            r@ == xdr_error_message(self),
    {
        match self {
            XdrDecodeError::Base64(s) => {
                let mut r = to_owned_string("Base64 decode failed: ");
                push_str(&mut r, s.as_str());
                r
            },
            XdrDecodeError::XdrParse(s) => {
                let mut r = to_owned_string("XDR parse failed: ");
                push_str(&mut r, s.as_str());
                r
            },
            XdrDecodeError::NotV3 => to_owned_string("Not a V3 TransactionMeta"),
            XdrDecodeError::NoSorobanMeta => to_owned_string("No Soroban meta in transaction"),
            XdrDecodeError::TransactionFailed => to_owned_string("Transaction failed on-chain"),
        }
    }
}

/// A single diagnostic event of a transaction.
#[derive(Debug)]
pub struct DiagnosticEvent {
    /// Whether this event was in a successful sub-call
    pub in_successful_call: bool,
    /// Contract that emitted the event
    pub contract_id: Option<String>,
    /// Event type: "contract", "diagnostic" or "system"
    pub event_type: String,
    /// Topics, as JSON forms of ScVal
    pub topics: Vec<JsonValue>,
    /// Event data, as the JSON form of an ScVal
    pub data: JsonValue,
}

/// Decoded transaction metadata.
#[derive(Debug)]
pub struct DecodedTransactionMeta {
    /// Whether the transaction succeeded
    pub success: bool,
    /// Diagnostic events of the Soroban meta
    pub diagnostic_events: Vec<DiagnosticEvent>,
    /// Ledger sequence
    pub ledger_sequence: u32,
    /// Unix timestamp of the ledger
    pub close_time: u64,
    /// CPU instructions (from resource usage)
    pub cpu_instructions: Option<u64>,
    /// Memory bytes (from resource usage)
    pub memory_bytes: Option<u64>,
}

/// An entry of the transaction's auth vector.
#[derive(Debug)]
pub struct RawAuthEntry {
    /// The account that signed this entry
    pub account: String,
    /// Root invocation: contract, function and arguments
    pub root_invocation: Option<RawInvocation>,
}

/// A contract invocation of an auth entry.
#[derive(Debug)]
pub struct RawInvocation {
    pub contract_id: String,
    pub function_name: String,
    pub args: Vec<JsonValue>,
    pub sub_invocations: Vec<RawInvocation>,
}

/// The content of a [`DiagnosticEvent`].
pub struct DiagnosticEventView {
    pub in_successful_call: bool,
    pub contract_id: Option<Seq<char>>,
    pub event_type: Seq<char>,
    pub topics: Seq<JsonView>,
    pub data: JsonView,
}

impl View for DiagnosticEvent {
    type V = DiagnosticEventView;

    open spec fn view(&self) -> DiagnosticEventView {
        DiagnosticEventView {
            in_successful_call: self.in_successful_call,
            contract_id: self.contract_id.deep_view(),
            event_type: self.event_type@,
            topics: list_view(self.topics@),
            data: self.data@,
        }
    }
}

/// The contents of a list of events.
pub open spec fn events_view(s: Seq<DiagnosticEvent>) -> Seq<DiagnosticEventView> {
    s.map_values(|e: DiagnosticEvent| e@)
}

/// The content of a [`RawInvocation`].
pub struct RawInvocationView {
    pub contract_id: Seq<char>,
    pub function_name: Seq<char>,
    pub args: Seq<JsonView>,
    pub sub_invocations: Seq<RawInvocationView>,
}

/// The content of an invocation.
pub open spec fn invocation_view(r: &RawInvocation) -> RawInvocationView
    decreases r, 0nat,
{
    RawInvocationView {
        contract_id: r.contract_id@,
        function_name: r.function_name@,
        args: list_view(r.args@),
        sub_invocations: invocations_view(r.sub_invocations@),
    }
}

/// The contents of a list of invocations.
pub open spec fn invocations_view(s: Seq<RawInvocation>) -> Seq<RawInvocationView>
    decreases s, 0nat,
{
    if s.len() == 0 {
        Seq::empty()
    } else {
        invocations_view(s.drop_last()).push(invocation_view(&s.last()))
    }
}

impl View for RawInvocation {
    type V = RawInvocationView;

    open spec fn view(&self) -> RawInvocationView {
        invocation_view(self)
    }
}

/// Facts about [`invocations_view`].
pub proof fn lemma_invocations_view(s: Seq<RawInvocation>)
    ensures
        invocations_view(s).len() == s.len(),
        forall|i: int| 0 <= i < s.len() ==> #[trigger] invocations_view(s)[i] == invocation_view(&s[i]),
    decreases s.len(),
{
    if s.len() > 0 {
        lemma_invocations_view(s.drop_last());
    }
}

/// The call node of an invocation: the same contract, function and
/// arguments, no label; the root carries the authorizing account, its
/// sub-calls none.
pub open spec fn call_node_of(r: RawInvocationView, authorized_by: Option<Seq<char>>) -> CallNodeView
    decreases r, 0nat,
{
    CallNodeView {
        contract_id: r.contract_id,
        contract_label: None,
        function_name: r.function_name,
        args: r.args,
        sub_calls: call_nodes_of(r.sub_invocations),
        requires_auth: authorized_by is Some,
        authorized_by,
    }
}

/// [`call_node_of`], without an authorizing account, on each invocation of a list.
pub open spec fn call_nodes_of(s: Seq<RawInvocationView>) -> Seq<CallNodeView>
    decreases s, 0nat,
{
    if s.len() == 0 {
        Seq::empty()
    } else {
        call_nodes_of(s.drop_last()).push(call_node_of(s.last(), None))
    }
}

impl RawInvocation {
    /// Converts an invocation tree into a call tree.
    pub fn into_call_node(self, authorized_by: Option<String>) -> (r: CallNode)
        ensures
            r@ == call_node_of(self@, authorized_by.deep_view()),
        decreases self,
    {
        let ghost whole = self;
        let ghost orig = self.sub_invocations@;
        let RawInvocation { contract_id, function_name, args, sub_invocations } = self;
        let mut subs = sub_invocations;
        let n = subs.len();
        let mut out: Vec<CallNode> = Vec::new();
        let mut k: usize = 0;
        proof {
            lemma_invocations_view(orig);
        }
        while subs.len() > 0
            invariant
                orig == whole.sub_invocations@,
                whole == self,
                orig.len() == n,
                k <= orig.len(),
                subs@ == orig.subrange(k as int, orig.len() as int),
                nodes_view(out@) == call_nodes_of(invocations_view(orig.subrange(0, k as int))),
            decreases subs.len(),
        {
            assert(k < orig.len());
            let first = subs.remove(0);
            assert(first == orig[k as int]);
            proof {
                vstd::std_specs::vec::axiom_vec_index_decreases(whole.sub_invocations, k as int);
                assert(decreases_to!(whole => whole.sub_invocations));
                assert(decreases_to!(whole => first));
            }
            let node = first.into_call_node(None);
            let ghost before = out@;
            out.push(node);
            proof {
                assert(out@.drop_last() =~= before);
                let pre = orig.subrange(0, k + 1);
                assert(pre.drop_last() =~= orig.subrange(0, k as int));
                lemma_invocations_view(pre);
                lemma_invocations_view(orig.subrange(0, k as int));
                assert(invocations_view(pre).drop_last() =~= invocations_view(orig.subrange(0, k as int)));
                assert(invocations_view(pre).last() == invocation_view(&orig[k as int]));
                assert(subs@ =~= orig.subrange(k + 1, orig.len() as int));
            }
            k = k + 1;
        }
        assert(orig.subrange(0, k as int) =~= orig);
        let requires_auth = authorized_by.is_some();
        CallNode {
            contract_id,
            contract_label: None,
            function_name,
            args,
            sub_calls: out,
            requires_auth,
            authorized_by,
        }
    }
}

/// The auth boundaries of an invocation tree, in pre-order: the invocation
/// itself, then those of its sub-invocations.
pub open spec fn tree_boundaries(r: RawInvocationView, account: Seq<char>) -> Seq<AuthBoundaryView>
    decreases r, 0nat,
{
    seq![AuthBoundaryView { contract_id: r.contract_id, function_name: r.function_name, account }]
        + forest_boundaries(r.sub_invocations, account)
}

/// The auth boundaries of a list of invocation trees, in order.
pub open spec fn forest_boundaries(s: Seq<RawInvocationView>, account: Seq<char>) -> Seq<AuthBoundaryView>
    decreases s, 0nat,
{
    if s.len() == 0 {
        Seq::empty()
    } else {
        forest_boundaries(s.drop_last(), account) + tree_boundaries(s.last(), account)
    }
}

/// The auth boundaries of the auth entries, in order: of each entry with a
/// root invocation, the boundaries of its tree under the entry's account.
pub open spec fn entries_boundaries(s: Seq<RawAuthEntry>) -> Seq<AuthBoundaryView>
    decreases s.len(),
{
    if s.len() == 0 {
        Seq::empty()
    } else {
        entries_boundaries(s.drop_last()) + match s.last().root_invocation {
            Some(inv) => tree_boundaries(inv@, s.last().account@),
            None => Seq::empty(),
        }
    }
}

/// Appends the auth boundaries of a list of invocation trees.
pub fn collect_auth_boundaries_recursive(invocations: &Vec<RawInvocation>, account: &str, out: &mut Vec<AuthBoundary>)
    ensures
        boundaries_view(final(out)@) == boundaries_view(old(out)@) + forest_boundaries(
            invocations_view(invocations@),
            account@,
        ),
    decreases invocations@,
{
    let ghost start = boundaries_view(out@);
    let mut i: usize = 0;
    proof {
        lemma_invocations_view(invocations@);
        assert(invocations@.subrange(0, 0) =~= Seq::<RawInvocation>::empty());
        assert(boundaries_view(out@) =~= start + forest_boundaries(invocations_view(invocations@.subrange(0, 0)), account@));
    }
    while i < invocations.len()
        invariant
            i <= invocations@.len(),
            boundaries_view(out@) == start + forest_boundaries(invocations_view(invocations@.subrange(0, i as int)), account@),
        decreases invocations.len() - i,
    {
        let inv = &invocations[i];
        proof {
            vstd::std_specs::vec::axiom_vec_index_decreases(*invocations, i as int);
        }
        let ghost before = boundaries_view(out@);
        out.push(AuthBoundary {
            contract_id: inv.contract_id.clone(),
            function_name: inv.function_name.clone(),
            account: to_owned_string(account),
        });
        let ghost pushed = boundaries_view(out@);
        collect_auth_boundaries_recursive(&inv.sub_invocations, account, out);
        proof {
            let pre = invocations@.subrange(0, i + 1);
            assert(pre.drop_last() =~= invocations@.subrange(0, i as int));
            lemma_invocations_view(pre);
            lemma_invocations_view(invocations@.subrange(0, i as int));
            assert(invocations_view(pre).drop_last() =~= invocations_view(invocations@.subrange(0, i as int)));
            assert(invocations_view(pre).last() == inv@);
            assert(forest_boundaries(invocations_view(pre), account@) == forest_boundaries(
                invocations_view(invocations@.subrange(0, i as int)),
                account@,
            ) + tree_boundaries(inv@, account@));
            assert(inv@.sub_invocations == invocations_view(inv.sub_invocations@));
            assert(pushed =~= before.push(AuthBoundaryView {
                contract_id: inv@.contract_id,
                function_name: inv@.function_name,
                account: account@,
            }));
            assert(boundaries_view(out@) =~= start + forest_boundaries(invocations_view(pre), account@));
        }
        i = i + 1;
    }
    assert(invocations@.subrange(0, invocations@.len() as int) =~= invocations@);
}

/// The auth boundaries of the auth entries (see [`entries_boundaries`]).
pub fn extract_auth_boundaries(auth_entries: &[RawAuthEntry]) -> (r: Vec<AuthBoundary>)
    ensures
        boundaries_view(r@) == entries_boundaries(auth_entries@),
{
    let mut boundaries: Vec<AuthBoundary> = Vec::new();
    let mut i: usize = 0;
    while i < auth_entries.len()
        invariant
            i <= auth_entries@.len(),
            boundaries_view(boundaries@) == entries_boundaries(auth_entries@.subrange(0, i as int)),
        decreases auth_entries.len() - i,
    {
        let entry = &auth_entries[i];
        let ghost before = boundaries_view(boundaries@);
        match &entry.root_invocation {
            Some(inv) => {
                boundaries.push(AuthBoundary {
                    contract_id: inv.contract_id.clone(),
                    function_name: inv.function_name.clone(),
                    account: entry.account.clone(),
                });
                let ghost pushed = boundaries_view(boundaries@);
                collect_auth_boundaries_recursive(&inv.sub_invocations, entry.account.as_str(), &mut boundaries);
                proof {
                    assert(pushed =~= before.push(AuthBoundaryView {
                        contract_id: inv@.contract_id,
                        function_name: inv@.function_name,
                        account: entry.account@,
                    }));
                    assert(boundaries_view(boundaries@) =~= before + tree_boundaries(inv@, entry.account@));
                }
            },
            None => {},
        }
        proof {
            assert(auth_entries@.subrange(0, i + 1).drop_last() =~= auth_entries@.subrange(0, i as int));
            assert(boundaries_view(boundaries@) =~= entries_boundaries(auth_entries@.subrange(0, i + 1)));
        }
        i = i + 1;
    }
    assert(auth_entries@.subrange(0, auth_entries@.len() as int) =~= auth_entries@);
    boundaries
}

/// The call nodes of a list of invocations: one per invocation, in order.
proof fn lemma_call_nodes_of(s: Seq<RawInvocationView>)
    ensures
        call_nodes_of(s).len() == s.len(),
        forall|i: int| 0 <= i < s.len() ==> #[trigger] call_nodes_of(s)[i] == call_node_of(s[i], None),
    decreases s.len(),
{
    if s.len() > 0 {
        lemma_call_nodes_of(s.drop_last());
        assert forall|i: int| 0 <= i < s.len() implies #[trigger] call_nodes_of(s)[i] == call_node_of(s[i], None) by {
            if i < s.len() - 1 {
                assert(s.drop_last()[i] == s[i]);
            }
        }
    }
}

/// Authorization goes to the call the auth entry was given for: the root
/// node is authorized by the given account (and requires auth exactly when
/// there is one), while its direct sub-calls, one per sub-invocation, are
/// authorized by no one. Contract, function and arguments are kept.
pub proof fn lemma_call_node_authorization(r: RawInvocationView, authorized_by: Option<Seq<char>>)
    ensures
        call_node_of(r, authorized_by).authorized_by == authorized_by,
        call_node_of(r, authorized_by).requires_auth == authorized_by is Some,
        call_node_of(r, authorized_by).contract_id == r.contract_id,
        call_node_of(r, authorized_by).function_name == r.function_name,
        call_node_of(r, authorized_by).args == r.args,
        call_node_of(r, authorized_by).sub_calls.len() == r.sub_invocations.len(),
        forall|i: int|
            0 <= i < r.sub_invocations.len() ==> (#[trigger] call_node_of(r, authorized_by).sub_calls[i]).authorized_by
                is None && !call_node_of(r, authorized_by).sub_calls[i].requires_auth
                && call_node_of(r, authorized_by).sub_calls[i].contract_id == r.sub_invocations[i].contract_id,
{
    lemma_call_nodes_of(r.sub_invocations);
}

/// Every boundary of an invocation tree carries the account of its auth
/// entry, and the tree's first boundary is its root call.
pub proof fn lemma_tree_boundaries(r: RawInvocationView, account: Seq<char>)
    ensures
        tree_boundaries(r, account)[0].contract_id == r.contract_id,
        tree_boundaries(r, account)[0].function_name == r.function_name,
        forall|i: int|
            0 <= i < tree_boundaries(r, account).len() ==> (#[trigger] tree_boundaries(r, account)[i]).account == account,
    decreases r, 0nat,
{
    lemma_forest_boundaries(r.sub_invocations, account);
    let t = tree_boundaries(r, account);
    let f = forest_boundaries(r.sub_invocations, account);
    assert forall|i: int| 0 <= i < t.len() implies (#[trigger] t[i]).account == account by {
        if i > 0 {
            assert(t[i] == f[i - 1]);
        }
    }
}

/// Every boundary of a list of invocation trees carries the given account.
pub proof fn lemma_forest_boundaries(s: Seq<RawInvocationView>, account: Seq<char>)
    ensures
        forall|i: int|
            0 <= i < forest_boundaries(s, account).len() ==> (#[trigger] forest_boundaries(s, account)[i]).account
                == account,
    decreases s, 0nat,
{
    if s.len() > 0 {
        lemma_forest_boundaries(s.drop_last(), account);
        assert(decreases_to!(s => s[s.len() - 1]));
        lemma_tree_boundaries(s.last(), account);
        let a = forest_boundaries(s.drop_last(), account);
        let b = tree_boundaries(s.last(), account);
        let all = forest_boundaries(s, account);
        assert forall|i: int| 0 <= i < all.len() implies (#[trigger] all[i]).account == account by {
            if i < a.len() {
                assert(all[i] == a[i]);
            } else {
                assert(all[i] == b[i - a.len()]);
            }
        }
    }
}

} // verus!
