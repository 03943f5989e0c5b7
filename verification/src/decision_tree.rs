//! The synthesizer's decision tree: from a recorded call manifest to a
//! policy specification.
//!
//! The steps, in order:
//!   1. more than 3 unique contracts: ask, and generate custom code;
//!   2. an outbound asset flow: a spending limit;
//!   3. always a time window, asking for the schedule when the transaction
//!      had auth boundaries;
//!   4. one contract and one function: a simple threshold, otherwise a
//!      weighted one;
//!   5. a swap with no slippage given: a custom slippage layer;
//!   6. the context rule, the composition mode, the rationale and the name.
//! At most four layers come out, within the limit of five.
use vstd::prelude::*;

use crate::json::{FloatValue, FloatView, JsonNumber, JsonValue, JsonView, NumberView, lemma_members_view, members_view};
use crate::manifest::{
    AssetFlow, AssetFlowView, CallManifest, CallManifestView, ContractRefView, FlowDirection,
    contracts_view, flows_view,
};
use crate::policy_spec::{
    Clarification, ClarificationView, CompositionMode, ConstraintsView, Constraints, ContextRule,
    ContextRuleView, Params, PolicyLayer, PolicyLayerKind, PolicyLayerView, PolicySpec,
    PolicySpecView, ONE_YEAR_SECS, clarifications_view, distinct_names, kind_name_spec,
    layers_view, no_constraints,
};
use crate::text::{
    contains_str, decimal, decimal_string, fixed_point, has_substring, join, join_spec, push_decimal,
    push_fixed_point, push_str, replace_char, replace_char_spec, to_lowercase, to_owned_string,
    unicode_lowercase, views,
};

verus! {

/// Seconds in a day.
pub const ONE_DAY_SECS: u64 = 86_400;

/// Seconds in a week.
pub const ONE_WEEK_SECS: u64 = 604_800;

/// Seconds in a month of 30 days.
pub const ONE_MONTH_SECS: u64 = 2_592_000;

// ── What the decision tree computes ─────────────────────────────────────────

/// Some function name, lowercased, contains `a` or `b`.
pub open spec fn lowercase_mentions(fns: Seq<Seq<char>>, a: Seq<char>, b: Seq<char>) -> bool {
    exists|i: int|
        0 <= i < fns.len() && (has_substring(#[trigger] unicode_lowercase(fns[i]), a) || has_substring(
            unicode_lowercase(fns[i]),
            b,
        ))
}

/// The window inferred from the function names: a month for subscriptions,
/// a week for yield claims, a day otherwise.
pub open spec fn infer_window_spec(fns: Seq<Seq<char>>) -> u64 {
    if lowercase_mentions(fns, "subscription"@, "subscribe"@) {
        ONE_MONTH_SECS
    } else if lowercase_mentions(fns, "claim"@, "yield"@) {
        ONE_WEEK_SECS
    } else {
        ONE_DAY_SECS
    }
}

/// The unit a window is described by.
pub open spec fn window_label_spec(secs: u64) -> Seq<char> {
    if secs <= ONE_DAY_SECS {
        "day"@
    } else if secs <= ONE_WEEK_SECS {
        "week"@
    } else if secs <= ONE_MONTH_SECS {
        "month"@
    } else {
        "year"@
    }
}

/// Some function name contains "swap" or "exchange".
pub open spec fn is_swap_spec(fns: Seq<Seq<char>>) -> bool {
    exists|i: int|
        0 <= i < fns.len() && (has_substring(#[trigger] fns[i], "swap"@) || has_substring(
            fns[i],
            "exchange"@,
        ))
}

/// The first outbound flow.
pub open spec fn first_outbound(flows: Seq<AssetFlowView>) -> Option<AssetFlowView>
    decreases flows.len(),
{
    if flows.len() == 0 {
        None
    } else if flows[0].direction == FlowDirection::Outbound {
        Some(flows[0])
    } else {
        first_outbound(flows.drop_first())
    }
}

/// The amount with 20% headroom: `raw * 1.2`, rounded down and saturating.
pub open spec fn headroom(raw: u128) -> u128 {
    if raw + raw / 5 > u128::MAX {
        u128::MAX
    } else {
        (raw + raw / 5) as u128
    }
}

/// Bytes a character takes in UTF-8.
pub open spec fn utf8_width(c: char) -> int {
    if (c as u32) < 0x80 {
        1
    } else if (c as u32) < 0x800 {
        2
    } else if (c as u32) < 0x10000 {
        3
    } else {
        4
    }
}

/// Cutting `s` after its first `n` bytes, or keeping it whole when it is
/// shorter: the number of characters kept, or `None` when the cut falls
/// inside a character.
pub open spec fn byte_prefix(s: Seq<char>, n: int) -> Option<nat>
    decreases s.len(),
{
    if s.len() == 0 || n <= 0 {
        Some(0)
    } else if utf8_width(s[0]) > n {
        None
    } else {
        match byte_prefix(s.drop_first(), n - utf8_width(s[0])) {
            Some(k) => Some(k + 1),
            None => None,
        }
    }
}

/// The symbol a flow is described by: its symbol, or its asset ID cut
/// after eight bytes.
pub open spec fn symbol_of(f: AssetFlowView) -> Seq<char> {
    match f.asset_symbol {
        Some(s) => s,
        None => f.asset_id.take(byte_prefix(f.asset_id, 8)->Some_0 as int),
    }
}

/// The window the policy uses.
pub open spec fn window_of(m: CallManifestView, c: ConstraintsView) -> u64 {
    match c.time_window_seconds {
        Some(w) => w,
        None => infer_window_spec(m.unique_functions),
    }
}

/// A string parameter.
pub open spec fn text_param(name: Seq<char>, v: Seq<char>) -> (Seq<char>, JsonView) {
    (name, JsonView::String(v))
}

/// A non-negative integer parameter.
pub open spec fn int_param(name: Seq<char>, v: u64) -> (Seq<char>, JsonView) {
    (name, JsonView::Number(NumberView::PosInt(v)))
}

/// The float 5.0 as the library reads it.
pub open spec fn five_percent() -> JsonView {
    JsonView::Number(NumberView::Float(FloatView { truncated: 5, negative: false, text: "5"@ }))
}

/// The spending-limit layer for the first outbound flow.
pub open spec fn spending_layer_spec(f: AssetFlowView, cap: u128, window: u64) -> PolicyLayerView {
    let sym = symbol_of(f);
    PolicyLayerView {
        kind: PolicyLayerKind::SpendingLimit,
        params: seq![
            text_param("cap_amount_raw"@, decimal(cap as nat)),
            text_param("asset_id"@, f.asset_id),
            text_param("asset_symbol"@, sym),
            int_param("window_seconds"@, window),
            int_param("decimals"@, f.decimals as u64),
        ],
        oz_primitive: true,
        description: "Limit outbound "@ + sym + " to "@ + f.amount_display + " per "@
            + window_label_spec(window),
    }
}

/// The time-window layer.
pub open spec fn time_window_layer_spec(window: u64) -> PolicyLayerView {
    PolicyLayerView {
        kind: PolicyLayerKind::TimeWindow,
        params: seq![
            int_param("window_seconds"@, window),
            text_param("window_label"@, window_label_spec(window)),
        ],
        oz_primitive: true,
        description: "Restrict invocation to once per "@ + window_label_spec(window),
    }
}

/// The threshold layer: simple for one contract and one function, weighted otherwise.
pub open spec fn threshold_layer_spec(simple: bool) -> PolicyLayerView {
    if simple {
        PolicyLayerView {
            kind: PolicyLayerKind::SimpleThreshold,
            params: seq![int_param("threshold"@, 1)],
            oz_primitive: true,
            description: "Single authorized signer is sufficient"@,
        }
    } else {
        PolicyLayerView {
            kind: PolicyLayerKind::WeightedThreshold,
            params: seq![int_param("threshold"@, 1), int_param("total_signers"@, 1)],
            oz_primitive: true,
            description: "Weighted threshold for multi-contract interaction"@,
        }
    }
}

/// The custom slippage layer (added only when no slippage was given, so its
/// bound is the default 5%).
pub open spec fn custom_layer_spec() -> PolicyLayerView {
    PolicyLayerView {
        kind: PolicyLayerKind::Custom,
        params: seq![
            ("max_slippage_percent"@, five_percent()),
            text_param(
                "reason"@,
                "slippage_check cannot be composed from existing OZ primitives — net-new codegen required"@,
            ),
        ],
        oz_primitive: false,
        description: "Slippage guard: reject swap if slippage exceeds 5%"@,
    }
}

/// One contract (at most) and one function (at most).
pub open spec fn single_counterparty(m: CallManifestView) -> bool {
    m.unique_contracts.len() <= 1 && m.unique_functions.len() <= 1
}

/// A custom slippage layer is added.
pub open spec fn needs_slippage_layer(m: CallManifestView, c: ConstraintsView) -> bool {
    is_swap_spec(m.unique_functions) && !c.slippage_set
}

/// The policy needs generated code.
pub open spec fn needs_custom(m: CallManifestView, c: ConstraintsView) -> bool {
    m.unique_contracts.len() > 3 || needs_slippage_layer(m, c)
}

/// The layers, in order.
pub open spec fn layers_spec(m: CallManifestView, c: ConstraintsView) -> Seq<PolicyLayerView> {
    let w = window_of(m, c);
    let spending = match first_outbound(m.asset_flows) {
        Some(f) => seq![spending_layer_spec(
            f,
            match c.amount_cap {
                Some(cap) => cap,
                None => f.amount_raw,
            },
            w,
        )],
        None => Seq::empty(),
    };
    let custom = if needs_slippage_layer(m, c) {
        seq![custom_layer_spec()]
    } else {
        Seq::empty()
    };
    spending + seq![time_window_layer_spec(w), threshold_layer_spec(single_counterparty(m))] + custom
}

/// Two suggested answers.
pub open spec fn two_options(a: Seq<char>, b: Seq<char>) -> Option<Seq<Seq<char>>> {
    Some(seq![a, b])
}

/// The question about a transaction with many contracts.
pub open spec fn complexity_clarification(n: nat) -> ClarificationView {
    ClarificationView {
        field: "contract_complexity"@,
        question: "This transaction involves "@ + decimal(n)
            + " contracts, which is complex. Should I generate a custom policy, or attempt to compose primitives?"@,
        options: two_options("Compose primitives (simpler)"@, "Generate custom policy (more precise)"@),
    }
}

/// The question about the amount cap.
pub open spec fn amount_clarification(f: AssetFlowView, window: u64) -> ClarificationView {
    let sym = symbol_of(f);
    let shown = f.amount_display;
    let more = fixed_point(headroom(f.amount_raw) as nat, f.decimals as nat);
    let label = window_label_spec(window);
    ClarificationView {
        field: "amount_cap"@,
        question: "This transaction sent "@ + shown + " "@ + sym
            + ". Should I cap the policy at exactly "@ + shown + " "@ + sym
            + ", or allow some headroom — say "@ + more + " "@ + sym + " per "@ + label + "?"@,
        options: two_options(
            "Exact: "@ + shown + " "@ + sym,
            "With 20% headroom: "@ + more + " "@ + sym + " per "@ + label,
        ),
    }
}

/// The question about the schedule.
pub open spec fn schedule_clarification() -> ClarificationView {
    ClarificationView {
        field: "time_window_seconds"@,
        question: "The transaction ran once. Should this policy allow it daily, weekly, or on a different schedule?"@,
        options: Some(
            seq![
                "Daily (86400 seconds)"@,
                "Weekly (604800 seconds)"@,
                "Monthly (2592000 seconds)"@,
            ],
        ),
    }
}

/// The protocol a contract is described by.
pub open spec fn protocol_label(c: ContractRefView) -> Seq<char> {
    match c.protocol {
        Some(p) => p,
        None => "this protocol"@,
    }
}

/// The question about locking the policy to the one contract called.
pub open spec fn lock_clarification(c: ContractRefView) -> ClarificationView {
    let p = protocol_label(c);
    ClarificationView {
        field: "contract_lock"@,
        question: "I see "@ + p + " was called. Should I lock the policy to this exact contract address ("@
            + c.id + "), or allow any "@ + p + " contract?"@,
        options: two_options("Lock to exact address: "@ + c.id, "Allow any "@ + p + " contract"@),
    }
}

/// The questions, in order.
pub open spec fn clarifications_spec(m: CallManifestView, c: ConstraintsView) -> Seq<ClarificationView> {
    let w = window_of(m, c);
    let complexity = if m.unique_contracts.len() > 3 {
        seq![complexity_clarification(m.unique_contracts.len())]
    } else {
        Seq::empty()
    };
    let amount = match first_outbound(m.asset_flows) {
        Some(f) => if c.amount_cap is None {
            seq![amount_clarification(f, w)]
        } else {
            Seq::empty()
        },
        None => Seq::empty(),
    };
    let schedule = if c.time_window_seconds is None && m.auth_boundaries.len() > 0 {
        seq![schedule_clarification()]
    } else {
        Seq::empty()
    };
    let lock = if single_counterparty(m) && m.unique_contracts.len() > 0 && c.amount_cap is None {
        seq![lock_clarification(m.unique_contracts[0])]
    } else {
        Seq::empty()
    };
    complexity + amount + schedule + lock
}

/// The rationale: the layer kinds, then why each kind of layer was added.
pub open spec fn rationale_spec(kinds: Seq<PolicyLayerKind>, m: CallManifestView, is_custom: bool) -> Seq<char> {
    let head = seq!["Policy composition: "@ + join_spec(kinds.map_values(|k: PolicyLayerKind| kind_name_spec(k)), " + "@)];
    let spending = if first_outbound(m.asset_flows) is Some {
        seq!["spending_limit added because transaction has outbound asset flow"@]
    } else {
        Seq::empty()
    };
    let window = if m.auth_boundaries.len() > 0 {
        seq!["time_window added to restrict invocation frequency"@]
    } else {
        Seq::empty()
    };
    let custom = if is_custom {
        seq!["custom layer required — constraint cannot be expressed by existing OZ primitives"@]
    } else {
        Seq::empty()
    };
    join_spec(head + spending + window + custom, ". "@)
}

/// The policy name: the first function in kebab case, else the first
/// contract's label lowercased with dashes for spaces, else "custom-policy".
pub open spec fn policy_name_spec(m: CallManifestView) -> Seq<char> {
    if m.unique_functions.len() > 0 {
        replace_char_spec(m.unique_functions[0], '_', "-"@)
    } else if m.unique_contracts.len() > 0 && m.unique_contracts[0].label is Some {
        replace_char_spec(unicode_lowercase(m.unique_contracts[0].label->0), ' ', "-"@)
    } else {
        "custom-policy"@
    }
}

/// The policy specification the decision tree produces.
pub open spec fn synthesize_spec(m: CallManifestView, c: ConstraintsView) -> PolicySpecView {
    let layers = layers_spec(m, c);
    let generate = needs_custom(m, c);
    PolicySpecView {
        context_rule: ContextRuleView {
            contracts: m.unique_contracts.map_values(|r: ContractRefView| r.id),
            functions: m.unique_functions,
            lifetime_seconds: match c.lifetime_seconds {
                Some(l) => l,
                None => ONE_YEAR_SECS,
            },
        },
        policies: layers,
        composition_mode: if generate {
            CompositionMode::Generate
        } else {
            CompositionMode::Compose
        },
        rationale: rationale_spec(layers.map_values(|l: PolicyLayerView| l.kind), m, generate),
        clarifications_needed: clarifications_spec(m, c),
        policy_name: policy_name_spec(m),
    }
}

/// What the decision tree needs of the first outbound flow: when its
/// symbol is missing, its asset ID can be cut after eight bytes (the cut
/// does not fall inside a character); when the cap is to be asked for, its
/// decimals fit a `u128` power of ten.
pub open spec fn synthesizable(m: CallManifestView, c: ConstraintsView) -> bool {
    match first_outbound(m.asset_flows) {
        Some(f) => {
            &&& (f.asset_symbol is None ==> byte_prefix(f.asset_id, 8) is Some)
            &&& (c.amount_cap is None ==> f.decimals <= 38)
        },
        None => true,
    }
}

} // verus!

verus! {

// ── Building blocks ──────────────────────────────────────────────────────────

/// A named string parameter.
fn text_entry(name: &str, v: &str) -> (r: (String, JsonValue))
    ensures
        (r.0@, r.1@) == text_param(name@, v@),
{
    (to_owned_string(name), JsonValue::from_text(v))
}

/// A named integer parameter.
fn int_entry(name: &str, v: u64) -> (r: (String, JsonValue))
    ensures
        (r.0@, r.1@) == int_param(name@, v),
{
    (to_owned_string(name), JsonValue::from_u64(v))
}

/// The window inferred from the manifest's function names.
fn infer_window(manifest: &CallManifest) -> (w: u64)
    ensures
        w == infer_window_spec(manifest@.unique_functions),
{
    let fns = &manifest.unique_functions;
    let ghost names = manifest@.unique_functions;
    let mut subscription = false;
    let mut claim = false;
    let mut i: usize = 0;
    while i < fns.len()
        invariant
            names == fns.deep_view(),
            names.len() == fns@.len(),
            i <= fns@.len(),
            subscription == exists|j: int|
                0 <= j < i && (has_substring(#[trigger] unicode_lowercase(names[j]), "subscription"@)
                    || has_substring(unicode_lowercase(names[j]), "subscribe"@)),
            claim == exists|j: int|
                0 <= j < i && (has_substring(#[trigger] unicode_lowercase(names[j]), "claim"@)
                    || has_substring(unicode_lowercase(names[j]), "yield"@)),
        decreases fns.len() - i,
    {
        let lower = to_lowercase(fns[i].as_str());
        assert(names[i as int] == fns@[i as int]@);
        if contains_str(lower.as_str(), "subscription") || contains_str(lower.as_str(), "subscribe") {
            subscription = true;
        }
        if contains_str(lower.as_str(), "claim") || contains_str(lower.as_str(), "yield") {
            claim = true;
        }
        i = i + 1;
    }
    if subscription {
        ONE_MONTH_SECS
    } else if claim {
        ONE_WEEK_SECS
    } else {
        ONE_DAY_SECS
    }
}

/// The unit a window of `secs` seconds is described by.
pub fn format_window_label(secs: u64) -> (r: String)
    ensures
        r@ == window_label_spec(secs),
{
    if secs <= ONE_DAY_SECS {
        to_owned_string("day")
    } else if secs <= ONE_WEEK_SECS {
        to_owned_string("week")
    } else if secs <= ONE_MONTH_SECS {
        to_owned_string("month")
    } else {
        to_owned_string("year")
    }
}

/// `raw` with 20% headroom, written with `decimals` decimal places.
pub fn format_amount_with_headroom(raw: u128, decimals: u8) -> (r: String)
    requires
        decimals <= 38,
    ensures
        r@ == fixed_point(headroom(raw) as nat, decimals as nat),
{
    let more: u128 = raw.saturating_add(raw / 5);
    let mut r = String::new();
    push_fixed_point(&mut r, more, decimals);
    r
}

/// Whether some function name mentions a swap.
fn is_swap(fns: &Vec<String>) -> (r: bool)
    ensures
        r == is_swap_spec(fns.deep_view()),
{
    let ghost names = fns.deep_view();
    let mut i: usize = 0;
    while i < fns.len()
        invariant
            names == fns.deep_view(),
            names.len() == fns@.len(),
            i <= fns@.len(),
            forall|j: int|
                0 <= j < i ==> !(has_substring(#[trigger] names[j], "swap"@) || has_substring(
                    names[j],
                    "exchange"@,
                )),
        decreases fns.len() - i,
    {
        assert(names[i as int] == fns@[i as int]@);
        if contains_str(fns[i].as_str(), "swap") || contains_str(fns[i].as_str(), "exchange") {
            return true;
        }
        i = i + 1;
    }
    false
}

/// The position of the first outbound flow.
fn first_outbound_index(flows: &Vec<AssetFlow>) -> (r: Option<usize>)
    ensures
        match first_outbound(flows_view(flows@)) {
            Some(f) => r matches Some(i) && i < flows@.len() && flows@[i as int]@ == f,
            None => r is None,
        },
{
    let ghost fs = flows_view(flows@);
    assert(fs.subrange(0, fs.len() as int) =~= fs);
    let mut i: usize = 0;
    while i < flows.len()
        invariant
            fs == flows_view(flows@),
            i <= flows@.len(),
            first_outbound(fs) == first_outbound(fs.subrange(i as int, fs.len() as int)),
        decreases flows.len() - i,
    {
        let ghost rest = fs.subrange(i as int, fs.len() as int);
        assert(rest[0] == flows@[i as int]@);
        if flows[i].direction == FlowDirection::Outbound {
            return Some(i);
        }
        assert(rest.drop_first() =~= fs.subrange(i + 1, fs.len() as int));
        i = i + 1;
    }
    assert(fs.subrange(i as int, fs.len() as int) =~= Seq::<AssetFlowView>::empty());
    None
}

/// Cuts `s` after its first `n` bytes (see [`byte_prefix`]): the number of
/// characters kept, or `None` when the cut falls inside a character.
fn byte_prefix_len(s: &str, n: usize) -> (r: Option<usize>)
    ensures
        match byte_prefix(s@, n as int) {
            Some(k) => r == Some(k as usize),
            None => r is None,
        },
{
    let len = s.unicode_len();
    let mut i: usize = 0;
    let mut budget: usize = n;
    assert(s@.subrange(0, len as int) =~= s@);
    while i < len && budget > 0
        invariant
            len == s@.len(),
            i <= len,
            budget <= n,
            byte_prefix(s@, n as int) == (match byte_prefix(s@.subrange(i as int, len as int), budget as int) {
                Some(k) => Some((k + i) as nat),
                None => None::<nat>,
            }),
        decreases len - i,
    {
        let ghost rest = s@.subrange(i as int, len as int);
        let c = s.get_char(i);
        assert(rest[0] == c);
        assert(rest.drop_first() =~= s@.subrange(i + 1, len as int));
        let code = c as u32;
        let width: usize = if code < 0x80 {
            1
        } else if code < 0x800 {
            2
        } else if code < 0x10000 {
            3
        } else {
            4
        };
        assert(width == utf8_width(c));
        if width > budget {
            return None;
        }
        budget = budget - width;
        i = i + 1;
    }
    assert(byte_prefix(s@.subrange(i as int, len as int), budget as int) == Some(0nat));
    Some(i)
}

/// The symbol a flow is described by.
fn symbol_text(f: &AssetFlow) -> (r: String)
    requires
        f@.asset_symbol is None ==> byte_prefix(f@.asset_id, 8) is Some,
    ensures
        r@ == symbol_of(f@),
{
    match &f.asset_symbol {
        Some(s) => s.clone(),
        None => {
            let end = match byte_prefix_len(f.asset_id.as_str(), 8) {
                Some(k) => k,
                None => 0,
            };
            let n = f.asset_id.as_str().unicode_len();
            proof {
                lemma_byte_prefix_bound(f@.asset_id, 8);
                assert(end as int == byte_prefix(f@.asset_id, 8)->Some_0);
                assert(end <= n);
            }
            let cut = f.asset_id.as_str().substring_char(0, end);
            assert(cut@ =~= f@.asset_id.take(end as int));
            to_owned_string(cut)
        },
    }
}

/// A cut keeps no more characters than the text has.
proof fn lemma_byte_prefix_bound(s: Seq<char>, n: int)
    ensures
        byte_prefix(s, n) matches Some(k) ==> k <= s.len(),
    decreases s.len(),
{
    if s.len() > 0 && n > 0 {
        lemma_byte_prefix_bound(s.drop_first(), n - utf8_width(s[0]));
    }
}

/// Distinct parameter names of the layers below.
pub proof fn lemma_param_names_distinct()
    ensures
        "cap_amount_raw"@ != "asset_id"@,
        "cap_amount_raw"@ != "asset_symbol"@,
        "cap_amount_raw"@ != "window_seconds"@,
        "cap_amount_raw"@ != "decimals"@,
        "asset_id"@ != "asset_symbol"@,
        "asset_id"@ != "window_seconds"@,
        "asset_id"@ != "decimals"@,
        "asset_symbol"@ != "window_seconds"@,
        "asset_symbol"@ != "decimals"@,
        "window_seconds"@ != "decimals"@,
        "window_seconds"@ != "window_label"@,
        "threshold"@ != "total_signers"@,
        "max_slippage_percent"@ != "reason"@,
{
    reveal_strlit("cap_amount_raw");
    reveal_strlit("asset_id");
    reveal_strlit("asset_symbol");
    reveal_strlit("window_seconds");
    reveal_strlit("decimals");
    reveal_strlit("window_label");
    reveal_strlit("threshold");
    reveal_strlit("total_signers");
    reveal_strlit("max_slippage_percent");
    reveal_strlit("reason");
    assert("asset_id"@.len() != "asset_symbol"@.len());
    assert("threshold"@.len() != "total_signers"@.len());
    assert("max_slippage_percent"@.len() != "reason"@.len());
    assert("cap_amount_raw"@[0] != "window_seconds"@[0]);
    assert("asset_id"@[0] != "decimals"@[0]);
    assert("asset_id"@[0] != "window_seconds"@[0]);
    assert("asset_symbol"@[0] != "window_seconds"@[0]);
    assert("window_seconds"@[7] != "window_label"@[7]);
}

/// Parameters made of the given entries.
fn params_of(entries: Vec<(String, JsonValue)>, Ghost(expected): Ghost<Seq<(Seq<char>, JsonView)>>) -> (p: Params)
    requires
        entries@.len() == expected.len(),
        forall|i: int| 0 <= i < expected.len() ==> (#[trigger] entries@[i].0@, entries@[i].1@) == expected[i],
    ensures
        p@ == expected,
{
    proof {
        lemma_members_view(entries@);
        assert(members_view(entries@) =~= expected);
    }
    Params { entries }
}

/// The spending-limit layer.
fn spending_layer(f: &AssetFlow, cap: u128, window: u64, sym: &str) -> (l: PolicyLayer)
    requires
        sym@ == symbol_of(f@),
    ensures
        l@ == spending_layer_spec(f@, cap, window),
        l.params.wf(),
{
    let label = format_window_label(window);
    let cap_text = decimal_string(cap);
    let mut entries: Vec<(String, JsonValue)> = Vec::new();
    entries.push(text_entry("cap_amount_raw", cap_text.as_str()));
    entries.push(text_entry("asset_id", f.asset_id.as_str()));
    entries.push(text_entry("asset_symbol", sym));
    entries.push(int_entry("window_seconds", window));
    entries.push(int_entry("decimals", f.decimals as u64));
    let params = params_of(entries, Ghost(spending_layer_spec(f@, cap, window).params));
    let mut description = to_owned_string("Limit outbound ");
    push_str(&mut description, sym);
    push_str(&mut description, " to ");
    push_str(&mut description, f.amount_display.as_str());
    push_str(&mut description, " per ");
    push_str(&mut description, label.as_str());
    proof {
        lemma_param_names_distinct();
    }
    let l = PolicyLayer { kind: PolicyLayerKind::SpendingLimit, params, oz_primitive: true, description };
    assert(l@.description =~= spending_layer_spec(f@, cap, window).description);
    l
}

/// The time-window layer.
fn time_window_layer(window: u64) -> (l: PolicyLayer)
    ensures
        l@ == time_window_layer_spec(window),
        l.params.wf(),
{
    let label = format_window_label(window);
    let mut entries: Vec<(String, JsonValue)> = Vec::new();
    entries.push(int_entry("window_seconds", window));
    entries.push(text_entry("window_label", label.as_str()));
    let params = params_of(entries, Ghost(time_window_layer_spec(window).params));
    let mut description = to_owned_string("Restrict invocation to once per ");
    push_str(&mut description, label.as_str());
    proof {
        lemma_param_names_distinct();
    }
    PolicyLayer { kind: PolicyLayerKind::TimeWindow, params, oz_primitive: true, description }
}

/// The threshold layer.
fn threshold_layer(simple: bool) -> (l: PolicyLayer)
    ensures
        l@ == threshold_layer_spec(simple),
        l.params.wf(),
{
    proof {
        lemma_param_names_distinct();
    }
    let mut entries: Vec<(String, JsonValue)> = Vec::new();
    entries.push(int_entry("threshold", 1));
    if simple {
        let params = params_of(entries, Ghost(threshold_layer_spec(true).params));
        PolicyLayer {
            kind: PolicyLayerKind::SimpleThreshold,
            params,
            oz_primitive: true,
            description: to_owned_string("Single authorized signer is sufficient"),
        }
    } else {
        entries.push(int_entry("total_signers", 1));
        let params = params_of(entries, Ghost(threshold_layer_spec(false).params));
        PolicyLayer {
            kind: PolicyLayerKind::WeightedThreshold,
            params,
            oz_primitive: true,
            description: to_owned_string("Weighted threshold for multi-contract interaction"),
        }
    }
}

/// The custom slippage layer.
fn custom_layer() -> (l: PolicyLayer)
    ensures
        l@ == custom_layer_spec(),
        l.params.wf(),
{
    proof {
        lemma_param_names_distinct();
    }
    let five = JsonValue::Number(
        JsonNumber::Float(FloatValue { truncated: 5, negative: false, text: to_owned_string("5") }),
    );
    let mut entries: Vec<(String, JsonValue)> = Vec::new();
    entries.push((to_owned_string("max_slippage_percent"), five));
    entries.push(
        text_entry(
            "reason",
            "slippage_check cannot be composed from existing OZ primitives — net-new codegen required",
        ),
    );
    let params = params_of(entries, Ghost(custom_layer_spec().params));
    PolicyLayer {
        kind: PolicyLayerKind::Custom,
        params,
        oz_primitive: false,
        description: to_owned_string("Slippage guard: reject swap if slippage exceeds 5%"),
    }
}

/// Two suggested answers.
fn options2(a: String, b: String) -> (r: Option<Vec<String>>)
    ensures
        (match r {
            Some(v) => Some(v.deep_view()),
            None => None,
        }) == two_options(a@, b@),
{
    let mut v: Vec<String> = Vec::new();
    v.push(a);
    v.push(b);
    assert(v.deep_view() =~= seq![a@, b@]);
    Some(v)
}

/// The question about a transaction with many contracts.
fn complexity_question(n: usize) -> (q: Clarification)
    ensures
        q@ == complexity_clarification(n as nat),
{
    let mut question = to_owned_string("This transaction involves ");
    push_decimal(&mut question, n as u128);
    push_str(
        &mut question,
        " contracts, which is complex. Should I generate a custom policy, or attempt to compose primitives?",
    );
    let options = options2(
        to_owned_string("Compose primitives (simpler)"),
        to_owned_string("Generate custom policy (more precise)"),
    );
    let q = Clarification { field: to_owned_string("contract_complexity"), question, options };
    assert(q@.question =~= complexity_clarification(n as nat).question);
    q
}

/// The question about the amount cap.
fn amount_question(f: &AssetFlow, window: u64, sym: &str) -> (q: Clarification)
    requires
        sym@ == symbol_of(f@),
        f.decimals <= 38,
    ensures
        q@ == amount_clarification(f@, window),
{
    let label = format_window_label(window);
    let more = format_amount_with_headroom(f.amount_raw, f.decimals);
    let shown = f.amount_display.as_str();
    let mut question = to_owned_string("This transaction sent ");
    push_str(&mut question, shown);
    push_str(&mut question, " ");
    push_str(&mut question, sym);
    push_str(&mut question, ". Should I cap the policy at exactly ");
    push_str(&mut question, shown);
    push_str(&mut question, " ");
    push_str(&mut question, sym);
    push_str(&mut question, ", or allow some headroom — say ");
    push_str(&mut question, more.as_str());
    push_str(&mut question, " ");
    push_str(&mut question, sym);
    push_str(&mut question, " per ");
    push_str(&mut question, label.as_str());
    push_str(&mut question, "?");
    let mut exact = to_owned_string("Exact: ");
    push_str(&mut exact, shown);
    push_str(&mut exact, " ");
    push_str(&mut exact, sym);
    let mut roomy = to_owned_string("With 20% headroom: ");
    push_str(&mut roomy, more.as_str());
    push_str(&mut roomy, " ");
    push_str(&mut roomy, sym);
    push_str(&mut roomy, " per ");
    push_str(&mut roomy, label.as_str());
    let ghost spec = amount_clarification(f@, window);
    assert(question@ =~= spec.question);
    assert(exact@ =~= "Exact: "@ + f@.amount_display + " "@ + sym@);
    assert(roomy@ =~= "With 20% headroom: "@ + more@ + " "@ + sym@ + " per "@ + label@);
    let options = options2(exact, roomy);
    Clarification { field: to_owned_string("amount_cap"), question, options }
}

/// The question about the schedule.
fn schedule_question() -> (q: Clarification)
    ensures
        q@ == schedule_clarification(),
{
    let mut v: Vec<String> = Vec::new();
    v.push(to_owned_string("Daily (86400 seconds)"));
    v.push(to_owned_string("Weekly (604800 seconds)"));
    v.push(to_owned_string("Monthly (2592000 seconds)"));
    assert(v.deep_view() =~= seq![
        "Daily (86400 seconds)"@,
        "Weekly (604800 seconds)"@,
        "Monthly (2592000 seconds)"@,
    ]);
    Clarification {
        field: to_owned_string("time_window_seconds"),
        question: to_owned_string(
            "The transaction ran once. Should this policy allow it daily, weekly, or on a different schedule?",
        ),
        options: Some(v),
    }
}

/// The question about locking the policy to one contract.
fn lock_question(c: &crate::manifest::ContractRef) -> (q: Clarification)
    ensures
        q@ == lock_clarification(c@),
{
    let protocol = match &c.protocol {
        Some(p) => p.clone(),
        None => to_owned_string("this protocol"),
    };
    let p = protocol.as_str();
    let mut question = to_owned_string("I see ");
    push_str(&mut question, p);
    push_str(&mut question, " was called. Should I lock the policy to this exact contract address (");
    push_str(&mut question, c.id.as_str());
    push_str(&mut question, "), or allow any ");
    push_str(&mut question, p);
    push_str(&mut question, " contract?");
    let mut exact = to_owned_string("Lock to exact address: ");
    push_str(&mut exact, c.id.as_str());
    let mut any = to_owned_string("Allow any ");
    push_str(&mut any, p);
    push_str(&mut any, " contract");
    let ghost spec = lock_clarification(c@);
    assert(question@ =~= spec.question);
    assert(exact@ =~= "Lock to exact address: "@ + c@.id);
    assert(any@ =~= "Allow any "@ + protocol_label(c@) + " contract"@);
    let options = options2(exact, any);
    Clarification { field: to_owned_string("contract_lock"), question, options }
}

} // verus!

verus! {

/// The constraints a caller passed, or none.
pub open spec fn constraints_view(c: Option<&Constraints>) -> ConstraintsView {
    match c {
        Some(x) => x@,
        None => no_constraints(),
    }
}

/// The rationale for a set of layers.
fn build_rationale(layers: &Vec<PolicyLayer>, manifest: &CallManifest, is_custom: bool) -> (r: String)
    ensures
        r@ == rationale_spec(layers_view(layers@).map_values(|l: PolicyLayerView| l.kind), manifest@, is_custom),
{
    let ghost kinds = layers_view(layers@).map_values(|l: PolicyLayerView| l.kind);
    let mut names: Vec<String> = Vec::new();
    let mut i: usize = 0;
    while i < layers.len()
        invariant
            i <= layers@.len(),
            kinds == layers_view(layers@).map_values(|l: PolicyLayerView| l.kind),
            names@.len() == i,
            forall|j: int| 0 <= j < i ==> #[trigger] names@[j]@ == kind_name_spec(layers@[j].kind),
        decreases layers.len() - i,
    {
        names.push(to_owned_string(layers[i].kind.debug_name()));
        i = i + 1;
    }
    assert(views(names@) =~= kinds.map_values(|k: PolicyLayerKind| kind_name_spec(k)));
    let joined = join(&names, " + ");
    let mut parts: Vec<String> = Vec::new();
    let mut head = to_owned_string("Policy composition: ");
    push_str(&mut head, joined.as_str());
    parts.push(head);
    let ghost p0 = parts@;
    let outbound = first_outbound_index(&manifest.asset_flows).is_some();
    if outbound {
        parts.push(to_owned_string("spending_limit added because transaction has outbound asset flow"));
    }
    let ghost p1 = parts@;
    if manifest.auth_boundaries.len() > 0 {
        parts.push(to_owned_string("time_window added to restrict invocation frequency"));
    }
    let ghost p2 = parts@;
    if is_custom {
        parts.push(
            to_owned_string("custom layer required — constraint cannot be expressed by existing OZ primitives"),
        );
    }
    proof {
        let m = manifest@;
        let head_s = seq!["Policy composition: "@ + join_spec(kinds.map_values(|k: PolicyLayerKind| kind_name_spec(k)), " + "@)];
        let sp = if first_outbound(m.asset_flows) is Some {
            seq!["spending_limit added because transaction has outbound asset flow"@]
        } else {
            Seq::empty()
        };
        let wi = if m.auth_boundaries.len() > 0 {
            seq!["time_window added to restrict invocation frequency"@]
        } else {
            Seq::empty()
        };
        let cu = if is_custom {
            seq!["custom layer required — constraint cannot be expressed by existing OZ primitives"@]
        } else {
            Seq::empty()
        };
        assert(views(p0) =~= head_s);
        assert(views(p1) =~= head_s + sp);
        assert(views(p2) =~= head_s + sp + wi);
        assert(views(parts@) =~= head_s + sp + wi + cu);
    }
    join(&parts, ". ")
}

/// The policy name derived from the manifest.
fn build_policy_name(manifest: &CallManifest) -> (r: String)
    ensures
        r@ == policy_name_spec(manifest@),
{
    if manifest.unique_functions.len() > 0 {
        replace_char(manifest.unique_functions[0].as_str(), '_', "-")
    } else if manifest.unique_contracts.len() > 0 {
        assert(manifest@.unique_contracts[0] == manifest.unique_contracts@[0]@);
        match &manifest.unique_contracts[0].label {
            Some(label) => {
                let lower = to_lowercase(label.as_str());
                replace_char(lower.as_str(), ' ', "-")
            },
            None => to_owned_string("custom-policy"),
        }
    } else {
        to_owned_string("custom-policy")
    }
}

/// Whether the decision tree can run on the manifest with these
/// constraints (see [`synthesizable`]).
pub fn can_synthesize(manifest: &CallManifest, constraints: Option<&Constraints>) -> (r: bool)
    ensures
        r == synthesizable(manifest@, constraints_view(constraints)),
{
    let idx = match first_outbound_index(&manifest.asset_flows) {
        Some(i) => i,
        None => {
            return true;
        },
    };
    let f = &manifest.asset_flows[idx];
    let cap_given = match constraints {
        Some(c) => c.amount_cap.is_some(),
        None => false,
    };
    if !cap_given && f.decimals > 38 {
        return false;
    }
    if f.asset_symbol.is_none() && byte_prefix_len(f.asset_id.as_str(), 8).is_none() {
        return false;
    }
    true
}

/// Runs the decision tree against a manifest and produces a policy
/// specification. Without constraints, none are set.
#[verifier::rlimit(40)]
pub fn synthesize(manifest: &CallManifest, constraints: Option<&Constraints>) -> (spec: PolicySpec)
    requires
        synthesizable(manifest@, constraints_view(constraints)),
    ensures
        spec@ == synthesize_spec(manifest@, constraints_view(constraints)),
        forall|i: int| 0 <= i < spec.policies@.len() ==> #[trigger] spec.policies@[i].params.wf(),
{
    let c = match constraints {
        Some(x) => x.duplicate(),
        None => Constraints::default(),
    };
    let ghost m = manifest@;
    let ghost cv = constraints_view(constraints);
    assert(c@ == cv);
    let mut policies: Vec<PolicyLayer> = Vec::new();
    let mut clarifications: Vec<Clarification> = Vec::new();
    let mut needs_custom_code = false;
    let n_contracts = manifest.unique_contracts.len();
    assert(m.unique_contracts.len() == n_contracts);

    // Step 1: many contracts
    if n_contracts > 3 {
        clarifications.push(complexity_question(n_contracts));
        needs_custom_code = true;
    }
    let ghost q1 = clarifications@;

    // Step 2: an outbound flow gives a spending limit
    let window = match c.time_window_seconds {
        Some(w) => w,
        None => infer_window(manifest),
    };
    assert(window == window_of(m, cv));
    match first_outbound_index(&manifest.asset_flows) {
        Some(k) => {
            let f = &manifest.asset_flows[k];
            let cap = match c.amount_cap {
                Some(x) => x,
                None => f.amount_raw,
            };
            let sym = symbol_text(f);
            if c.amount_cap.is_none() {
                clarifications.push(amount_question(f, window, sym.as_str()));
            }
            policies.push(spending_layer(f, cap, window, sym.as_str()));
        },
        None => {},
    }
    let ghost q2 = clarifications@;
    let ghost l2 = policies@;

    // Step 3: a time window
    if c.time_window_seconds.is_none() && manifest.auth_boundaries.len() > 0 {
        clarifications.push(schedule_question());
    }
    let ghost q3 = clarifications@;
    policies.push(time_window_layer(window));

    // Step 4: one counterparty or several
    let simple = n_contracts <= 1 && manifest.unique_functions.len() <= 1;
    assert(simple == single_counterparty(m));
    if simple && n_contracts > 0 && c.amount_cap.is_none() {
        clarifications.push(lock_question(&manifest.unique_contracts[0]));
    }
    policies.push(threshold_layer(simple));
    let ghost l4 = policies@;

    // Step 5: a swap without a slippage bound
    if is_swap(&manifest.unique_functions) && c.allow_slippage_percent.is_none() {
        needs_custom_code = true;
        policies.push(custom_layer());
    }
    proof {
        let w = window_of(m, cv);
        let spending = match first_outbound(m.asset_flows) {
            Some(f) => seq![spending_layer_spec(
                f,
                match cv.amount_cap {
                    Some(cap) => cap,
                    None => f.amount_raw,
                },
                w,
            )],
            None => Seq::empty(),
        };
        assert(layers_view(l2) =~= spending);
        assert(layers_view(l4) =~= spending + seq![time_window_layer_spec(w), threshold_layer_spec(single_counterparty(m))]);
        assert(layers_view(policies@) =~= layers_spec(m, cv));
        assert(clarifications_view(clarifications@) =~= clarifications_spec(m, cv));
    }

    // Step 6: context rule, mode, rationale and name
    let mut contracts: Vec<String> = Vec::new();
    let mut i: usize = 0;
    while i < manifest.unique_contracts.len()
        invariant
            i <= manifest.unique_contracts@.len(),
            contracts@.len() == i,
            forall|j: int| 0 <= j < i ==> #[trigger] contracts@[j]@ == manifest.unique_contracts@[j].id@,
        decreases manifest.unique_contracts.len() - i,
    {
        contracts.push(manifest.unique_contracts[i].id.clone());
        i = i + 1;
    }
    assert(contracts.deep_view() =~= m.unique_contracts.map_values(|r: ContractRefView| r.id));
    let context_rule = ContextRule {
        contracts,
        functions: crate::text::clone_strings(&manifest.unique_functions),
        lifetime_seconds: match c.lifetime_seconds {
            Some(l) => l,
            None => ONE_YEAR_SECS,
        },
    };
    let mut any_custom = false;
    let mut i: usize = 0;
    while i < policies.len()
        invariant
            i <= policies@.len(),
            layers_view(policies@) == layers_spec(m, cv),
            any_custom ==> needs_slippage_layer(m, cv),
        decreases policies.len() - i,
    {
        if !policies[i].oz_primitive {
            assert(layers_view(policies@)[i as int].oz_primitive == false);
            any_custom = true;
        }
        i = i + 1;
    }
    let composition_mode = if needs_custom_code || any_custom {
        CompositionMode::Generate
    } else {
        CompositionMode::Compose
    };
    let generate = match composition_mode {
        CompositionMode::Generate => true,
        CompositionMode::Compose => false,
    };
    let rationale = build_rationale(&policies, manifest, generate);
    let policy_name = build_policy_name(manifest);
    PolicySpec {
        context_rule,
        policies,
        composition_mode,
        rationale,
        clarifications_needed: clarifications,
        policy_name,
    }
}

} // verus!

verus! {

// ── Laws of the decision tree ────────────────────────────────────────────────

/// A synthesized policy has at most five layers (the OZ limit): at most a
/// spending limit, a time window, a threshold and a slippage layer.
pub proof fn lemma_synthesize_within_limit(m: CallManifestView, c: ConstraintsView)
    ensures
        synthesize_spec(m, c).policies.len() <= 5,
        synthesize_spec(m, c).policies.len() == 2 + (if first_outbound(m.asset_flows) is Some {
            1int
        } else {
            0int
        }) + (if needs_slippage_layer(m, c) {
            1int
        } else {
            0int
        }),
{
}

/// A synthesized policy always has a time-window layer, and has a spending
/// limit exactly when the transaction had an outbound asset flow.
pub proof fn lemma_synthesize_layers(m: CallManifestView, c: ConstraintsView)
    ensures
        exists|i: int|
            0 <= i < synthesize_spec(m, c).policies.len() && #[trigger] synthesize_spec(m, c).policies[i].kind
                == PolicyLayerKind::TimeWindow,
        (exists|i: int|
            0 <= i < synthesize_spec(m, c).policies.len() && #[trigger] synthesize_spec(m, c).policies[i].kind
                == PolicyLayerKind::SpendingLimit) <==> first_outbound(m.asset_flows) is Some,
{
    let p = synthesize_spec(m, c).policies;
    let k: int = if first_outbound(m.asset_flows) is Some { 1 } else { 0 };
    assert(p[k].kind == PolicyLayerKind::TimeWindow);
    if first_outbound(m.asset_flows) is Some {
        assert(p[0].kind == PolicyLayerKind::SpendingLimit);
    } else {
        assert forall|i: int| 0 <= i < p.len() implies #[trigger] p[i].kind != PolicyLayerKind::SpendingLimit by {
        }
    }
}

/// With an amount cap given, the synthesizer does not ask for one.
pub proof fn lemma_cap_given_not_asked(m: CallManifestView, c: ConstraintsView)
    requires
        c.amount_cap is Some,
    ensures
        forall|i: int|
            0 <= i < synthesize_spec(m, c).clarifications_needed.len() ==> #[trigger] synthesize_spec(
                m,
                c,
            ).clarifications_needed[i].field != "amount_cap"@,
{
    reveal_strlit("amount_cap");
    reveal_strlit("contract_complexity");
    reveal_strlit("time_window_seconds");
    reveal_strlit("contract_lock");
    assert("amount_cap"@.len() != "contract_complexity"@.len());
    assert("amount_cap"@.len() != "time_window_seconds"@.len());
    assert("amount_cap"@.len() != "contract_lock"@.len());
}

/// The policy needs generated code exactly when a layer is not an OZ
/// primitive or the transaction involved more than three contracts.
pub proof fn lemma_generate_mode(m: CallManifestView, c: ConstraintsView)
    ensures
        (synthesize_spec(m, c).composition_mode == CompositionMode::Generate) <==> (m.unique_contracts.len()
            > 3 || exists|i: int|
            0 <= i < synthesize_spec(m, c).policies.len()
                && !(#[trigger] synthesize_spec(m, c).policies[i]).oz_primitive),
{
    let p = synthesize_spec(m, c).policies;
    if needs_slippage_layer(m, c) {
        assert(!p[p.len() - 1].oz_primitive);
    } else {
        assert forall|i: int| 0 <= i < p.len() implies (#[trigger] p[i]).oz_primitive by {
        }
    }
}

/// The window follows what the functions do: a month when some function
/// name (lowercased) mentions "subscription" or "subscribe"; otherwise a
/// week when some mentions "claim" or "yield"; otherwise a day.
pub proof fn lemma_infer_window(fns: Seq<Seq<char>>)
    ensures
        (exists|i: int|
            0 <= i < fns.len() && (has_substring(#[trigger] unicode_lowercase(fns[i]), "subscription"@)
                || has_substring(unicode_lowercase(fns[i]), "subscribe"@))) ==> infer_window_spec(fns) == ONE_MONTH_SECS,
        (forall|i: int|
            0 <= i < fns.len() ==> !has_substring(#[trigger] unicode_lowercase(fns[i]), "subscription"@)
                && !has_substring(unicode_lowercase(fns[i]), "subscribe"@)) ==> {
            &&& (exists|i: int|
                0 <= i < fns.len() && (has_substring(#[trigger] unicode_lowercase(fns[i]), "claim"@)
                    || has_substring(unicode_lowercase(fns[i]), "yield"@))) ==> infer_window_spec(fns) == ONE_WEEK_SECS
            &&& (forall|i: int|
                0 <= i < fns.len() ==> !has_substring(#[trigger] unicode_lowercase(fns[i]), "claim"@)
                    && !has_substring(unicode_lowercase(fns[i]), "yield"@)) ==> infer_window_spec(fns) == ONE_DAY_SECS
        },
{
}

} // verus!
