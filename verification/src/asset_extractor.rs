//! Asset flows read from Stellar Asset Contract transfer events.
//!
//! A SAC transfer event has the topics `["transfer", from, to, asset]` and
//! the amount, an `i128`, as its data.
use vstd::prelude::*;

use crate::json::{FloatView, JsonNumber, JsonValue, JsonView, NumberView, as_text, as_unsigned, member};
use crate::manifest::{AssetFlow, AssetFlowView, FlowDirection, flows_view};
use crate::text::{decimal, decimal_string, fixed_point, push_fixed_point, str_eq, to_owned_string};
use crate::xdr::{DiagnosticEvent, DiagnosticEventView, events_view};

verus! {

/// The topic of a SAC transfer event.
pub const SAC_TRANSFER_TOPIC: &'static str = "transfer";

/// Decimal places of XLM.
pub const XLM_DECIMALS: u8 = 7;

/// Decimal places assumed for a SEP-41 token.
pub const DEFAULT_DECIMALS: u8 = 7;

/// `raw` with `decimals` decimal places; an integer when there are none.
pub open spec fn amount_text(raw: u128, decimals: u8) -> Seq<char> {
    if decimals == 0 {
        decimal(raw as nat)
    } else {
        fixed_point(raw as nat, decimals as nat)
    }
}

/// Formats a raw integer amount with the given decimal places.
pub fn format_amount(raw: u128, decimals: u8) -> (r: String)
    requires
        decimals <= 38,
    ensures
        r@ == amount_text(raw, decimals),
{
    if decimals == 0 {
        return decimal_string(raw);
    }
    let mut r = String::new();
    push_fixed_point(&mut r, raw, decimals);
    r
}

/// The text of member `key`, when it is a string.
pub open spec fn text_member(v: JsonView, key: Seq<char>) -> Option<Seq<char>> {
    match member(v, key) {
        Some(x) => as_text(x),
        None => None,
    }
}

/// A symbol or function name in ScVal JSON: `{"symbol": s}`, `{"string": s}`
/// or a plain string.
pub open spec fn symbol_spec(v: JsonView) -> Option<Seq<char>> {
    if text_member(v, "symbol"@) is Some {
        text_member(v, "symbol"@)
    } else if text_member(v, "string"@) is Some {
        text_member(v, "string"@)
    } else {
        as_text(v)
    }
}

/// An address in ScVal JSON: `{"address": a}`, `{"accountId": a}` or a
/// plain string.
pub open spec fn address_spec(v: Option<JsonView>) -> Option<Seq<char>> {
    match v {
        None => None,
        Some(x) => if text_member(x, "address"@) is Some {
            text_member(x, "address"@)
        } else if text_member(x, "accountId"@) is Some {
            text_member(x, "accountId"@)
        } else {
            as_text(x)
        },
    }
}

/// Member `key` as an unsigned integer, or 0.
pub open spec fn u64_member(v: JsonView, key: Seq<char>) -> u64 {
    match member(v, key) {
        Some(x) => match as_unsigned(x) {
            Some(n) => n,
            None => 0,
        },
        None => 0,
    }
}

/// The 128-bit amount of a `{"lo": .., "hi": ..}` object.
pub open spec fn wide_amount(parts: JsonView) -> u128 {
    (u64_member(parts, "hi"@) as nat * 0x1_0000_0000_0000_0000 + u64_member(parts, "lo"@) as nat) as u128
}

/// A number that is not an unsigned integer, read as a float and cast to
/// `u128` (negative numbers give 0).
pub open spec fn float_amount(v: JsonView) -> Option<u128> {
    match v {
        JsonView::Number(NumberView::NegInt(n)) => Some(if n < 0 { 0u128 } else { n as u128 }),
        JsonView::Number(NumberView::Float(f)) => Some(f.truncated),
        _ => None,
    }
}

/// An amount in ScVal JSON: `{"i128": {"lo", "hi"}}`, `{"u128": {"lo", "hi"}}`
/// or a plain number.
pub open spec fn amount_spec(v: JsonView) -> Option<u128> {
    if member(v, "i128"@) is Some {
        Some(wide_amount(member(v, "i128"@)->0))
    } else if member(v, "u128"@) is Some {
        Some(wide_amount(member(v, "u128"@)->0))
    } else if as_unsigned(v) is Some {
        Some(as_unsigned(v)->0 as u128)
    } else {
        float_amount(v)
    }
}

/// Reads a symbol or function name from ScVal JSON.
pub fn extract_symbol_from_scval(val: &JsonValue) -> (r: Option<String>)
    ensures
        r.deep_view() == symbol_spec(val@),
{
    match val.get("symbol") {
        Some(v) => match v.as_str() {
            Some(s) => {
                return Some(s.clone());
            },
            None => {},
        },
        None => {},
    }
    match val.get("string") {
        Some(v) => match v.as_str() {
            Some(s) => {
                return Some(s.clone());
            },
            None => {},
        },
        None => {},
    }
    match val.as_str() {
        Some(s) => Some(s.clone()),
        None => None,
    }
}

/// Reads an address from ScVal JSON.
pub fn extract_address_from_scval(val: Option<&JsonValue>) -> (r: Option<String>)
    ensures
        r.deep_view() == address_spec(
            match val {
                Some(v) => Some(v@),
                None => None,
            },
        ),
{
    let val = match val {
        Some(v) => v,
        None => {
            return None;
        },
    };
    match val.get("address") {
        Some(v) => match v.as_str() {
            Some(s) => {
                return Some(s.clone());
            },
            None => {},
        },
        None => {},
    }
    match val.get("accountId") {
        Some(v) => match v.as_str() {
            Some(s) => {
                return Some(s.clone());
            },
            None => {},
        },
        None => {},
    }
    match val.as_str() {
        Some(s) => Some(s.clone()),
        None => None,
    }
}

/// Member `key` as an unsigned integer, or 0.
fn u64_or_zero(v: &JsonValue, key: &str) -> (r: u64)
    ensures
        r == u64_member(v@, key@),
{
    match v.get(key) {
        Some(x) => match x.as_u64() {
            Some(n) => n,
            None => 0,
        },
        None => 0,
    }
}

/// The 128-bit amount of a `{"lo": .., "hi": ..}` object.
fn wide_value(parts: &JsonValue) -> (r: u128)
    ensures
        r == wide_amount(parts@),
{
    let lo = u64_or_zero(parts, "lo") as u128;
    let hi = u64_or_zero(parts, "hi") as u128;
    let r = (hi << 64u32) | lo;
    assert(r == hi * 0x1_0000_0000_0000_0000 + lo) by (bit_vector)
        requires
            lo < 0x1_0000_0000_0000_0000,
            hi < 0x1_0000_0000_0000_0000,
            r == (hi << 64u32) | lo,
    ;
    r
}

/// Reads an `i128` or `u128` amount from ScVal JSON.
pub fn extract_amount_from_scval(val: &JsonValue) -> (r: Option<u128>)
    ensures
        r == amount_spec(val@),
{
    match val.get("i128") {
        Some(parts) => {
            return Some(wide_value(parts));
        },
        None => {},
    }
    match val.get("u128") {
        Some(parts) => {
            return Some(wide_value(parts));
        },
        None => {},
    }
    match val.as_u64() {
        Some(n) => {
            return Some(n as u128);
        },
        None => {},
    }
    match val {
        JsonValue::Number(JsonNumber::NegInt(n)) => Some(if *n < 0 { 0u128 } else { *n as u128 }),
        JsonValue::Number(JsonNumber::Float(f)) => Some(f.truncated),
        _ => None,
    }
}

/// The asset flow a diagnostic event records for the invoking account, if
/// it records one: a contract event whose first topic is "transfer", from
/// or to the account.
pub open spec fn event_flow(e: DiagnosticEventView, account: Seq<char>) -> Option<AssetFlowView> {
    if e.event_type != "contract"@ || e.contract_id is None || e.topics.len() == 0 || symbol_spec(e.topics[0])
        != Some("transfer"@) {
        None
    } else {
        let from = address_spec(if e.topics.len() > 1 { Some(e.topics[1]) } else { None });
        let to = address_spec(if e.topics.len() > 2 { Some(e.topics[2]) } else { None });
        let symbol = if e.topics.len() > 3 { symbol_spec(e.topics[3]) } else { None };
        let amount = match amount_spec(e.data) {
            Some(a) => a,
            None => 0u128,
        };
        let flow = |direction: FlowDirection, counterparty: Option<Seq<char>>|
            AssetFlowView {
                asset_id: e.contract_id->0,
                asset_symbol: symbol,
                direction,
                amount_raw: amount,
                amount_display: amount_text(amount, 7),
                decimals: 7,
                counterparty,
            };
        if from == Some(account) {
            Some(flow(FlowDirection::Outbound, to))
        } else if to == Some(account) {
            Some(flow(FlowDirection::Inbound, from))
        } else {
            None
        }
    }
}

/// The asset flows of a list of events, in order.
pub open spec fn flows_spec(events: Seq<DiagnosticEventView>, account: Seq<char>) -> Seq<AssetFlowView>
    decreases events.len(),
{
    if events.len() == 0 {
        Seq::empty()
    } else {
        flows_spec(events.drop_last(), account) + match event_flow(events.last(), account) {
            Some(f) => seq![f],
            None => Seq::empty(),
        }
    }
}

/// The flow of one event, if it records one.
fn flow_of_event(event: &DiagnosticEvent, invoking_account: &str) -> (r: Option<AssetFlow>)
    ensures
        match event_flow(event@, invoking_account@) {
            Some(f) => r matches Some(x) && x@ == f,
            None => r is None,
        },
{
    proof {
        crate::json::lemma_list_view(event.topics@);
    }
    if !str_eq(event.event_type.as_str(), "contract") {
        return None;
    }
    let contract_id = match &event.contract_id {
        Some(id) => id.clone(),
        None => {
            return None;
        },
    };
    if event.topics.len() == 0 {
        return None;
    }
    let topic = extract_symbol_from_scval(&event.topics[0]);
    let is_transfer = match &topic {
        Some(t) => str_eq(t.as_str(), SAC_TRANSFER_TOPIC),
        None => false,
    };
    if !is_transfer {
        return None;
    }
    let from = extract_address_from_scval(if event.topics.len() > 1 { Some(&event.topics[1]) } else { None });
    let to = extract_address_from_scval(if event.topics.len() > 2 { Some(&event.topics[2]) } else { None });
    let asset_symbol = if event.topics.len() > 3 {
        extract_symbol_from_scval(&event.topics[3])
    } else {
        None
    };
    let amount_raw = match extract_amount_from_scval(&event.data) {
        Some(a) => a,
        None => 0,
    };
    let from_invoker = match &from {
        Some(f) => str_eq(f.as_str(), invoking_account),
        None => false,
    };
    let to_invoker = match &to {
        Some(t) => str_eq(t.as_str(), invoking_account),
        None => false,
    };
    let (direction, counterparty) = if from_invoker {
        (FlowDirection::Outbound, to)
    } else if to_invoker {
        (FlowDirection::Inbound, from)
    } else {
        return None;
    };
    let decimals = DEFAULT_DECIMALS;
    let amount_display = format_amount(amount_raw, decimals);
    Some(AssetFlow { asset_id: contract_id, asset_symbol, direction, amount_raw, amount_display, decimals, counterparty })
}

/// The asset flows of the events that involve the invoking account.
pub fn extract_asset_flows(events: &[DiagnosticEvent], invoking_account: &str) -> (r: Vec<AssetFlow>)
    ensures
        flows_view(r@) == flows_spec(events_view(events@), invoking_account@),
{
    let mut flows: Vec<AssetFlow> = Vec::new();
    let mut i: usize = 0;
    while i < events.len()
        invariant
            i <= events@.len(),
            flows_view(flows@) == flows_spec(events_view(events@.subrange(0, i as int)), invoking_account@),
        decreases events.len() - i,
    {
        let ghost before = flows@;
        match flow_of_event(&events[i], invoking_account) {
            Some(f) => {
                flows.push(f);
            },
            None => {},
        }
        proof {
            let pre = events_view(events@.subrange(0, i + 1));
            assert(pre.drop_last() =~= events_view(events@.subrange(0, i as int)));
            assert(pre.last() == events@[i as int]@);
            assert(flows_view(flows@) =~= flows_spec(pre, invoking_account@));
        }
        i = i + 1;
    }
    assert(events@.subrange(0, events@.len() as int) =~= events@);
    flows
}

/// Topic `i` of an event, if it has one.
pub open spec fn topic(e: DiagnosticEventView, i: int) -> Option<JsonView> {
    if 0 <= i < e.topics.len() {
        Some(e.topics[i])
    } else {
        None
    }
}

/// Who a flow is with: an event records a flow for the account exactly when
/// it is a contract's transfer event sent from or to the account. A flow the
/// account sent is outbound and its counterparty is the recipient; a flow it
/// received (and did not send) is inbound and its counterparty is the
/// sender. So the counterparty is never the account itself, unless the
/// account transferred to itself. The flow moves the event's amount of the
/// emitting contract's asset, shown with 7 decimals.
pub proof fn lemma_flow_parties(e: DiagnosticEventView, account: Seq<char>)
    ensures
        ({
            let from = address_spec(topic(e, 1));
            let to = address_spec(topic(e, 2));
            let transfer = e.event_type == "contract"@ && e.contract_id is Some && e.topics.len() > 0
                && symbol_spec(e.topics[0]) == Some("transfer"@);
            &&& event_flow(e, account) is Some <==> transfer && (from == Some(account) || to == Some(account))
            &&& event_flow(e, account) matches Some(f) ==> {
                &&& f.asset_id == e.contract_id->0
                &&& f.amount_raw == (match amount_spec(e.data) {
                    Some(a) => a,
                    None => 0u128,
                })
                &&& f.decimals == 7
                &&& f.amount_display == fixed_point(f.amount_raw as nat, 7)
                &&& (f.direction == FlowDirection::Outbound <==> from == Some(account))
                &&& (f.direction == FlowDirection::Outbound ==> f.counterparty == to)
                &&& (f.direction == FlowDirection::Inbound ==> to == Some(account) && f.counterparty == from)
                &&& (from != to ==> f.counterparty != Some(account))
            }
        }),
{
}

} // verus!
