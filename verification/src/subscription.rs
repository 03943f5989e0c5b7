//! SEP-41 subscription policy: a delegated billing service may collect a
//! fixed recurring payment from a smart account once per billing period.
//!
//! Invariants enforced:
//! - At most one `transfer` call per `period_ledgers` window.
//! - The `amount` of each transfer must be <= `subscription_amount`.
//! - The `to` address must match the `recipient` set at install time.
use vstd::prelude::*;

use crate::context::{call_of, is_call_to, Context, Val};
use crate::storage::{elapsed, Address, Env, KeyView, StorageKey, StoredValue, ValueView};

verus! {

// ── Data types ────────────────────────────────────────────────────────────────

/// Installation parameters of the subscription policy.
#[derive(Clone, Debug, PartialEq)]
pub struct Sep41SubscriptionParams {
    /// Authorised recipient of subscription payments.
    pub recipient: Address,
    /// Max amount per payment (raw SEP-41 token units, typically 7 decimals).
    pub subscription_amount: i128,
    /// Minimum ledgers between payments. 518_400 ≈ 30 days.
    pub period_ledgers: u32,
}

/// The content of [`Sep41SubscriptionParams`].
pub struct Sep41SubscriptionParamsView {
    pub recipient: Seq<char>,
    pub subscription_amount: i128,
    pub period_ledgers: u32,
}

impl View for Sep41SubscriptionParams {
    type V = Sep41SubscriptionParamsView;

    open spec fn view(&self) -> Sep41SubscriptionParamsView {
        Sep41SubscriptionParamsView {
            recipient: self.recipient@,
            subscription_amount: self.subscription_amount,
            period_ledgers: self.period_ledgers,
        }
    }
}

impl Sep41SubscriptionParams {
    /// A copy with the same content.
    pub fn duplicate(&self) -> (r: Self)
        ensures
            r@ == self@,
    {
        Sep41SubscriptionParams {
            recipient: self.recipient.clone(),
            subscription_amount: self.subscription_amount,
            period_ledgers: self.period_ledgers,
        }
    }
}

/// The last payment.
#[derive(Clone, Copy, Debug, PartialEq, Eq, Structural)]
pub struct SubscriptionState {
    /// Ledger sequence of the last successful payment; `None` = never paid.
    pub last_payment_ledger: Option<u32>,
}

// ── Rules ────────────────────────────────────────────────────────────────────

/// The `(to, amount)` of a `transfer(from, to, amount)` call, if the context
/// is one with an address second argument and an integer third argument.
pub open spec fn transfer_args(context: &Context) -> Option<(Seq<char>, i128)> {
    match call_of(context) {
        Some((f, args)) => if f == "transfer"@ && args.len() > 2 && args[1] is Address && args[2] is I128 {
            Some((args[1]->Address_0@, args[2]->I128_0))
        } else {
            None
        },
        None => None,
    }
}

/// A payment of `amount` to `to` at ledger `current` is acceptable: the
/// recipient is the subscribed one, the amount is within the subscription,
/// and no earlier payment happened in the last `period_ledgers` ledgers.
pub open spec fn payment_allowed(
    params: Sep41SubscriptionParamsView,
    state: SubscriptionState,
    current: u32,
    to: Seq<char>,
    amount: i128,
) -> bool {
    &&& to == params.recipient
    &&& amount <= params.subscription_amount
    &&& match state.last_payment_ledger {
        None => true,
        Some(last) => elapsed(current, last) >= params.period_ledgers,
    }
}

/// Why a payment is refused.
#[derive(Clone, Copy, Debug, PartialEq, Eq, Structural)]
pub enum PaymentRefusal {
    RecipientMismatch,
    AmountExceedsSubscription,
    PaymentTooSoon,
}

/// Checks one payment, in the order the policy does: recipient, amount, period.
pub fn check_payment(
    params: &Sep41SubscriptionParams,
    state: SubscriptionState,
    current: u32,
    to: &str,
    amount: i128,
) -> (r: Result<(), PaymentRefusal>)
    ensures
        r is Ok <==> payment_allowed(params@, state, current, to@, amount),
        r == Err::<(), PaymentRefusal>(PaymentRefusal::RecipientMismatch) <==> to@ != params@.recipient,
        r == Err::<(), PaymentRefusal>(PaymentRefusal::AmountExceedsSubscription) <==> (to@ == params@.recipient
            && amount > params.subscription_amount),
{
    if !crate::text::str_eq(to, params.recipient.as_str()) {
        return Err(PaymentRefusal::RecipientMismatch);
    }
    if amount > params.subscription_amount {
        return Err(PaymentRefusal::AmountExceedsSubscription);
    }
    if let Some(last) = state.last_payment_ledger {
        let elapsed = current.saturating_sub(last);
        if elapsed < params.period_ledgers {
            return Err(PaymentRefusal::PaymentTooSoon);
        }
    }
    Ok(())
}

/// Extract `(to, amount)` from a SEP-41 `transfer(from, to, amount)` context.
pub fn extract_transfer_args(context: &Context) -> (r: Option<(Address, i128)>)
    ensures
        match transfer_args(context) {
            Some((to, amount)) => r matches Some((t, a)) && t@ == to && a == amount,
            None => r is None,
        },
{
    if !is_call_to(context, "transfer") {
        return None;
    }
    match context {
        Context::Contract(ctx) => {
            if ctx.args.len() <= 2 {
                return None;
            }
            let to = match &ctx.args[1] {
                Val::Address(a) => a.clone(),
                _ => {
                    return None;
                },
            };
            let amount = match &ctx.args[2] {
                Val::I128(v) => *v,
                _ => {
                    return None;
                },
            };
            Some((to, amount))
        },
        Context::CreateContract => None,
    }
}

// ── Contract ──────────────────────────────────────────────────────────────────

/// The SEP-41 subscription policy contract.
#[derive(Clone, Copy, Debug)]
pub struct Sep41SubscriptionPolicy;

/// The installation parameters stored for `(account, rule_id)`, if any.
pub open spec fn stored_params(env: &Env, account: Seq<char>, rule_id: u32) -> Option<Sep41SubscriptionParamsView> {
    let k = KeyView::AccountParams(account, rule_id);
    if env.contents().contains_key(k) {
        match env.contents()[k] {
            ValueView::SubscriptionParams(p) => Some(p),
            _ => None,
        }
    } else {
        None
    }
}

/// The state stored for `(account, rule_id)`, or no payment yet.
pub open spec fn current_state(env: &Env, account: Seq<char>, rule_id: u32) -> SubscriptionState {
    let k = KeyView::AccountState(account, rule_id);
    if env.contents().contains_key(k) {
        match env.contents()[k] {
            ValueView::SubscriptionState(s) => s,
            _ => SubscriptionState { last_payment_ledger: None },
        }
    } else {
        SubscriptionState { last_payment_ledger: None }
    }
}

fn load_state(env: &Env, account: &str, context_rule_id: u32) -> (s: SubscriptionState)
    requires
        env.wf(),
    ensures
        s == current_state(env, account@, context_rule_id),
{
    let key = StorageKey::AccountState(crate::text::to_owned_string(account), context_rule_id);
    match env.get(&key) {
        Some(StoredValue::SubscriptionState(s)) => s,
        _ => SubscriptionState { last_payment_ledger: None },
    }
}

impl Sep41SubscriptionPolicy {
    /// Enforce the subscription for one authorized call. Calls other than a
    /// transfer pass without effect; an acceptable transfer records the
    /// current ledger as the last payment. The policy must be installed and
    /// the transfer acceptable ([`check_payment`] decides).
    pub fn enforce(&self, env: &mut Env, context: &Context, context_rule_id: u32, smart_account: &str)
        requires
            old(env).wf(),
            stored_params(old(env), smart_account@, context_rule_id) is Some,
            transfer_args(context) matches Some((to, amount)) ==> payment_allowed(
                stored_params(old(env), smart_account@, context_rule_id)->Some_0,
                current_state(old(env), smart_account@, context_rule_id),
                old(env).ledger(),
                to,
                amount,
            ),
        ensures
            final(env).wf(),
            final(env).ledger() == old(env).ledger(),
            transfer_args(context) is None ==> *final(env) == *old(env),
            transfer_args(context) is Some ==> final(env).contents() == old(env).contents().insert(
                KeyView::AccountState(smart_account@, context_rule_id),
                ValueView::SubscriptionState(SubscriptionState { last_payment_ledger: Some(old(env).ledger()) }),
            ),
    {
        match extract_transfer_args(context) {
            Some(_) => {},
            None => {
                return;
            },
        }
        let mut state = load_state(env, smart_account, context_rule_id);
        state.last_payment_ledger = Some(env.sequence());
        let key = StorageKey::AccountState(crate::text::to_owned_string(smart_account), context_rule_id);
        env.set(key, StoredValue::SubscriptionState(state));
    }

    /// Install the policy: stores the parameters and a state with no payment
    /// yet. The amount and the period must be positive.
    pub fn install(&self, env: &mut Env, install_params: Sep41SubscriptionParams, context_rule_id: u32, smart_account: &str)
        requires
            old(env).wf(),
            install_params.subscription_amount > 0,
            install_params.period_ledgers > 0,
        ensures
            final(env).wf(),
            final(env).ledger() == old(env).ledger(),
            final(env).contents() == old(env).contents().insert(
                KeyView::AccountParams(smart_account@, context_rule_id),
                ValueView::SubscriptionParams(install_params@),
            ).insert(
                KeyView::AccountState(smart_account@, context_rule_id),
                ValueView::SubscriptionState(SubscriptionState { last_payment_ledger: None }),
            ),
    {
        let params_key = StorageKey::AccountParams(crate::text::to_owned_string(smart_account), context_rule_id);
        let state_key = StorageKey::AccountState(crate::text::to_owned_string(smart_account), context_rule_id);
        env.set(params_key, StoredValue::SubscriptionParams(install_params));
        env.set(state_key, StoredValue::SubscriptionState(SubscriptionState { last_payment_ledger: None }));
    }

    /// Uninstall the policy: removes the parameters and the state. The policy
    /// must be installed.
    pub fn uninstall(&self, env: &mut Env, context_rule_id: u32, smart_account: &str)
        requires
            old(env).wf(),
            old(env).contents().contains_key(KeyView::AccountParams(smart_account@, context_rule_id)),
        ensures
            final(env).wf(),
            final(env).ledger() == old(env).ledger(),
            final(env).contents() == old(env).contents().remove(
                KeyView::AccountParams(smart_account@, context_rule_id),
            ).remove(KeyView::AccountState(smart_account@, context_rule_id)),
    {
        let params_key = StorageKey::AccountParams(crate::text::to_owned_string(smart_account), context_rule_id);
        let state_key = StorageKey::AccountState(crate::text::to_owned_string(smart_account), context_rule_id);
        env.remove(&params_key);
        env.remove(&state_key);
    }

    /// Query current spend state: `(last_payment_ledger, subscription_amount,
    /// period_ledgers)`, with 0 for the ledger when nothing was paid yet. The
    /// policy must be installed.
    pub fn get_state(&self, env: &Env, smart_account: &str, context_rule_id: u32) -> (r: (u32, i128, u32))
        requires
            env.wf(),
            stored_params(env, smart_account@, context_rule_id) is Some,
        ensures
            ({
                let p = stored_params(env, smart_account@, context_rule_id)->Some_0;
                r == (
                    match current_state(env, smart_account@, context_rule_id).last_payment_ledger {
                        Some(l) => l,
                        None => 0,
                    },
                    p.subscription_amount,
                    p.period_ledgers,
                )
            }),
    {
        let key = StorageKey::AccountParams(crate::text::to_owned_string(smart_account), context_rule_id);
        let params = match env.get(&key) {
            Some(StoredValue::SubscriptionParams(p)) => p,
            _ => {
                return (0, 0, 0);
            },
        };
        let state = load_state(env, smart_account, context_rule_id);
        let last = match state.last_payment_ledger {
            Some(l) => l,
            None => 0,
        };
        (last, params.subscription_amount, params.period_ledgers)
    }
}

/// At most one payment per period: once a payment is recorded at ledger
/// `paid_at`, no further payment is allowed before `period_ledgers` more
/// ledgers have passed.
pub proof fn lemma_one_payment_per_period(
    params: Sep41SubscriptionParamsView,
    paid_at: u32,
    current: u32,
    to: Seq<char>,
    amount: i128,
)
    requires
        paid_at <= current,
        current - paid_at < params.period_ledgers,
    ensures
        !payment_allowed(params, SubscriptionState { last_payment_ledger: Some(paid_at) }, current, to, amount),
{
}

} // verus!
