//! Blend yield-claim policy: a delegated agent may claim yield from a Blend
//! lending pool, with a rolling spending cap. Every `(smart_account,
//! context_rule.id)` pair has its own storage.
use vstd::prelude::*;

use crate::num::saturating_add_i128;
use crate::context::{call_of, is_call_to, Context, Val};
use crate::storage::{elapsed, Env, KeyView, StorageKey, StoredValue, ValueView};

verus! {

// ── Data types ────────────────────────────────────────────────────────────────

/// Installation parameters of the yield-claim policy.
#[derive(Clone, Copy, Debug, PartialEq, Eq, Structural)]
pub struct BlendYieldClaimParams {
    /// Max outbound amount per rolling window (raw token units, 7 decimals).
    /// e.g. 1_000_000_000 = 100 USDC
    pub spending_limit: i128,
    /// Window length in ledgers (~5 s each). 120_960 ≈ 1 week.
    pub period_ledgers: u32,
}

/// Spending in the current window.
#[derive(Clone, Copy, Debug, PartialEq, Eq, Structural)]
pub struct SpendState {
    pub spent: i128,
    pub window_start_ledger: u32,
}

// ── Rules ────────────────────────────────────────────────────────────────────

/// The amount of a SAC `transfer(from, to, amount: i128)` call; zero for any
/// other call, or when the third argument is missing or not an integer.
pub open spec fn transfer_amount(context: &Context) -> i128 {
    match call_of(context) {
        Some((f, args)) => if f == "transfer"@ && args.len() > 2 && args[2] is I128 {
            args[2]->I128_0
        } else {
            0
        },
        None => 0,
    }
}

/// The state after rolling the window to `current` and adding `amount`
/// (a positive amount only).
pub open spec fn after_claim(params: BlendYieldClaimParams, state: SpendState, current: u32, amount: i128) -> SpendState {
    let rolled = if elapsed(current, state.window_start_ledger) >= params.period_ledgers {
        SpendState { spent: 0, window_start_ledger: current }
    } else {
        state
    };
    if amount > 0 {
        SpendState { spent: saturating_add_i128(rolled.spent, amount), window_start_ledger: rolled.window_start_ledger }
    } else {
        rolled
    }
}

/// A claim of `amount` at ledger `current` stays within the limit.
pub open spec fn claim_allowed(params: BlendYieldClaimParams, state: SpendState, current: u32, amount: i128) -> bool {
    amount <= 0 || after_claim(params, state, current, amount).spent <= params.spending_limit
}

/// The state after a claim, and whether it stays within the limit.
pub fn evaluate_claim(params: BlendYieldClaimParams, state: SpendState, current: u32, amount: i128) -> (r: (SpendState, bool))
    ensures
        r.0 == after_claim(params, state, current, amount),
        r.1 == claim_allowed(params, state, current, amount),
{
    let mut state = state;
    if current.saturating_sub(state.window_start_ledger) >= params.period_ledgers {
        state.spent = 0;
        state.window_start_ledger = current;
    }
    if amount > 0 {
        state.spent = crate::num::saturating_add(state.spent, amount);
        (state, state.spent <= params.spending_limit)
    } else {
        (state, true)
    }
}

/// Extract the amount from a SAC `transfer(from, to, amount: i128)` call.
/// Returns 0 for any other context type or function name.
pub fn sac_transfer_amount(context: &Context) -> (r: i128)
    ensures
        r == transfer_amount(context),
{
    if !is_call_to(context, "transfer") {
        return 0;
    }
    match context {
        Context::Contract(ctx) => {
            if ctx.args.len() <= 2 {
                return 0;
            }
            match &ctx.args[2] {
                Val::I128(v) => *v,
                _ => 0,
            }
        },
        Context::CreateContract => 0,
    }
}

// ── Contract ──────────────────────────────────────────────────────────────────

/// The Blend yield-claim policy contract.
#[derive(Clone, Copy, Debug)]
pub struct BlendYieldClaimPolicy;

/// The installation parameters stored for `(account, rule_id)`, if any.
pub open spec fn stored_params(env: &Env, account: Seq<char>, rule_id: u32) -> Option<BlendYieldClaimParams> {
    let k = KeyView::AccountParams(account, rule_id);
    if env.contents().contains_key(k) {
        match env.contents()[k] {
            ValueView::YieldClaimParams(p) => Some(p),
            _ => None,
        }
    } else {
        None
    }
}

/// The state stored for `(account, rule_id)`, or an empty window starting
/// at the current ledger.
pub open spec fn current_state(env: &Env, account: Seq<char>, rule_id: u32) -> SpendState {
    let k = KeyView::AccountState(account, rule_id);
    if env.contents().contains_key(k) {
        match env.contents()[k] {
            ValueView::SpendState(s) => s,
            _ => SpendState { spent: 0, window_start_ledger: env.ledger() },
        }
    } else {
        SpendState { spent: 0, window_start_ledger: env.ledger() }
    }
}

/// What one `enforce` call that returns does: from the ledger `before` to
/// `after`. A positive transferred amount is added to the window rolled to
/// the current ledger, and the result stored; otherwise nothing changes.
pub open spec fn claim_effect(before: Env, after: Env, context: &Context, rule_id: u32, account: Seq<char>) -> bool {
    &&& transfer_amount(context) <= 0 ==> after == before
    &&& transfer_amount(context) > 0 ==> after.contents() == before.contents().insert(
        KeyView::AccountState(account, rule_id),
        ValueView::SpendState(after_claim(
            stored_params(&before, account, rule_id)->Some_0,
            current_state(&before, account, rule_id),
            before.ledger(),
            transfer_amount(context),
        )),
    )
}

impl BlendYieldClaimPolicy {
    /// Enforce the cap for one authorized call: the window is rolled forward
    /// and a positive transferred amount is added and saved. The policy must
    /// be installed and the claim within the limit ([`evaluate_claim`] decides).
    pub fn enforce(&self, env: &mut Env, context: &Context, context_rule_id: u32, smart_account: &str)
        requires
            old(env).wf(),
            stored_params(old(env), smart_account@, context_rule_id) is Some,
            claim_allowed(
                stored_params(old(env), smart_account@, context_rule_id)->Some_0,
                current_state(old(env), smart_account@, context_rule_id),
                old(env).ledger(),
                transfer_amount(context),
            ),
        ensures
            final(env).wf(),
            final(env).ledger() == old(env).ledger(),
            claim_effect(*old(env), *final(env), context, context_rule_id, smart_account@),
    {
        let params_key = StorageKey::AccountParams(crate::text::to_owned_string(smart_account), context_rule_id);
        let state_key = StorageKey::AccountState(crate::text::to_owned_string(smart_account), context_rule_id);
        let params = match env.get(&params_key) {
            Some(StoredValue::YieldClaimParams(p)) => p,
            _ => {
                return;
            },
        };
        let cur = env.sequence();
        let state = match env.get(&state_key) {
            Some(StoredValue::SpendState(s)) => s,
            _ => SpendState { spent: 0, window_start_ledger: cur },
        };
        let amount = sac_transfer_amount(context);
        let (state, _within) = evaluate_claim(params, state, cur, amount);
        if amount > 0 {
            env.set(state_key, StoredValue::SpendState(state));
        }
    }

    /// Install the policy: stores the parameters and an empty window at the
    /// current ledger. The limit and the period must be positive.
    pub fn install(&self, env: &mut Env, install_params: BlendYieldClaimParams, context_rule_id: u32, smart_account: &str)
        requires
            old(env).wf(),
            install_params.spending_limit > 0,
            install_params.period_ledgers > 0,
        ensures
            final(env).wf(),
            final(env).ledger() == old(env).ledger(),
            final(env).contents() == old(env).contents().insert(
                KeyView::AccountParams(smart_account@, context_rule_id),
                ValueView::YieldClaimParams(install_params),
            ).insert(
                KeyView::AccountState(smart_account@, context_rule_id),
                ValueView::SpendState(SpendState { spent: 0, window_start_ledger: old(env).ledger() }),
            ),
    {
        let params_key = StorageKey::AccountParams(crate::text::to_owned_string(smart_account), context_rule_id);
        let state_key = StorageKey::AccountState(crate::text::to_owned_string(smart_account), context_rule_id);
        env.set(params_key, StoredValue::YieldClaimParams(install_params));
        let seq = env.sequence();
        env.set(state_key, StoredValue::SpendState(SpendState { spent: 0, window_start_ledger: seq }));
    }

    /// Uninstall the policy: removes the parameters and the state. The policy
    /// must be installed.
    pub fn uninstall(&self, env: &mut Env, context_rule_id: u32, smart_account: &str)
        requires
            old(env).wf(),
            old(env).contents().contains_key(KeyView::AccountParams(smart_account@, context_rule_id)),
        ensures
            final(env).wf(),
            final(env).ledger() == old(env).ledger(),
            final(env).contents() == old(env).contents().remove(
                KeyView::AccountParams(smart_account@, context_rule_id),
            ).remove(KeyView::AccountState(smart_account@, context_rule_id)),
    {
        let params_key = StorageKey::AccountParams(crate::text::to_owned_string(smart_account), context_rule_id);
        let state_key = StorageKey::AccountState(crate::text::to_owned_string(smart_account), context_rule_id);
        env.remove(&params_key);
        env.remove(&state_key);
    }
}

/// The cap is an invariant: from a window within the limit, any claim the
/// policy allows (positive or not) leaves the window within the limit.
pub proof fn lemma_claim_keeps_cap(params: BlendYieldClaimParams, state: SpendState, current: u32, amount: i128)
    requires
        params.spending_limit > 0,
        state.spent <= params.spending_limit,
        claim_allowed(params, state, current, amount),
    ensures
        after_claim(params, state, current, amount).spent <= params.spending_limit,
{
}

/// One enforced call claiming `amount` at ledger `current` (as `enforce`
/// does it): an allowed positive claim is recorded; anything else leaves the
/// state as it was (a refused claim is not enforced at all).
pub open spec fn claim_step(params: BlendYieldClaimParams, state: SpendState, call: (u32, i128)) -> SpendState {
    if call.1 > 0 && claim_allowed(params, state, call.0, call.1) {
        after_claim(params, state, call.0, call.1)
    } else {
        state
    }
}

/// The state after a sequence of claims `(ledger, amount)`.
pub open spec fn run_claims(params: BlendYieldClaimParams, state: SpendState, calls: Seq<(u32, i128)>) -> SpendState
    decreases calls.len(),
{
    if calls.len() == 0 {
        state
    } else {
        run_claims(params, claim_step(params, state, calls[0]), calls.drop_first())
    }
}

/// The cap holds over any sequence of claims: starting within the limit,
/// the recorded spending stays within it after every call.
pub proof fn lemma_claims_keep_cap(params: BlendYieldClaimParams, state: SpendState, calls: Seq<(u32, i128)>)
    requires
        params.spending_limit > 0,
        state.spent <= params.spending_limit,
    ensures
        run_claims(params, state, calls).spent <= params.spending_limit,
    decreases calls.len(),
{
    if calls.len() > 0 {
        let next = claim_step(params, state, calls[0]);
        if calls[0].1 > 0 && claim_allowed(params, state, calls[0].0, calls[0].1) {
            lemma_claim_keeps_cap(params, state, calls[0].0, calls[0].1);
        }
        lemma_claims_keep_cap(params, next, calls.drop_first());
    }
}

/// One call of a sequence: it returned, the claim being allowed (with the
/// effect of `enforce`), or it was refused and changed nothing.
pub open spec fn claim_call(before: Env, after: Env, context: &Context, rule_id: u32, account: Seq<char>) -> bool {
    ||| (claim_allowed(
        stored_params(&before, account, rule_id)->Some_0,
        current_state(&before, account, rule_id),
        before.ledger(),
        transfer_amount(context),
    ) && claim_effect(before, after, context, rule_id, account))
    ||| after == before
}

/// The limit holds before call `n` of a sequence of calls.
proof fn lemma_claim_prefix(
    start: Env,
    before: Seq<Env>,
    after: Seq<Env>,
    contexts: Seq<Context>,
    rule_id: u32,
    account: Seq<char>,
    p: BlendYieldClaimParams,
    n: int,
)
    requires
        before.len() == after.len(),
        before.len() == contexts.len(),
        0 <= n <= before.len(),
        p.spending_limit > 0,
        stored_params(&start, account, rule_id) == Some(p),
        current_state(&start, account, rule_id).spent <= p.spending_limit,
        forall|i: int| 0 <= i < before.len() ==> claim_call(#[trigger] before[i], after[i], &contexts[i], rule_id, account),
        forall|i: int|
            0 <= i < before.len() ==> (#[trigger] before[i]).contents() == (if i == 0 {
                start.contents()
            } else {
                after[i - 1].contents()
            }),
    ensures
        n < before.len() ==> stored_params(&before[n], account, rule_id) == Some(p),
        n < before.len() ==> current_state(&before[n], account, rule_id).spent <= p.spending_limit,
        n > 0 ==> stored_params(&after[n - 1], account, rule_id) == Some(p),
        n > 0 ==> current_state(&after[n - 1], account, rule_id).spent <= p.spending_limit,
    decreases n,
{
    if n > 0 {
        lemma_claim_prefix(start, before, after, contexts, rule_id, account, p, n - 1);
        let b = before[n - 1];
        let a = after[n - 1];
        let ctx = &contexts[n - 1];
        assert(claim_call(b, a, ctx, rule_id, account));
        assert(KeyView::AccountParams(account, rule_id) != KeyView::AccountState(account, rule_id));
        if a != b {
            let st = current_state(&b, account, rule_id);
            if transfer_amount(ctx) > 0 {
                lemma_claim_keeps_cap(p, st, b.ledger(), transfer_amount(ctx));
            }
        }
        if n < before.len() {
            assert(before[n].contents() == after[n - 1].contents());
        }
    } else if before.len() > 0 {
        assert(before[0].contents() == start.contents());
    }
}

/// The cap holds over the policy's own calls: in a sequence of `enforce`
/// calls (each either returning, its claim allowed, or refused and changing
/// nothing), with storage untouched between them, the recorded spending
/// stays within the limit after every call.
pub proof fn lemma_claim_enforce_sequence(
    start: Env,
    before: Seq<Env>,
    after: Seq<Env>,
    contexts: Seq<Context>,
    rule_id: u32,
    account: Seq<char>,
    p: BlendYieldClaimParams,
)
    requires
        before.len() == after.len(),
        before.len() == contexts.len(),
        p.spending_limit > 0,
        stored_params(&start, account, rule_id) == Some(p),
        current_state(&start, account, rule_id).spent <= p.spending_limit,
        forall|i: int| 0 <= i < before.len() ==> claim_call(#[trigger] before[i], after[i], &contexts[i], rule_id, account),
        forall|i: int|
            0 <= i < before.len() ==> (#[trigger] before[i]).contents() == (if i == 0 {
                start.contents()
            } else {
                after[i - 1].contents()
            }),
    ensures
        forall|i: int| 0 <= i < after.len() ==> (#[trigger] current_state(&after[i], account, rule_id)).spent
            <= p.spending_limit,
{
    assert forall|i: int| 0 <= i < after.len() implies (#[trigger] current_state(&after[i], account, rule_id)).spent
        <= p.spending_limit by {
        lemma_claim_prefix(start, before, after, contexts, rule_id, account, p, i + 1);
    }
}

} // verus!
