//! Spending limit policy: a maximum spending amount over a rolling window of
//! ledgers.
use vstd::prelude::*;

use crate::context::Context;
use crate::yield_claim::{sac_transfer_amount, transfer_amount};
use crate::storage::{
    elapsed, name_key, params_slot, state_slot, Address, Env, PolicyError, PolicyResult, PolicyStorage, StoredValue,
    ValidateParams, ValueView,
};

verus! {

// ── Install parameters ──────────────────────────────────────────────────────

/// Installation parameters of the spending limit policy.
#[derive(Clone, Debug)]
pub struct InstallParams {
    /// Maximum amount that can be spent in the rolling window (in asset's smallest unit)
    pub cap_amount: u64,
    /// Asset ID (contract address) that this limit applies to
    pub asset_id: Address,
    /// Rolling window length in ledgers
    pub window_ledgers: u32,
    /// Whether to allow partial spends (if false, transactions must be exact multiples)
    pub allow_partial: bool,
}

/// The content of [`InstallParams`].
pub struct InstallParamsView {
    pub cap_amount: u64,
    pub asset_id: Seq<char>,
    pub window_ledgers: u32,
    pub allow_partial: bool,
}

impl View for InstallParams {
    type V = InstallParamsView;

    open spec fn view(&self) -> InstallParamsView {
        InstallParamsView {
            cap_amount: self.cap_amount,
            asset_id: self.asset_id@,
            window_ledgers: self.window_ledgers,
            allow_partial: self.allow_partial,
        }
    }
}

impl InstallParams {
    /// A copy with the same content.
    pub fn duplicate(&self) -> (r: Self)
        ensures
            r@ == self@,
    {
        InstallParams {
            cap_amount: self.cap_amount,
            asset_id: self.asset_id.clone(),
            window_ledgers: self.window_ledgers,
            allow_partial: self.allow_partial,
        }
    }

    /// Parameters are valid when the cap and the window are both non-zero.
    pub open spec fn valid(self) -> bool {
        self.cap_amount != 0 && self.window_ledgers != 0
    }
}

impl ValidateParams for InstallParams {
    fn validate(&self) -> (r: PolicyResult<()>)
        ensures
            r == (if self.valid() {
                Ok::<(), PolicyError>(())
            } else {
                Err(PolicyError::InvalidParams)
            }),
    {
        if self.cap_amount == 0 {
            return Err(PolicyError::InvalidParams);
        }
        if self.window_ledgers == 0 {
            return Err(PolicyError::InvalidParams);
        }
        Ok(())
    }
}

// ── Policy state ────────────────────────────────────────────────────────────

/// Spending recorded in the current window.
#[derive(Clone, Copy, Debug, PartialEq, Eq, Structural)]
pub struct SpendingState {
    /// Total amount spent in current window
    pub spent_amount: u64,
    /// Ledger sequence when the window started
    pub window_start: u32,
}

impl Default for SpendingState {
    fn default() -> (r: Self)
        ensures
            r.spent_amount == 0 && r.window_start == 0,
    {
        SpendingState { spent_amount: 0, window_start: 0 }
    }
}

/// The state after the window has been rolled forward to `current_ledger`:
/// once `window_ledgers` have passed since the window started, spending
/// starts again from zero at the current ledger.
pub open spec fn rolled(window_ledgers: u32, state: SpendingState, current_ledger: u32) -> SpendingState {
    if elapsed(current_ledger, state.window_start) >= window_ledgers {
        SpendingState { spent_amount: 0, window_start: current_ledger }
    } else {
        state
    }
}

/// Rolls the window forward to `current_ledger`.
pub fn roll_window(window_ledgers: u32, state: SpendingState, current_ledger: u32) -> (r: SpendingState)
    ensures
        r == rolled(window_ledgers, state, current_ledger),
{
    let mut s = state;
    if current_ledger.saturating_sub(s.window_start) >= window_ledgers {
        s.spent_amount = 0;
        s.window_start = current_ledger;
    }
    s
}

/// The amount spent once `amount` is added (saturating at `u64::MAX`).
pub open spec fn spent_after(spent: u64, amount: u64) -> u64 {
    if spent + amount > u64::MAX {
        u64::MAX
    } else {
        (spent + amount) as u64
    }
}

// ── Policy implementation ───────────────────────────────────────────────────

/// The spending limit policy contract.
#[derive(Clone, Copy, Debug)]
pub struct SpendingLimitPolicy;

/// The installation parameters stored for `(account, rule_id)`, if any.
pub open spec fn stored_params(env: &Env, account: Seq<char>, rule_id: u32) -> Option<InstallParamsView> {
    let k = params_slot(account, rule_id);
    if env.contents().contains_key(k) {
        match env.contents()[k] {
            ValueView::SpendingParams(p) => Some(p),
            _ => None,
        }
    } else {
        None
    }
}

/// The state stored for `(account, rule_id)`, if any.
pub open spec fn stored_state(env: &Env, account: Seq<char>, rule_id: u32) -> Option<SpendingState> {
    let k = state_slot(account, rule_id);
    if env.contents().contains_key(k) {
        match env.contents()[k] {
            ValueView::SpendingState(s) => Some(s),
            _ => None,
        }
    } else {
        None
    }
}

impl SpendingLimitPolicy {
    /// Install the policy for a specific smart account and context rule:
    /// stores the parameters and starts an empty window at the current ledger.
    pub fn install(&self, env: &mut Env, account: &str, context_rule_id: u32, params: InstallParams) -> (r: PolicyResult<()>)
        requires
            old(env).wf(),
        ensures
            final(env).wf(),
            final(env).ledger() == old(env).ledger(),
            r is Ok <==> params.valid(),
            r is Err ==> r == Err::<(), PolicyError>(PolicyError::InvalidParams) && *final(env) == *old(env),
            r is Ok ==> final(env).contents() == old(env).contents().insert(
                params_slot(account@, context_rule_id),
                ValueView::SpendingParams(params@),
            ).insert(
                state_slot(account@, context_rule_id),
                ValueView::SpendingState(SpendingState { spent_amount: 0, window_start: old(env).ledger() }),
            ),
    {
        params.validate()?;
        let seq = env.sequence();
        PolicyStorage::set(env, account, context_rule_id, name_key("params"), StoredValue::SpendingParams(params));
        PolicyStorage::set(
            env,
            account,
            context_rule_id,
            name_key("state"),
            StoredValue::SpendingState(SpendingState { spent_amount: 0, window_start: seq }),
        );
        Ok(())
    }

    /// Uninstall the policy: both slots are overwritten with the unit value.
    /// Fails with `NotFound` when nothing was installed.
    pub fn uninstall(&self, env: &mut Env, account: &str, context_rule_id: u32) -> (r: PolicyResult<()>)
        requires
            old(env).wf(),
        ensures
            final(env).wf(),
            final(env).ledger() == old(env).ledger(),
            r is Ok <==> old(env).contents().contains_key(params_slot(account@, context_rule_id)),
            r is Err ==> r == Err::<(), PolicyError>(PolicyError::NotFound) && *final(env) == *old(env),
            r is Ok ==> final(env).contents() == old(env).contents().insert(
                params_slot(account@, context_rule_id),
                ValueView::Unit,
            ).insert(state_slot(account@, context_rule_id), ValueView::Unit),
    {
        if !PolicyStorage::has(env, account, context_rule_id, name_key("params")) {
            return Err(PolicyError::NotFound);
        }
        PolicyStorage::set(env, account, context_rule_id, name_key("params"), StoredValue::Unit);
        PolicyStorage::set(env, account, context_rule_id, name_key("state"), StoredValue::Unit);
        Ok(())
    }

    /// Get current spending state.
    pub fn get_state(&self, env: &Env, account: &str, context_rule_id: u32) -> (r: PolicyResult<SpendingState>)
        requires
            env.wf(),
        ensures
            r == (match stored_state(env, account@, context_rule_id) {
                Some(s) => Ok::<SpendingState, PolicyError>(s),
                None => Err(PolicyError::NotFound),
            }),
    {
        match PolicyStorage::get(env, account, context_rule_id, name_key("state")) {
            Some(StoredValue::SpendingState(s)) => Ok(s),
            _ => Err(PolicyError::NotFound),
        }
    }

    /// Get installation parameters.
    pub fn get_params(&self, env: &Env, account: &str, context_rule_id: u32) -> (r: PolicyResult<InstallParams>)
        requires
            env.wf(),
        ensures
            match stored_params(env, account@, context_rule_id) {
                Some(p) => r matches Ok(q) && q@ == p,
                None => r == Err::<InstallParams, PolicyError>(PolicyError::NotFound),
            },
    {
        match PolicyStorage::get(env, account, context_rule_id, name_key("params")) {
            Some(StoredValue::SpendingParams(p)) => Ok(p),
            _ => Err(PolicyError::NotFound),
        }
    }

    /// Enforce the limit for one authorized call: a transfer of the limited
    /// asset rolls the window forward and adds its amount, and the sum is
    /// saved; other calls pass without effect. The policy must be installed,
    /// and the spend within the cap ([`check_spend`] decides); a spend beyond
    /// the cap is refused outright.
    pub fn enforce(&self, env: &mut Env, context: &Context, context_rule_id: u32, smart_account: &str) -> (r: PolicyResult<()>)
        requires
            old(env).wf(),
            stored_params(old(env), smart_account@, context_rule_id) is Some,
            spend_allowed(
                stored_params(old(env), smart_account@, context_rule_id)->Some_0,
                current_spending(old(env), smart_account@, context_rule_id),
                old(env).ledger(),
                context,
            ),
        ensures
            final(env).wf(),
            final(env).ledger() == old(env).ledger(),
            r is Ok,
            ({
                let p = stored_params(old(env), smart_account@, context_rule_id)->Some_0;
                let a = counted_amount(p, context);
                &&& a == 0 ==> *final(env) == *old(env)
                &&& a > 0 ==> final(env).contents() == old(env).contents().insert(
                    state_slot(smart_account@, context_rule_id),
                    ValueView::SpendingState(
                        spend_step(p, current_spending(old(env), smart_account@, context_rule_id), old(env).ledger(), a),
                    ),
                )
            }),
    {
        let params = match PolicyStorage::get(env, smart_account, context_rule_id, name_key("params")) {
            Some(StoredValue::SpendingParams(p)) => p,
            _ => {
                return Err(PolicyError::NotFound);
            },
        };
        let seq = env.sequence();
        let state = match PolicyStorage::get(env, smart_account, context_rule_id, name_key("state")) {
            Some(StoredValue::SpendingState(s)) => s,
            _ => SpendingState { spent_amount: 0, window_start: seq },
        };
        let (state, within) = check_spend(&params, state, seq, context);
        if !within {
            return Err(PolicyError::ConstraintViolated);
        }
        let amount = if is_transfer_of(context, params.asset_id.as_str()) {
            extract_transfer_amount(context)
        } else {
            0
        };
        if amount > 0 {
            PolicyStorage::set(env, smart_account, context_rule_id, name_key("state"), StoredValue::SpendingState(state));
        }
        Ok(())
    }
}

/// A spend at ledger `current` stays within the cap: nothing is counted, or
/// the rolled window plus the counted amount is at most `cap_amount`.
pub open spec fn spend_allowed(p: InstallParamsView, state: SpendingState, current: u32, context: &Context) -> bool {
    let a = counted_amount(p, context);
    a == 0 || spend_step(p, state, current, a).spent_amount <= p.cap_amount
}

/// The state after a call (the window rolled to `current`, the counted
/// amount added), and whether the spend stays within the cap.
pub fn check_spend(params: &InstallParams, state: SpendingState, current: u32, context: &Context) -> (r: (
    SpendingState,
    bool,
))
    ensures
        r.0 == spend_step(params@, state, current, counted_amount(params@, context)),
        r.1 == spend_allowed(params@, state, current, context),
{
    let mut s = roll_window(params.window_ledgers, state, current);
    let amount = if is_transfer_of(context, params.asset_id.as_str()) {
        extract_transfer_amount(context)
    } else {
        0
    };
    s.spent_amount = s.spent_amount.saturating_add(amount);
    (s, amount == 0 || s.spent_amount <= params.cap_amount)
}

/// The amount of a transfer as the policy counts it: the `amount` argument
/// of `transfer(from, to, amount: i128)`, zero when it is not positive
/// (or the call is no transfer), and at most `u64::MAX`.
pub open spec fn spend_amount(context: &Context) -> u64 {
    let a = transfer_amount(context);
    if a <= 0 {
        0
    } else if a > u64::MAX {
        u64::MAX
    } else {
        a as u64
    }
}

/// The call is made on the contract `asset`.
pub open spec fn called_contract_is(context: &Context, asset: Seq<char>) -> bool {
    match context {
        Context::Contract(c) => c.contract@ == asset,
        Context::CreateContract => false,
    }
}

/// The amount counted against the limit: that of a transfer of the limited
/// asset, else zero.
pub open spec fn counted_amount(p: InstallParamsView, context: &Context) -> u64 {
    if called_contract_is(context, p.asset_id) {
        spend_amount(context)
    } else {
        0
    }
}

/// The spending stored for `(account, rule_id)`, or an empty window starting
/// at the current ledger.
pub open spec fn current_spending(env: &Env, account: Seq<char>, rule_id: u32) -> SpendingState {
    match stored_state(env, account, rule_id) {
        Some(s) => s,
        None => SpendingState { spent_amount: 0, window_start: env.ledger() },
    }
}

/// The window rolled to `current` with `amount` added.
pub open spec fn spend_step(p: InstallParamsView, state: SpendingState, current: u32, amount: u64) -> SpendingState {
    let s = rolled(p.window_ledgers, state, current);
    SpendingState { spent_amount: spent_after(s.spent_amount, amount), window_start: s.window_start }
}

fn is_transfer_of(context: &Context, asset: &str) -> (r: bool)
    ensures
        r == called_contract_is(context, asset@),
{
    match context {
        Context::Contract(c) => crate::text::str_eq(c.contract.as_str(), asset),
        Context::CreateContract => false,
    }
}

/// The transferred amount of an authorized call (see [`spend_amount`]).
pub fn extract_transfer_amount(context: &Context) -> (r: u64)
    ensures
        r == spend_amount(context),
{
    let a = sac_transfer_amount(context);
    if a <= 0 {
        0
    } else if a > u64::MAX as i128 {
        u64::MAX
    } else {
        a as u64
    }
}

/// The cap holds within a window: while the window has not expired, a
/// spend is accepted only when the spending so far plus its amount stays
/// within the cap, and that sum is what is recorded. (A cap of `u64::MAX`
/// is left out: a saturated sum meets it.)
pub proof fn lemma_spending_cap(p: InstallParamsView, state: SpendingState, current: u32, amount: u64)
    requires
        p.cap_amount < u64::MAX,
        elapsed(current, state.window_start) < p.window_ledgers,
        spend_step(p, state, current, amount).spent_amount <= p.cap_amount,
    ensures
        state.spent_amount + amount <= p.cap_amount,
        spend_step(p, state, current, amount) == (SpendingState {
            spent_amount: (state.spent_amount + amount) as u64,
            window_start: state.window_start,
        }),
{
    assert(rolled(p.window_ledgers, state, current) == state);
}

} // verus!
