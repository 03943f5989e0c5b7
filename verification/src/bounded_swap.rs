//! Soroswap bounded swap policy: a delegated agent may swap on Soroswap
//! with at most 5% slippage (500 bps) and at most 500 USDC per day.
use vstd::prelude::*;

use crate::num::saturating_add_i128;
use crate::storage::{elapsed, Address, Env, KeyView, StorageKey, StoredValue, ValueView};

verus! {

/// Spending in the current window.
#[derive(Clone, Copy, Debug, PartialEq, Eq, Structural)]
pub struct SpendState {
    pub spent: i128,
    pub window_start_ledger: u32,
}

/// Why the policy refuses.
#[derive(Clone, Copy, Debug, PartialEq, Eq, Structural)]
pub enum PolicyError {
    SpendingLimitExceeded,
    SlippageExceeded,
    NotInstalled,
}

/// 500 USDC per day (7 decimals).
pub const SPENDING_CAP: i128 = 5_000_000_000;

/// 1 day in ledgers.
pub const WINDOW_LEDGERS: u32 = 17_280;

/// 5% slippage = 500 bps.
pub const MAX_SLIPPAGE_BPS: u32 = 500;

/// The state stored for `(account, rule)`, if any.
pub open spec fn stored_state(env: &Env, account: Seq<char>, rule: Seq<char>) -> Option<SpendState> {
    let k = KeyView::SpendState(account, rule);
    if env.contents().contains_key(k) {
        match env.contents()[k] {
            ValueView::SwapSpendState(s) => Some(s),
            _ => None,
        }
    } else {
        None
    }
}

/// The state after rolling the daily window to `current` and adding `amount`.
pub open spec fn after_swap(state: SpendState, current: u32, amount: i128) -> SpendState {
    let rolled = if elapsed(current, state.window_start_ledger) >= WINDOW_LEDGERS {
        SpendState { spent: 0, window_start_ledger: current }
    } else {
        state
    };
    SpendState { spent: saturating_add_i128(rolled.spent, amount), window_start_ledger: rolled.window_start_ledger }
}

/// Integer division rounding toward zero, as Rust's `/` does.
pub open spec fn div_toward_zero(a: int, b: int) -> int {
    if a >= 0 {
        a / b
    } else {
        -((-a) / b)
    }
}

/// The least acceptable output for an input amount: the input less 5%.
pub open spec fn min_output(amount_in: i128) -> int {
    amount_in - div_toward_zero(amount_in * MAX_SLIPPAGE_BPS, 10_000)
}

/// The slippage computation stays within `i128`.
pub open spec fn slippage_computable(amount_in: i128) -> bool {
    i128::MIN <= amount_in * MAX_SLIPPAGE_BPS <= i128::MAX && i128::MIN <= min_output(amount_in) <= i128::MAX
}

fn key(account: &str, rule: &str) -> (k: StorageKey)
    ensures
        k@ == KeyView::SpendState(account@, rule@),
{
    StorageKey::SpendState(crate::text::to_owned_string(account), crate::text::to_owned_string(rule))
}

/// The bounded swap policy contract.
#[derive(Clone, Copy, Debug)]
pub struct SoroswapBoundedSwapPolicy;

impl SoroswapBoundedSwapPolicy {
    /// Install the policy: starts an empty window at the current ledger.
    pub fn install(&self, env: &mut Env, account: &Address, context_rule_id: &str)
        requires
            old(env).wf(),
        ensures
            final(env).wf(),
            final(env).ledger() == old(env).ledger(),
            final(env).contents() == old(env).contents().insert(
                KeyView::SpendState(account@, context_rule_id@),
                ValueView::SwapSpendState(SpendState { spent: 0, window_start_ledger: old(env).ledger() }),
            ),
    {
        let seq = env.sequence();
        env.set(key(account.as_str(), context_rule_id), StoredValue::SwapSpendState(SpendState { spent: 0, window_start_ledger: seq }));
    }

    /// Whether the policy is installed for the account and rule.
    pub fn can_enforce(
        &self,
        env: &Env,
        account: &Address,
        context_rule_id: &str,
        _contract: &Address,
        _function: &str,
    ) -> (r: Result<(), PolicyError>)
        requires
            env.wf(),
        ensures
            r is Ok <==> stored_state(env, account@, context_rule_id@) is Some,
            r is Err ==> r == Err::<(), PolicyError>(PolicyError::NotInstalled),
    {
        match env.get(&key(account.as_str(), context_rule_id)) {
            Some(StoredValue::SwapSpendState(_)) => Ok(()),
            _ => Err(PolicyError::NotInstalled),
        }
    }

    /// Enforce the daily cap for a swap of `amount`: the window is rolled
    /// forward, the amount added, and the state saved unless the cap is
    /// exceeded.
    pub fn enforce(
        &self,
        env: &mut Env,
        account: &Address,
        context_rule_id: &str,
        _contract: &Address,
        _function: &str,
        amount: i128,
    ) -> (r: Result<(), PolicyError>)
        requires
            old(env).wf(),
        ensures
            final(env).wf(),
            final(env).ledger() == old(env).ledger(),
            match stored_state(old(env), account@, context_rule_id@) {
                None => r == Err::<(), PolicyError>(PolicyError::NotInstalled) && *final(env) == *old(env),
                Some(s) => {
                    let n = after_swap(s, old(env).ledger(), amount);
                    if n.spent > SPENDING_CAP {
                        r == Err::<(), PolicyError>(PolicyError::SpendingLimitExceeded) && *final(env) == *old(env)
                    } else {
                        r is Ok && final(env).contents() == old(env).contents().insert(
                            KeyView::SpendState(account@, context_rule_id@),
                            ValueView::SwapSpendState(n),
                        )
                    }
                },
            },
    {
        let k = key(account.as_str(), context_rule_id);
        let mut state = match env.get(&k) {
            Some(StoredValue::SwapSpendState(s)) => s,
            _ => {
                return Err(PolicyError::NotInstalled);
            },
        };
        let cur = env.sequence();
        if cur.saturating_sub(state.window_start_ledger) >= WINDOW_LEDGERS {
            state.spent = 0;
            state.window_start_ledger = cur;
        }
        state.spent = crate::num::saturating_add(state.spent, amount);
        if state.spent > SPENDING_CAP {
            return Err(PolicyError::SpendingLimitExceeded);
        }
        env.set(k, StoredValue::SwapSpendState(state));
        Ok(())
    }

    /// Uninstall the policy: removes the state.
    pub fn uninstall(&self, env: &mut Env, account: &Address, context_rule_id: &str)
        requires
            old(env).wf(),
        ensures
            final(env).wf(),
            final(env).ledger() == old(env).ledger(),
            final(env).contents() == old(env).contents().remove(KeyView::SpendState(account@, context_rule_id@)),
    {
        env.remove(&key(account.as_str(), context_rule_id));
    }

    /// Check slippage: `amount_out` must be at least `amount_in` less 5%.
    pub fn check_slippage(&self, amount_in: i128, amount_out: i128) -> (r: Result<(), PolicyError>)
        requires
            slippage_computable(amount_in),
        ensures
            r is Ok <==> amount_out >= min_output(amount_in),
            r is Err ==> r == Err::<(), PolicyError>(PolicyError::SlippageExceeded),
    {
        let min_out = amount_in - (amount_in * MAX_SLIPPAGE_BPS as i128 / 10_000);
        if amount_out < min_out {
            return Err(PolicyError::SlippageExceeded);
        }
        Ok(())
    }
}

/// At most the cap per day: within one window, a swap is accepted only when
/// the window's spending so far plus its amount stays within the cap, and
/// the window keeps its start.
pub proof fn lemma_daily_cap(state: SpendState, current: u32, amount: i128)
    requires
        0 <= state.spent,
        0 <= amount,
        elapsed(current, state.window_start_ledger) < WINDOW_LEDGERS,
        after_swap(state, current, amount).spent <= SPENDING_CAP,
    ensures
        state.spent + amount <= SPENDING_CAP,
        after_swap(state, current, amount) == (SpendState {
            spent: (state.spent + amount) as i128,
            window_start_ledger: state.window_start_ledger,
        }),
{
}

} // verus!
