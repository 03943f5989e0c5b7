//! Time window policy: at most one transaction per window of ledgers, the
//! first one no earlier than an offset.
use vstd::prelude::*;

use crate::context::{EnforceError, Signer};
use crate::storage::{
    name_key, params_slot, state_slot, Env, PolicyError, PolicyResult, PolicyStorage, StoredValue,
    ValidateParams, ValueView,
};

verus! {

// ── Install parameters ──────────────────────────────────────────────────────

/// The length of the window.
#[derive(Clone, Copy, Debug, PartialEq, Eq, Structural)]
pub enum WindowType {
    /// Allow only once per day (24 hours)
    Daily,
    /// Allow only once per week (7 days)
    Weekly,
    /// Allow only once per month (30 days)
    Monthly,
    /// Custom window in ledgers
    Custom(u32),
}

/// Installation parameters of the time window policy.
#[derive(Clone, Copy, Debug, PartialEq, Eq, Structural)]
pub struct InstallParams {
    /// Type of time window to enforce
    pub window_type: WindowType,
    /// Offset in ledgers from the start of the window (e.g., allow transactions after ledger X)
    pub offset_ledgers: u32,
}

impl InstallParams {
    /// Parameters are valid unless they ask for an empty custom window.
    pub open spec fn valid(self) -> bool {
        !(self.window_type matches WindowType::Custom(n) && n == 0)
    }
}

impl ValidateParams for InstallParams {
    fn validate(&self) -> (r: PolicyResult<()>)
        ensures
            r == (if self.valid() {
                Ok::<(), PolicyError>(())
            } else {
                Err(PolicyError::InvalidParams)
            }),
    {
        if let WindowType::Custom(ledgers) = self.window_type {
            if ledgers == 0 {
                return Err(PolicyError::InvalidParams);
            }
        }
        Ok(())
    }
}

// ── Policy state ────────────────────────────────────────────────────────────

/// The last successful execution.
#[derive(Clone, Copy, Debug, PartialEq, Eq, Structural)]
pub struct TimeWindowState {
    /// Ledger sequence of the last successful transaction; `None` before
    /// the first one
    pub last_execution: Option<u32>,
}

/// Ledgers per day: 24 hours of 60 minutes at about 6 ledgers per minute.
pub const LEDGERS_PER_DAY: u32 = 8640;

/// The window length in ledgers.
pub open spec fn window_ledgers(params: InstallParams) -> u32 {
    match params.window_type {
        WindowType::Daily => LEDGERS_PER_DAY,
        WindowType::Weekly => (7 * LEDGERS_PER_DAY) as u32,
        WindowType::Monthly => (30 * LEDGERS_PER_DAY) as u32,
        WindowType::Custom(ledgers) => ledgers,
    }
}

/// The end of the window that started at the last execution does not pass
/// `u32::MAX` (so it can be computed).
pub open spec fn window_fits(params: InstallParams, state: TimeWindowState) -> bool {
    match state.last_execution {
        None => true,
        Some(last) => last + window_ledgers(params) <= u32::MAX,
    }
}

/// A transaction is allowed at `current_ledger`: the first one once the
/// offset is reached, every later one once a full window has passed since
/// the last.
pub open spec fn within_window(params: InstallParams, state: TimeWindowState, current_ledger: u32) -> bool {
    match state.last_execution {
        None => current_ledger >= params.offset_ledgers,
        Some(last) => current_ledger >= last + window_ledgers(params),
    }
}

// ── Policy implementation ───────────────────────────────────────────────────

/// The time window policy contract.
#[derive(Clone, Copy, Debug)]
pub struct TimeWindowPolicy;

/// The installation parameters stored for `(account, rule_id)`, if any.
pub open spec fn stored_params(env: &Env, account: Seq<char>, rule_id: u32) -> Option<InstallParams> {
    let k = params_slot(account, rule_id);
    if env.contents().contains_key(k) {
        match env.contents()[k] {
            ValueView::TimeWindowParams(p) => Some(p),
            _ => None,
        }
    } else {
        None
    }
}

/// The state stored for `(account, rule_id)`, if any.
pub open spec fn stored_state(env: &Env, account: Seq<char>, rule_id: u32) -> Option<TimeWindowState> {
    let k = state_slot(account, rule_id);
    if env.contents().contains_key(k) {
        match env.contents()[k] {
            ValueView::TimeWindowState(s) => Some(s),
            _ => None,
        }
    } else {
        None
    }
}

/// The stored window of `(account, rule_id)` can be computed (or is not installed).
pub open spec fn stored_window_fits(env: &Env, account: Seq<char>, rule_id: u32) -> bool {
    match (stored_params(env, account, rule_id), stored_state(env, account, rule_id)) {
        (Some(p), Some(s)) => window_fits(p, s),
        _ => true,
    }
}

impl TimeWindowPolicy {
    /// Calculate window size in ledgers based on window type.
    pub fn window_size(&self, params: &InstallParams) -> (r: u32)
        ensures
            r == window_ledgers(*params),
    {
        match params.window_type {
            WindowType::Daily => 24 * 60 * 6,
            WindowType::Weekly => 7 * 24 * 60 * 6,
            WindowType::Monthly => 30 * 24 * 60 * 6,
            WindowType::Custom(ledgers) => ledgers,
        }
    }

    /// Check if current ledger is within allowed window.
    pub fn is_within_window(&self, env: &Env, params: &InstallParams, state: &TimeWindowState) -> (r: bool)
        requires
            window_fits(*params, *state),
        ensures
            r == within_window(*params, *state, env.ledger()),
    {
        let current_ledger = env.sequence();
        let window_size = self.window_size(params);
        match state.last_execution {
            None => current_ledger >= params.offset_ledgers,
            Some(last) => {
                let next_window_start = last + window_size;
                current_ledger >= next_window_start
            },
        }
    }

    /// Install the policy for a specific smart account and context rule.
    pub fn install(&self, env: &mut Env, account: &str, context_rule_id: u32, params: InstallParams) -> (r: PolicyResult<()>)
        requires
            old(env).wf(),
        ensures
            final(env).wf(),
            final(env).ledger() == old(env).ledger(),
            r is Ok <==> params.valid(),
            r is Err ==> r == Err::<(), PolicyError>(PolicyError::InvalidParams) && *final(env) == *old(env),
            r is Ok ==> final(env).contents() == old(env).contents().insert(
                params_slot(account@, context_rule_id),
                ValueView::TimeWindowParams(params),
            ).insert(
                state_slot(account@, context_rule_id),
                ValueView::TimeWindowState(TimeWindowState { last_execution: None }),
            ),
    {
        params.validate()?;
        PolicyStorage::set(env, account, context_rule_id, name_key("params"), StoredValue::TimeWindowParams(params));
        let state = TimeWindowState { last_execution: None };
        PolicyStorage::set(env, account, context_rule_id, name_key("state"), StoredValue::TimeWindowState(state));
        Ok(())
    }

    /// Uninstall the policy: both slots are overwritten with the unit value.
    pub fn uninstall(&self, env: &mut Env, account: &str, context_rule_id: u32) -> (r: PolicyResult<()>)
        requires
            old(env).wf(),
        ensures
            final(env).wf(),
            final(env).ledger() == old(env).ledger(),
            r is Ok,
            final(env).contents() == old(env).contents().insert(
                params_slot(account@, context_rule_id),
                ValueView::Unit,
            ).insert(state_slot(account@, context_rule_id), ValueView::Unit),
    {
        PolicyStorage::set(env, account, context_rule_id, name_key("params"), StoredValue::Unit);
        PolicyStorage::set(env, account, context_rule_id, name_key("state"), StoredValue::Unit);
        Ok(())
    }

    /// Get current window state.
    pub fn get_state(&self, env: &Env, account: &str, context_rule_id: u32) -> (r: PolicyResult<TimeWindowState>)
        requires
            env.wf(),
        ensures
            r == (match stored_state(env, account@, context_rule_id) {
                Some(s) => Ok::<TimeWindowState, PolicyError>(s),
                None => Err(PolicyError::NotFound),
            }),
    {
        match PolicyStorage::get(env, account, context_rule_id, name_key("state")) {
            Some(StoredValue::TimeWindowState(s)) => Ok(s),
            _ => Err(PolicyError::NotFound),
        }
    }

    /// Get installation parameters.
    pub fn get_params(&self, env: &Env, account: &str, context_rule_id: u32) -> (r: PolicyResult<InstallParams>)
        requires
            env.wf(),
        ensures
            r == (match stored_params(env, account@, context_rule_id) {
                Some(p) => Ok::<InstallParams, PolicyError>(p),
                None => Err(PolicyError::NotFound),
            }),
    {
        match PolicyStorage::get(env, account, context_rule_id, name_key("params")) {
            Some(StoredValue::TimeWindowParams(p)) => Ok(p),
            _ => Err(PolicyError::NotFound),
        }
    }

    /// Simulate whether a transaction would be allowed at the current ledger.
    pub fn simulate_check(&self, env: &Env, account: &str, context_rule_id: u32) -> (r: PolicyResult<bool>)
        requires
            env.wf(),
            stored_window_fits(env, account@, context_rule_id),
        ensures
            r == (match (stored_params(env, account@, context_rule_id), stored_state(env, account@, context_rule_id)) {
                (Some(p), Some(s)) => Ok::<bool, PolicyError>(within_window(p, s, env.ledger())),
                _ => Err(PolicyError::NotFound),
            }),
    {
        let params = match PolicyStorage::get(env, account, context_rule_id, name_key("params")) {
            Some(StoredValue::TimeWindowParams(p)) => p,
            _ => {
                return Err(PolicyError::NotFound);
            },
        };
        let state = match PolicyStorage::get(env, account, context_rule_id, name_key("state")) {
            Some(StoredValue::TimeWindowState(s)) => s,
            _ => {
                return Err(PolicyError::NotFound);
            },
        };
        Ok(self.is_within_window(env, &params, &state))
    }

    /// Enforce the window for one authorized call: refused unless the signer
    /// is the smart account, the policy is installed for it, and the ledger
    /// is within the window; an allowed call records the current ledger as
    /// the last execution.
    pub fn enforce(&self, env: &mut Env, context_rule_id: u32, signer: &Signer) -> (r: Result<(), EnforceError>)
        requires
            old(env).wf(),
            signer matches Signer::SmartAccount(a) ==> stored_window_fits(old(env), a@, context_rule_id),
        ensures
            final(env).wf(),
            final(env).ledger() == old(env).ledger(),
            match signer {
                Signer::SmartAccount(a) => match (
                    stored_params(old(env), a@, context_rule_id),
                    stored_state(old(env), a@, context_rule_id),
                ) {
                    (Some(p), Some(s)) => if within_window(p, s, old(env).ledger()) {
                        r is Ok && final(env).contents() == old(env).contents().insert(
                            state_slot(a@, context_rule_id),
                            ValueView::TimeWindowState(TimeWindowState { last_execution: Some(old(env).ledger()) }),
                        )
                    } else {
                        r is Err && *final(env) == *old(env)
                    },
                    _ => r is Err && *final(env) == *old(env),
                },
                Signer::Other(_) => r is Err && *final(env) == *old(env),
            },
    {
        let account = match signer {
            Signer::SmartAccount(addr) => addr,
            _ => {
                return Err(EnforceError::Denied);
            },
        };
        let params = match PolicyStorage::get(env, account.as_str(), context_rule_id, name_key("params")) {
            Some(StoredValue::TimeWindowParams(p)) => p,
            _ => {
                return Err(EnforceError::Denied);
            },
        };
        let mut state = match PolicyStorage::get(env, account.as_str(), context_rule_id, name_key("state")) {
            Some(StoredValue::TimeWindowState(s)) => s,
            _ => {
                return Err(EnforceError::Denied);
            },
        };
        if !self.is_within_window(env, &params, &state) {
            return Err(EnforceError::Denied);
        }
        state.last_execution = Some(env.sequence());
        PolicyStorage::set(env, account.as_str(), context_rule_id, name_key("state"), StoredValue::TimeWindowState(state));
        Ok(())
    }

    /// The policy's weight.
    pub fn weight(&self) -> (r: u32)
        ensures
            r == 5,
    {
        5
    }
}

/// One execution per window: after an execution at ledger `last`, no
/// execution is allowed before a full window has passed.
pub proof fn lemma_one_execution_per_window(p: InstallParams, last: u32, later: u32)
    requires
        later < last + window_ledgers(p),
    ensures
        !within_window(p, TimeWindowState { last_execution: Some(last) }, later),
{
}

} // verus!
