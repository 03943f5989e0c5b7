//! Frequency limit policy: at most `max_calls` transactions per window of
//! ledgers.
use vstd::prelude::*;

use crate::context::{EnforceError, Signer};
use crate::storage::{
    name_key, params_slot, state_slot, Env, PolicyError, PolicyResult, PolicyStorage, StoredValue,
    ValidateParams, ValueView,
};

verus! {

// ── Install parameters ──────────────────────────────────────────────────────

/// Installation parameters of the frequency limit policy.
#[derive(Clone, Copy, Debug, PartialEq, Eq, Structural)]
pub struct InstallParams {
    /// Maximum number of calls allowed in the window
    pub max_calls: u32,
    /// Window size in ledgers
    pub window_ledgers: u32,
    /// Whether to reset count on window expiry (true) or use sliding window (false)
    pub reset_on_expiry: bool,
}

impl InstallParams {
    /// Parameters are valid when the call budget and the window are non-zero.
    pub open spec fn valid(self) -> bool {
        self.max_calls != 0 && self.window_ledgers != 0
    }
}

impl ValidateParams for InstallParams {
    fn validate(&self) -> (r: PolicyResult<()>)
        ensures
            r == (if self.valid() {
                Ok::<(), PolicyError>(())
            } else {
                Err(PolicyError::InvalidParams)
            }),
    {
        if self.max_calls == 0 {
            return Err(PolicyError::InvalidParams);
        }
        if self.window_ledgers == 0 {
            return Err(PolicyError::InvalidParams);
        }
        Ok(())
    }
}

// ── Policy state ────────────────────────────────────────────────────────────

/// Calls counted in the current window.
#[derive(Clone, Copy, Debug, PartialEq, Eq, Structural)]
pub struct FrequencyState {
    /// Number of calls made in current window
    pub call_count: u32,
    /// Ledger sequence when the current window started
    pub window_start: u32,
    /// Ledger sequence of the last call
    pub last_call: u32,
}

impl Default for FrequencyState {
    fn default() -> (r: Self)
        ensures
            r.call_count == 0 && r.window_start == 0 && r.last_call == 0,
    {
        FrequencyState { call_count: 0, window_start: 0, last_call: 0 }
    }
}

/// The end of the current window does not pass `u32::MAX`.
pub open spec fn window_fits(params: InstallParams, state: FrequencyState) -> bool {
    state.window_start + params.window_ledgers <= u32::MAX
}

/// The state once the window is brought up to `current_ledger`: when the
/// window has ended, the count restarts from zero at the current ledger.
/// Both window modes behave the same way.
pub open spec fn updated(params: InstallParams, state: FrequencyState, current_ledger: u32) -> FrequencyState {
    if current_ledger >= state.window_start + params.window_ledgers {
        FrequencyState { call_count: 0, window_start: current_ledger, last_call: state.last_call }
    } else {
        state
    }
}

// ── Policy implementation ───────────────────────────────────────────────────

/// The frequency limit policy contract.
#[derive(Clone, Copy, Debug)]
pub struct FrequencyLimitPolicy;

/// The installation parameters stored for `(account, rule_id)`, if any.
pub open spec fn stored_params(env: &Env, account: Seq<char>, rule_id: u32) -> Option<InstallParams> {
    let k = params_slot(account, rule_id);
    if env.contents().contains_key(k) {
        match env.contents()[k] {
            ValueView::FrequencyParams(p) => Some(p),
            _ => None,
        }
    } else {
        None
    }
}

/// The state stored for `(account, rule_id)`, if any.
pub open spec fn stored_state(env: &Env, account: Seq<char>, rule_id: u32) -> Option<FrequencyState> {
    let k = state_slot(account, rule_id);
    if env.contents().contains_key(k) {
        match env.contents()[k] {
            ValueView::FrequencyState(s) => Some(s),
            _ => None,
        }
    } else {
        None
    }
}

/// The stored window of `(account, rule_id)` can be computed (or is not installed).
pub open spec fn stored_window_fits(env: &Env, account: Seq<char>, rule_id: u32) -> bool {
    match (stored_params(env, account, rule_id), stored_state(env, account, rule_id)) {
        (Some(p), Some(s)) => window_fits(p, s),
        _ => true,
    }
}

/// What one `enforce` call does: from the ledger `before`, with result `r`
/// and the ledger `after`. Refused unless the signer is the smart account,
/// the policy is installed for it and the window brought up to the current
/// ledger has counted fewer than `max_calls` calls; an allowed call stores
/// the count plus one, the window start and the current ledger as last call.
/// A refused call changes nothing.
pub open spec fn enforce_effect(before: Env, after: Env, r: Result<(), EnforceError>, rule_id: u32, signer: Signer) -> bool {
    match signer {
        Signer::SmartAccount(a) => match (stored_params(&before, a@, rule_id), stored_state(&before, a@, rule_id)) {
            (Some(p), Some(s)) => {
                let u = updated(p, s, before.ledger());
                if u.call_count < p.max_calls {
                    r is Ok && after.contents() == before.contents().insert(
                        state_slot(a@, rule_id),
                        ValueView::FrequencyState(FrequencyState {
                            call_count: (u.call_count + 1) as u32,
                            window_start: u.window_start,
                            last_call: before.ledger(),
                        }),
                    )
                } else {
                    r is Err && after == before
                }
            },
            _ => r is Err && after == before,
        },
        Signer::Other(_) => r is Err && after == before,
    }
}

impl FrequencyLimitPolicy {
    /// Check and update window based on current ledger.
    pub fn update_window(&self, env: &Env, params: &InstallParams, state: FrequencyState) -> (r: FrequencyState)
        requires
            window_fits(*params, state),
        ensures
            r == updated(*params, state, env.ledger()),
    {
        let current_ledger = env.sequence();
        let mut state = state;
        if params.reset_on_expiry {
            if current_ledger >= state.window_start + params.window_ledgers {
                state.call_count = 0;
                state.window_start = current_ledger;
            }
        } else {
            if current_ledger >= state.window_start + params.window_ledgers {
                state.call_count = 0;
                state.window_start = current_ledger;
            }
        }
        state
    }

    /// Install the policy for a specific smart account and context rule.
    pub fn install(&self, env: &mut Env, account: &str, context_rule_id: u32, params: InstallParams) -> (r: PolicyResult<()>)
        requires
            old(env).wf(),
        ensures
            final(env).wf(),
            final(env).ledger() == old(env).ledger(),
            r is Ok <==> params.valid(),
            r is Err ==> r == Err::<(), PolicyError>(PolicyError::InvalidParams) && *final(env) == *old(env),
            r is Ok ==> final(env).contents() == old(env).contents().insert(
                params_slot(account@, context_rule_id),
                ValueView::FrequencyParams(params),
            ).insert(
                state_slot(account@, context_rule_id),
                ValueView::FrequencyState(
                    FrequencyState { call_count: 0, window_start: old(env).ledger(), last_call: 0 },
                ),
            ),
    {
        params.validate()?;
        PolicyStorage::set(env, account, context_rule_id, name_key("params"), StoredValue::FrequencyParams(params));
        let state = FrequencyState { call_count: 0, window_start: env.sequence(), last_call: 0 };
        PolicyStorage::set(env, account, context_rule_id, name_key("state"), StoredValue::FrequencyState(state));
        Ok(())
    }

    /// Uninstall the policy: both slots are overwritten with the unit value.
    pub fn uninstall(&self, env: &mut Env, account: &str, context_rule_id: u32) -> (r: PolicyResult<()>)
        requires
            old(env).wf(),
        ensures
            final(env).wf(),
            final(env).ledger() == old(env).ledger(),
            r is Ok,
            final(env).contents() == old(env).contents().insert(
                params_slot(account@, context_rule_id),
                ValueView::Unit,
            ).insert(state_slot(account@, context_rule_id), ValueView::Unit),
    {
        PolicyStorage::set(env, account, context_rule_id, name_key("params"), StoredValue::Unit);
        PolicyStorage::set(env, account, context_rule_id, name_key("state"), StoredValue::Unit);
        Ok(())
    }

    /// Get current frequency state.
    pub fn get_state(&self, env: &Env, account: &str, context_rule_id: u32) -> (r: PolicyResult<FrequencyState>)
        requires
            env.wf(),
        ensures
            r == (match stored_state(env, account@, context_rule_id) {
                Some(s) => Ok::<FrequencyState, PolicyError>(s),
                None => Err(PolicyError::NotFound),
            }),
    {
        match PolicyStorage::get(env, account, context_rule_id, name_key("state")) {
            Some(StoredValue::FrequencyState(s)) => Ok(s),
            _ => Err(PolicyError::NotFound),
        }
    }

    /// Get installation parameters.
    pub fn get_params(&self, env: &Env, account: &str, context_rule_id: u32) -> (r: PolicyResult<InstallParams>)
        requires
            env.wf(),
        ensures
            r == (match stored_params(env, account@, context_rule_id) {
                Some(p) => Ok::<InstallParams, PolicyError>(p),
                None => Err(PolicyError::NotFound),
            }),
    {
        match PolicyStorage::get(env, account, context_rule_id, name_key("params")) {
            Some(StoredValue::FrequencyParams(p)) => Ok(p),
            _ => Err(PolicyError::NotFound),
        }
    }

    /// Simulate whether another call would be allowed at the current ledger.
    pub fn simulate_check(&self, env: &Env, account: &str, context_rule_id: u32) -> (r: PolicyResult<bool>)
        requires
            env.wf(),
            stored_window_fits(env, account@, context_rule_id),
        ensures
            r == (match (stored_params(env, account@, context_rule_id), stored_state(env, account@, context_rule_id)) {
                (Some(p), Some(s)) => Ok::<bool, PolicyError>(
                    updated(p, s, env.ledger()).call_count < p.max_calls,
                ),
                _ => Err(PolicyError::NotFound),
            }),
    {
        let params = match PolicyStorage::get(env, account, context_rule_id, name_key("params")) {
            Some(StoredValue::FrequencyParams(p)) => p,
            _ => {
                return Err(PolicyError::NotFound);
            },
        };
        let state = match PolicyStorage::get(env, account, context_rule_id, name_key("state")) {
            Some(StoredValue::FrequencyState(s)) => s,
            _ => {
                return Err(PolicyError::NotFound);
            },
        };
        let updated_state = self.update_window(env, &params, state);
        Ok(updated_state.call_count < params.max_calls)
    }

    /// Enforce the limit for one authorized call: refused unless the signer
    /// is the smart account, the policy is installed for it, and fewer than
    /// `max_calls` calls were counted in the current window; an allowed call
    /// is counted and its ledger recorded.
    pub fn enforce(&self, env: &mut Env, context_rule_id: u32, signer: &Signer) -> (r: Result<(), EnforceError>)
        requires
            old(env).wf(),
            signer matches Signer::SmartAccount(a) ==> stored_window_fits(old(env), a@, context_rule_id),
        ensures
            final(env).wf(),
            final(env).ledger() == old(env).ledger(),
            enforce_effect(*old(env), *final(env), r, context_rule_id, *signer),
    {
        let account = match signer {
            Signer::SmartAccount(addr) => addr,
            _ => {
                return Err(EnforceError::Denied);
            },
        };
        let params = match PolicyStorage::get(env, account.as_str(), context_rule_id, name_key("params")) {
            Some(StoredValue::FrequencyParams(p)) => p,
            _ => {
                return Err(EnforceError::Denied);
            },
        };
        let state = match PolicyStorage::get(env, account.as_str(), context_rule_id, name_key("state")) {
            Some(StoredValue::FrequencyState(s)) => s,
            _ => {
                return Err(EnforceError::Denied);
            },
        };
        let mut updated_state = self.update_window(env, &params, state);
        if updated_state.call_count >= params.max_calls {
            return Err(EnforceError::Denied);
        }
        updated_state.call_count = updated_state.call_count + 1;
        updated_state.last_call = env.sequence();
        PolicyStorage::set(
            env,
            account.as_str(),
            context_rule_id,
            name_key("state"),
            StoredValue::FrequencyState(updated_state),
        );
        Ok(())
    }

    /// The policy's weight.
    pub fn weight(&self) -> (r: u32)
        ensures
            r == 5,
    {
        5
    }
}

/// The count never passes the limit: from a window within it, an allowed
/// call (one seen below the limit) leaves the window within it.
pub proof fn lemma_frequency_count_bounded(p: InstallParams, s: FrequencyState, current: u32)
    requires
        s.call_count <= p.max_calls,
    ensures
        updated(p, s, current).call_count <= p.max_calls,
        updated(p, s, current).call_count < p.max_calls ==> updated(p, s, current).call_count + 1 <= p.max_calls,
{
}

/// Within a window the count is never reset, so at most `max_calls` calls
/// are allowed before the window ends.
pub proof fn lemma_frequency_window_kept(p: InstallParams, s: FrequencyState, current: u32)
    requires
        current < s.window_start + p.window_ledgers,
    ensures
        updated(p, s, current) == s,
{
}

/// One enforced call at ledger `current` (as `enforce` does it): whether it
/// is allowed, and the state afterwards.
pub open spec fn call_step(p: InstallParams, s: FrequencyState, current: u32) -> (bool, FrequencyState) {
    let u = updated(p, s, current);
    if u.call_count < p.max_calls {
        (true, FrequencyState { call_count: (u.call_count + 1) as u32, window_start: u.window_start, last_call: current })
    } else {
        (false, s)
    }
}

/// A sequence of enforced calls at the given ledgers: which are allowed, and
/// the state after the last.
pub open spec fn run_calls(p: InstallParams, s: FrequencyState, ledgers: Seq<u32>) -> (Seq<bool>, FrequencyState)
    decreases ledgers.len(),
{
    if ledgers.len() == 0 {
        (Seq::empty(), s)
    } else {
        let step = call_step(p, s, ledgers[0]);
        let rest = run_calls(p, step.1, ledgers.drop_first());
        (seq![step.0] + rest.0, rest.1)
    }
}

/// At most `max_calls` calls per window: within one window, the calls are
/// allowed while the count is below the limit and refused after, so after
/// `k` calls the count is the smaller of the limit and the count plus `k`.
pub proof fn lemma_frequency_calls_in_window(p: InstallParams, s: FrequencyState, ledgers: Seq<u32>)
    requires
        s.call_count <= p.max_calls,
        forall|i: int| 0 <= i < ledgers.len() ==> #[trigger] ledgers[i] < s.window_start + p.window_ledgers,
    ensures
        run_calls(p, s, ledgers).0.len() == ledgers.len(),
        forall|i: int|
            0 <= i < ledgers.len() ==> #[trigger] run_calls(p, s, ledgers).0[i] == (s.call_count + i < p.max_calls),
        run_calls(p, s, ledgers).1.call_count == if s.call_count + ledgers.len() < p.max_calls {
            s.call_count + ledgers.len()
        } else {
            p.max_calls as int
        },
        run_calls(p, s, ledgers).1.window_start == s.window_start,
    decreases ledgers.len(),
{
    if ledgers.len() > 0 {
        let step = call_step(p, s, ledgers[0]);
        assert(updated(p, s, ledgers[0]) == s);
        let rest = ledgers.drop_first();
        assert forall|i: int| 0 <= i < rest.len() implies #[trigger] rest[i] < step.1.window_start + p.window_ledgers by {
            assert(rest[i] == ledgers[i + 1]);
        }
        lemma_frequency_calls_in_window(p, step.1, rest);
        let r = run_calls(p, s, ledgers);
        assert forall|i: int| 0 <= i < ledgers.len() implies #[trigger] r.0[i] == (s.call_count + i < p.max_calls) by {
            if i > 0 {
                assert(r.0[i] == run_calls(p, step.1, rest).0[i - 1]);
            }
        }
    }
}

/// The state of `(account, rule_id)` before call `i` of a sequence: the
/// count of the window so far, capped at the limit.
pub open spec fn count_before(c0: int, i: int, max_calls: u32) -> int {
    if c0 + i < max_calls {
        c0 + i
    } else {
        max_calls as int
    }
}

/// The parameters and the state of an installation survive an allowed call.
proof fn lemma_effect_keeps_installation(before: Env, after: Env, r: Result<(), EnforceError>, rule_id: u32, signer: Signer)
    requires
        enforce_effect(before, after, r, rule_id, signer),
        signer matches Signer::SmartAccount(a) && stored_params(&before, a@, rule_id) is Some
            && stored_state(&before, a@, rule_id) is Some,
    ensures
        stored_params(&after, signer->SmartAccount_0@, rule_id) == stored_params(&before, signer->SmartAccount_0@, rule_id),
        stored_state(&after, signer->SmartAccount_0@, rule_id) is Some,
{
    reveal_strlit("params");
    reveal_strlit("state");
    assert("params"@.len() != "state"@.len());
    let a = signer->SmartAccount_0@;
    assert(params_slot(a, rule_id) != state_slot(a, rule_id));
}

/// The state before call `n` of a sequence of `enforce` calls within one
/// window: the policy stays installed, and the count is the starting count
/// plus `n`, capped at the limit.
proof fn lemma_enforce_prefix(
    start: Env,
    before: Seq<Env>,
    after: Seq<Env>,
    results: Seq<Result<(), EnforceError>>,
    rule_id: u32,
    signer: Signer,
    p: InstallParams,
    s0: FrequencyState,
    n: int,
)
    requires
        before.len() == after.len(),
        before.len() == results.len(),
        0 <= n < before.len(),
        signer is SmartAccount,
        stored_params(&start, signer->SmartAccount_0@, rule_id) == Some(p),
        stored_state(&start, signer->SmartAccount_0@, rule_id) == Some(s0),
        s0.call_count <= p.max_calls,
        forall|i: int| 0 <= i < before.len() ==> enforce_effect(#[trigger] before[i], after[i], results[i], rule_id, signer),
        forall|i: int|
            0 <= i < before.len() ==> (#[trigger] before[i]).contents() == (if i == 0 {
                start.contents()
            } else {
                after[i - 1].contents()
            }),
        forall|i: int| 0 <= i < before.len() ==> (#[trigger] before[i]).ledger() < s0.window_start + p.window_ledgers,
    ensures
        stored_params(&before[n], signer->SmartAccount_0@, rule_id) == Some(p),
        stored_state(&before[n], signer->SmartAccount_0@, rule_id) is Some,
        stored_state(&before[n], signer->SmartAccount_0@, rule_id)->Some_0.call_count == count_before(
            s0.call_count as int,
            n,
            p.max_calls,
        ),
        stored_state(&before[n], signer->SmartAccount_0@, rule_id)->Some_0.window_start == s0.window_start,
    decreases n,
{
    let a = signer->SmartAccount_0@;
    if n > 0 {
        lemma_enforce_prefix(start, before, after, results, rule_id, signer, p, s0, n - 1);
        let b = before[n - 1];
        assert(enforce_effect(b, after[n - 1], results[n - 1], rule_id, signer));
        assert(b.ledger() < s0.window_start + p.window_ledgers);
        lemma_effect_keeps_installation(b, after[n - 1], results[n - 1], rule_id, signer);
        reveal_strlit("params");
        reveal_strlit("state");
        assert("params"@.len() != "state"@.len());
        assert(params_slot(a, rule_id) != state_slot(a, rule_id));
        assert(before[n].contents() == after[n - 1].contents());
    } else {
        assert(before[0].contents() == start.contents());
    }
}

/// At most `max_calls` calls per window, over the policy's own calls: in a
/// sequence of `enforce` calls by the smart account, all at ledgers within
/// the current window (with storage untouched between them), call `i` is
/// allowed exactly when the starting count plus `i` is below the limit.
/// An allowed call stores the count plus one and its ledger as last call; a
/// refused call changes nothing.
pub proof fn lemma_frequency_enforce_sequence(
    start: Env,
    before: Seq<Env>,
    after: Seq<Env>,
    results: Seq<Result<(), EnforceError>>,
    rule_id: u32,
    signer: Signer,
    p: InstallParams,
    s0: FrequencyState,
)
    requires
        before.len() == after.len(),
        before.len() == results.len(),
        signer is SmartAccount,
        stored_params(&start, signer->SmartAccount_0@, rule_id) == Some(p),
        stored_state(&start, signer->SmartAccount_0@, rule_id) == Some(s0),
        s0.call_count <= p.max_calls,
        forall|i: int| 0 <= i < before.len() ==> enforce_effect(#[trigger] before[i], after[i], results[i], rule_id, signer),
        forall|i: int|
            0 <= i < before.len() ==> (#[trigger] before[i]).contents() == (if i == 0 {
                start.contents()
            } else {
                after[i - 1].contents()
            }),
        forall|i: int| 0 <= i < before.len() ==> (#[trigger] before[i]).ledger() < s0.window_start + p.window_ledgers,
    ensures
        forall|i: int| 0 <= i < before.len() ==> (#[trigger] results[i] is Ok) == (s0.call_count + i < p.max_calls),
        forall|i: int|
            0 <= i < before.len() && s0.call_count + i < p.max_calls ==> stored_state(
                &after[i],
                signer->SmartAccount_0@,
                rule_id,
            ) == Some(
                FrequencyState {
                    call_count: (s0.call_count + i + 1) as u32,
                    window_start: s0.window_start,
                    last_call: before[i].ledger(),
                },
            ),
        forall|i: int| 0 <= i < before.len() && s0.call_count + i >= p.max_calls ==> #[trigger] after[i] == before[i],
{
    let a = signer->SmartAccount_0@;
    assert forall|i: int| 0 <= i < before.len() implies (#[trigger] results[i] is Ok) == (s0.call_count + i
        < p.max_calls) && (s0.call_count + i < p.max_calls ==> stored_state(&after[i], a, rule_id) == Some(
        FrequencyState {
            call_count: (s0.call_count + i + 1) as u32,
            window_start: s0.window_start,
            last_call: before[i].ledger(),
        },
    )) && (s0.call_count + i >= p.max_calls ==> after[i] == before[i]) by {
        lemma_enforce_prefix(start, before, after, results, rule_id, signer, p, s0, i);
        assert(enforce_effect(before[i], after[i], results[i], rule_id, signer));
        assert(before[i].ledger() < s0.window_start + p.window_ledgers);
        if s0.call_count + i < p.max_calls {
            let after_state = stored_state(&after[i], a, rule_id);
            assert(after[i].contents()[state_slot(a, rule_id)] == ValueView::FrequencyState(
                FrequencyState {
                    call_count: (s0.call_count + i + 1) as u32,
                    window_start: s0.window_start,
                    last_call: before[i].ledger(),
                },
            ));
        }
    }
}

} // verus!
