//! Composite policy: AND-chains up to five other policies.
use vstd::prelude::*;

use crate::context::{EnforceError, Signer};
use crate::storage::{
    indexed_slot, params_slot, Address, KeyView, Env, PolicyError, PolicyResult, PolicyStorage,
    StoredValue, Subkey, ValidateParams, ValueView, name_key,
};

verus! {

/// Most policies a composite may chain.
pub const MAX_POLICIES: usize = 5;

// ── Install parameters ──────────────────────────────────────────────────────

/// A chained policy.
#[derive(Clone, Debug)]
pub struct PolicyReference {
    /// Address of the policy contract
    pub policy_address: Address,
    /// Installation parameters for that policy (encoded as bytes)
    pub install_data: Vec<u8>,
}

/// The content of a [`PolicyReference`].
pub struct PolicyReferenceView {
    pub policy_address: Seq<char>,
    pub install_data: Seq<u8>,
}

impl View for PolicyReference {
    type V = PolicyReferenceView;

    open spec fn view(&self) -> PolicyReferenceView {
        PolicyReferenceView { policy_address: self.policy_address@, install_data: self.install_data@ }
    }
}

fn duplicate_bytes(v: &Vec<u8>) -> (r: Vec<u8>)
    ensures
        r@ == v@,
{
    let mut r: Vec<u8> = Vec::new();
    let mut i: usize = 0;
    while i < v.len()
        invariant
            i <= v@.len(),
            r@ == v@.subrange(0, i as int),
        decreases v.len() - i,
    {
        r.push(v[i]);
        i = i + 1;
        assert(r@ =~= v@.subrange(0, i as int));
    }
    assert(r@ =~= v@);
    r
}

impl PolicyReference {
    /// A copy with the same content.
    pub fn duplicate(&self) -> (r: Self)
        ensures
            r@ == self@,
    {
        PolicyReference {
            policy_address: self.policy_address.clone(),
            install_data: duplicate_bytes(&self.install_data),
        }
    }
}

/// Installation parameters of the composite policy.
#[derive(Clone, Debug)]
pub struct InstallParams {
    /// List of policies to AND-chain (max 5)
    pub policies: Vec<PolicyReference>,
}

/// The content of [`InstallParams`].
pub struct InstallParamsView {
    pub policies: Seq<PolicyReferenceView>,
}

/// The contents of a list of policy references.
pub open spec fn reference_views(v: Seq<PolicyReference>) -> Seq<PolicyReferenceView> {
    v.map_values(|p: PolicyReference| p@)
}

impl View for InstallParams {
    type V = InstallParamsView;

    open spec fn view(&self) -> InstallParamsView {
        InstallParamsView { policies: reference_views(self.policies@) }
    }
}

impl InstallParams {
    /// A copy with the same content.
    pub fn duplicate(&self) -> (r: Self)
        ensures
            r@ == self@,
    {
        let mut r: Vec<PolicyReference> = Vec::new();
        let mut i: usize = 0;
        while i < self.policies.len()
            invariant
                i <= self.policies@.len(),
                r@.len() == i,
                forall|k: int| 0 <= k < i ==> r@[k]@ == self.policies@[k]@,
            decreases self.policies.len() - i,
        {
            r.push(self.policies[i].duplicate());
            i = i + 1;
        }
        assert(reference_views(r@) =~= reference_views(self.policies@));
        InstallParams { policies: r }
    }

    /// Parameters are valid with one to five policies.
    pub open spec fn valid(self) -> bool {
        1 <= self.policies@.len() <= 5
    }
}

impl ValidateParams for InstallParams {
    fn validate(&self) -> (r: PolicyResult<()>)
        ensures
            r == (if self.valid() {
                Ok::<(), PolicyError>(())
            } else {
                Err(PolicyError::InvalidParams)
            }),
    {
        if self.policies.len() == 0 {
            return Err(PolicyError::InvalidParams);
        }
        if self.policies.len() > MAX_POLICIES {
            return Err(PolicyError::InvalidParams);
        }
        Ok(())
    }
}

// ── Policy implementation ───────────────────────────────────────────────────

/// The composite policy contract.
#[derive(Clone, Copy, Debug)]
pub struct CompositePolicy;

/// The slot of the `index`-th chained policy of `(account, rule_id)`.
pub open spec fn reference_slot(account: Seq<char>, rule_id: u32, index: u32) -> KeyView {
    indexed_slot(account, rule_id, "policy"@, index)
}

/// The installation parameters stored for `(account, rule_id)`, if any.
pub open spec fn stored_params(env: &Env, account: Seq<char>, rule_id: u32) -> Option<InstallParamsView> {
    let k = params_slot(account, rule_id);
    if env.contents().contains_key(k) {
        match env.contents()[k] {
            ValueView::CompositeParams(p) => Some(p),
            _ => None,
        }
    } else {
        None
    }
}

/// The reference stored in slot `index` of `(account, rule_id)`, if any.
pub open spec fn stored_reference(env: &Env, account: Seq<char>, rule_id: u32, index: u32) -> Option<PolicyReferenceView> {
    let k = reference_slot(account, rule_id, index);
    if env.contents().contains_key(k) {
        match env.contents()[k] {
            ValueView::PolicyReference(p) => Some(p),
            _ => None,
        }
    } else {
        None
    }
}

/// `m` with reference slots `0..n` of `(account, rule_id)` holding `refs[0..n]`.
pub open spec fn with_references(
    m: Map<KeyView, ValueView>,
    account: Seq<char>,
    rule_id: u32,
    refs: Seq<PolicyReferenceView>,
    n: nat,
) -> Map<KeyView, ValueView>
    decreases n,
{
    if n == 0 {
        m
    } else {
        with_references(m, account, rule_id, refs, (n - 1) as nat).insert(
            reference_slot(account, rule_id, (n - 1) as u32),
            ValueView::PolicyReference(refs[n - 1]),
        )
    }
}

/// `m` with reference slots `0..n` of `(account, rule_id)` holding the unit value.
pub open spec fn with_cleared_references(
    m: Map<KeyView, ValueView>,
    account: Seq<char>,
    rule_id: u32,
    n: nat,
) -> Map<KeyView, ValueView>
    decreases n,
{
    if n == 0 {
        m
    } else {
        with_cleared_references(m, account, rule_id, (n - 1) as nat).insert(
            reference_slot(account, rule_id, (n - 1) as u32),
            ValueView::Unit,
        )
    }
}

/// Lookups in [`with_references`]: slot `i < n` holds `refs[i]`, and every
/// other key is as in `m`.
pub proof fn lemma_with_references(
    m: Map<KeyView, ValueView>,
    account: Seq<char>,
    rule_id: u32,
    refs: Seq<PolicyReferenceView>,
    n: nat,
    k: KeyView,
)
    requires
        n <= u32::MAX + 1,
    ensures
        ({
            let w = with_references(m, account, rule_id, refs, n);
            if exists|i: u32| i < n && k == reference_slot(account, rule_id, i) {
                let i = choose|i: u32| i < n && k == reference_slot(account, rule_id, i);
                w.contains_key(k) && w[k] == ValueView::PolicyReference(refs[i as int])
            } else {
                w.contains_key(k) == m.contains_key(k) && (m.contains_key(k) ==> w[k] == m[k])
            }
        }),
    decreases n,
{
    if n > 0 {
        lemma_with_references(m, account, rule_id, refs, (n - 1) as nat, k);
        let last = reference_slot(account, rule_id, (n - 1) as u32);
        if exists|i: u32| i < n && k == reference_slot(account, rule_id, i) {
            let i = choose|i: u32| i < n && k == reference_slot(account, rule_id, i);
            if i != (n - 1) as u32 {
                assert(exists|j: u32| j < n - 1 && k == reference_slot(account, rule_id, j));
                let j = choose|j: u32| j < n - 1 && k == reference_slot(account, rule_id, j);
                assert(j == i);
            }
        }
    }
}

/// Lookups in [`with_cleared_references`]: slot `i < n` holds the unit
/// value, and every other key is as in `m`.
pub proof fn lemma_with_cleared_references(
    m: Map<KeyView, ValueView>,
    account: Seq<char>,
    rule_id: u32,
    n: nat,
    k: KeyView,
)
    requires
        n <= u32::MAX + 1,
    ensures
        ({
            let w = with_cleared_references(m, account, rule_id, n);
            if exists|i: u32| i < n && k == reference_slot(account, rule_id, i) {
                w.contains_key(k) && w[k] == ValueView::Unit
            } else {
                w.contains_key(k) == m.contains_key(k) && (m.contains_key(k) ==> w[k] == m[k])
            }
        }),
    decreases n,
{
    if n > 0 {
        lemma_with_cleared_references(m, account, rule_id, (n - 1) as nat, k);
        if exists|i: u32| i < n && k == reference_slot(account, rule_id, i) {
            let i = choose|i: u32| i < n && k == reference_slot(account, rule_id, i);
            if i != (n - 1) as u32 {
                assert(exists|j: u32| j < n - 1 && k == reference_slot(account, rule_id, j));
            }
        }
    }
}

impl CompositePolicy {
    /// Install the composite policy for a specific smart account and context
    /// rule: stores the parameters, and each policy reference in its own slot.
    pub fn install(&self, env: &mut Env, account: &str, context_rule_id: u32, params: InstallParams) -> (r: PolicyResult<()>)
        requires
            old(env).wf(),
        ensures
            final(env).wf(),
            final(env).ledger() == old(env).ledger(),
            r is Ok <==> params.valid(),
            r is Err ==> r == Err::<(), PolicyError>(PolicyError::InvalidParams) && *final(env) == *old(env),
            r is Ok ==> final(env).contents() == with_references(
                old(env).contents().insert(params_slot(account@, context_rule_id), ValueView::CompositeParams(params@)),
                account@,
                context_rule_id,
                params@.policies,
                params@.policies.len(),
            ),
    {
        params.validate()?;
        let ghost pv = params@;
        let stored = params.duplicate();
        PolicyStorage::set(env, account, context_rule_id, name_key("params"), StoredValue::CompositeParams(stored));
        let ghost start = env.contents();
        let n = params.policies.len();
        let mut i: usize = 0;
        while i < n
            invariant
                env.wf(),
                env.ledger() == old(env).ledger(),
                n == params.policies@.len(),
                pv == params@,
                i <= n,
                env.contents() == with_references(start, account@, context_rule_id, pv.policies, i as nat),
            decreases n - i,
        {
            PolicyStorage::set(
                env,
                account,
                context_rule_id,
                Subkey::Indexed(crate::text::to_owned_string("policy"), i as u32),
                StoredValue::PolicyReference(params.policies[i].duplicate()),
            );
            i = i + 1;
        }
        Ok(())
    }

    /// Uninstall the policy: each stored policy reference and the parameters
    /// slot are overwritten with the unit value.
    pub fn uninstall(&self, env: &mut Env, account: &str, context_rule_id: u32) -> (r: PolicyResult<()>)
        requires
            old(env).wf(),
        ensures
            final(env).wf(),
            final(env).ledger() == old(env).ledger(),
            r is Ok,
            final(env).contents() == (match stored_params(old(env), account@, context_rule_id) {
                Some(p) => with_cleared_references(old(env).contents(), account@, context_rule_id, p.policies.len()),
                None => old(env).contents(),
            }).insert(params_slot(account@, context_rule_id), ValueView::Unit),
    {
        let params = match PolicyStorage::get(env, account, context_rule_id, name_key("params")) {
            Some(StoredValue::CompositeParams(p)) => Some(p),
            _ => None,
        };
        if let Some(params) = params {
            let ghost start = env.contents();
            let n = params.policies.len();
            let mut i: usize = 0;
            while i < n
                invariant
                    env.wf(),
                    env.ledger() == old(env).ledger(),
                    start == old(env).contents(),
                    n == params.policies@.len(),
                    i <= n,
                    env.contents() == with_cleared_references(start, account@, context_rule_id, i as nat),
                decreases n - i,
            {
                PolicyStorage::set(
                    env,
                    account,
                    context_rule_id,
                    Subkey::Indexed(crate::text::to_owned_string("policy"), i as u32),
                    StoredValue::Unit,
                );
                i = i + 1;
            }
        }
        PolicyStorage::set(env, account, context_rule_id, name_key("params"), StoredValue::Unit);
        Ok(())
    }

    /// Get installation parameters.
    pub fn get_params(&self, env: &Env, account: &str, context_rule_id: u32) -> (r: PolicyResult<InstallParams>)
        requires
            env.wf(),
        ensures
            match stored_params(env, account@, context_rule_id) {
                Some(p) => r matches Ok(q) && q@ == p,
                None => r == Err::<InstallParams, PolicyError>(PolicyError::NotFound),
            },
    {
        match PolicyStorage::get(env, account, context_rule_id, name_key("params")) {
            Some(StoredValue::CompositeParams(p)) => Ok(p),
            _ => Err(PolicyError::NotFound),
        }
    }

    /// Get a specific policy reference.
    pub fn get_policy_reference(&self, env: &Env, account: &str, context_rule_id: u32, index: u32) -> (r: PolicyResult<PolicyReference>)
        requires
            env.wf(),
        ensures
            match stored_reference(env, account@, context_rule_id, index) {
                Some(p) => r matches Ok(q) && q@ == p,
                None => r == Err::<PolicyReference, PolicyError>(PolicyError::NotFound),
            },
    {
        match PolicyStorage::get(
            env,
            account,
            context_rule_id,
            Subkey::Indexed(crate::text::to_owned_string("policy"), index),
        ) {
            Some(StoredValue::PolicyReference(p)) => Ok(p),
            _ => Err(PolicyError::NotFound),
        }
    }

    /// Enforce the chain for one authorized call. The chained policies are
    /// not called, so the composite admits a call exactly when the signer is
    /// the smart account and the policy is installed for it.
    pub fn enforce(&self, env: &Env, context_rule_id: u32, signer: &Signer) -> (r: Result<(), EnforceError>)
        requires
            env.wf(),
        ensures
            r is Ok <==> (signer matches Signer::SmartAccount(a) && stored_params(env, a@, context_rule_id) is Some),
    {
        let account = match signer {
            Signer::SmartAccount(addr) => addr,
            _ => {
                return Err(EnforceError::Denied);
            },
        };
        let params = match PolicyStorage::get(env, account.as_str(), context_rule_id, name_key("params")) {
            Some(StoredValue::CompositeParams(p)) => p,
            _ => {
                return Err(EnforceError::Denied);
            },
        };
        let _ = params;
        Ok(())
    }

    /// The policy's weight.
    pub fn weight(&self) -> (r: u32)
        ensures
            r == 15,
    {
        15
    }
}

/// What an installation stores: each policy reference can be read back from
/// its slot, and keys of other accounts or rules are unchanged.
pub proof fn lemma_install_read_back(
    before: Map<KeyView, ValueView>,
    account: Seq<char>,
    rule_id: u32,
    params: InstallParamsView,
    index: u32,
)
    requires
        params.policies.len() <= 5,
        index < params.policies.len(),
    ensures
        ({
            let after = with_references(
                before.insert(params_slot(account, rule_id), ValueView::CompositeParams(params)),
                account,
                rule_id,
                params.policies,
                params.policies.len(),
            );
            &&& after.contains_key(reference_slot(account, rule_id, index))
            &&& after[reference_slot(account, rule_id, index)] == ValueView::PolicyReference(params.policies[index as int])
            &&& after[params_slot(account, rule_id)] == ValueView::CompositeParams(params)
        }),
{
    let m = before.insert(params_slot(account, rule_id), ValueView::CompositeParams(params));
    let k = reference_slot(account, rule_id, index);
    lemma_with_references(m, account, rule_id, params.policies, params.policies.len(), k);
    let i = choose|i: u32| i < params.policies.len() && k == reference_slot(account, rule_id, i);
    assert(i == index);
    lemma_with_references(m, account, rule_id, params.policies, params.policies.len(), params_slot(account, rule_id));
}

/// After uninstall no reference slot of the installation holds a reference
/// any more, and the parameters slot holds the unit value.
pub proof fn lemma_uninstall_clears(
    before: Map<KeyView, ValueView>,
    account: Seq<char>,
    rule_id: u32,
    n: nat,
    index: u32,
)
    requires
        n <= 5,
        index < n,
    ensures
        ({
            let after = with_cleared_references(before, account, rule_id, n).insert(
                params_slot(account, rule_id),
                ValueView::Unit,
            );
            &&& after[reference_slot(account, rule_id, index)] == ValueView::Unit
            &&& after[params_slot(account, rule_id)] == ValueView::Unit
        }),
{
    lemma_with_cleared_references(before, account, rule_id, n, reference_slot(account, rule_id, index));
}

} // verus!
