//! Allowlist policy: restricts which contracts, and which of their
//! functions, may be called.
use vstd::prelude::*;

use crate::context::{EnforceError, Signer};
use crate::storage::{
    name_key, params_slot, Address, Env, PolicyError, PolicyResult, PolicyStorage, StoredValue,
    ValidateParams, ValueView,
};
use crate::text::views;

verus! {

// ── Install parameters ──────────────────────────────────────────────────────

/// One allowed contract.
#[derive(Clone, Debug)]
pub struct AllowedContract {
    /// Contract address that is allowed
    pub contract_address: Address,
    /// List of allowed function names (empty means all functions)
    pub allowed_functions: Vec<String>,
}

/// The content of an [`AllowedContract`].
pub struct AllowedContractView {
    pub contract_address: Seq<char>,
    pub allowed_functions: Seq<Seq<char>>,
}

impl View for AllowedContract {
    type V = AllowedContractView;

    open spec fn view(&self) -> AllowedContractView {
        AllowedContractView {
            contract_address: self.contract_address@,
            allowed_functions: views(self.allowed_functions@),
        }
    }
}

/// A copy of a list of strings with the same content.
pub fn duplicate_strings(v: &Vec<String>) -> (r: Vec<String>)
    ensures
        views(r@) == views(v@),
        r@.len() == v@.len(),
{
    let mut r: Vec<String> = Vec::new();
    let mut i: usize = 0;
    while i < v.len()
        invariant
            i <= v@.len(),
            r@.len() == i,
            forall|k: int| 0 <= k < i ==> r@[k]@ == v@[k]@,
        decreases v.len() - i,
    {
        r.push(v[i].clone());
        i = i + 1;
    }
    assert(views(r@) =~= views(v@));
    r
}

impl AllowedContract {
    /// A copy with the same content.
    pub fn duplicate(&self) -> (r: Self)
        ensures
            r@ == self@,
    {
        AllowedContract {
            contract_address: self.contract_address.clone(),
            allowed_functions: duplicate_strings(&self.allowed_functions),
        }
    }
}

/// Installation parameters of the allowlist policy.
#[derive(Clone, Debug)]
pub struct InstallParams {
    /// List of allowed contracts and their functions
    pub allowed_contracts: Vec<AllowedContract>,
    /// Whether to allow contracts not explicitly listed (default: false)
    pub allow_unknown: bool,
}

/// The content of [`InstallParams`].
pub struct InstallParamsView {
    pub allowed_contracts: Seq<AllowedContractView>,
    pub allow_unknown: bool,
}

/// The contents of a list of allowed contracts.
pub open spec fn contract_views(v: Seq<AllowedContract>) -> Seq<AllowedContractView> {
    v.map_values(|c: AllowedContract| c@)
}

impl View for InstallParams {
    type V = InstallParamsView;

    open spec fn view(&self) -> InstallParamsView {
        InstallParamsView {
            allowed_contracts: contract_views(self.allowed_contracts@),
            allow_unknown: self.allow_unknown,
        }
    }
}

fn duplicate_contracts(v: &Vec<AllowedContract>) -> (r: Vec<AllowedContract>)
    ensures
        contract_views(r@) == contract_views(v@),
{
    let mut r: Vec<AllowedContract> = Vec::new();
    let mut i: usize = 0;
    while i < v.len()
        invariant
            i <= v@.len(),
            r@.len() == i,
            forall|k: int| 0 <= k < i ==> r@[k]@ == v@[k]@,
        decreases v.len() - i,
    {
        r.push(v[i].duplicate());
        i = i + 1;
    }
    assert(contract_views(r@) =~= contract_views(v@));
    r
}

impl InstallParams {
    /// A copy with the same content.
    pub fn duplicate(&self) -> (r: Self)
        ensures
            r@ == self@,
    {
        InstallParams {
            allowed_contracts: duplicate_contracts(&self.allowed_contracts),
            allow_unknown: self.allow_unknown,
        }
    }

    /// Parameters are valid unless they allow nothing at all.
    pub open spec fn valid(self) -> bool {
        self.allowed_contracts@.len() != 0 || self.allow_unknown
    }
}

impl ValidateParams for InstallParams {
    fn validate(&self) -> (r: PolicyResult<()>)
        ensures
            r == (if self.valid() {
                Ok::<(), PolicyError>(())
            } else {
                Err(PolicyError::InvalidParams)
            }),
    {
        if self.allowed_contracts.len() == 0 && !self.allow_unknown {
            return Err(PolicyError::InvalidParams);
        }
        Ok(())
    }
}

// ── Rules ────────────────────────────────────────────────────────────────────

/// Entry `c` admits `function`: it lists no functions (all are allowed) or
/// lists this one.
pub open spec fn admits_function(c: AllowedContractView, function: Seq<char>) -> bool {
    c.allowed_functions.len() == 0 || c.allowed_functions.contains(function)
}

/// `contract` is listed.
pub open spec fn lists(contracts: Seq<AllowedContractView>, contract: Seq<char>) -> bool {
    exists|i: int| 0 <= i < contracts.len() && (#[trigger] contracts[i]).contract_address == contract
}

/// A call of `function` on `contract` is allowed: unknown contracts are
/// allowed, or some entry for the contract admits the function.
pub open spec fn allows(params: InstallParamsView, contract: Seq<char>, function: Seq<char>) -> bool {
    params.allow_unknown || exists|i: int|
        0 <= i < params.allowed_contracts.len() && (#[trigger] params.allowed_contracts[i]).contract_address
            == contract && admits_function(params.allowed_contracts[i], function)
}

/// The entries of `v` for other contracts than `contract`, in order.
pub open spec fn without_contract(v: Seq<AllowedContractView>, contract: Seq<char>) -> Seq<AllowedContractView>
    decreases v.len(),
{
    if v.len() == 0 {
        v
    } else if v.last().contract_address == contract {
        without_contract(v.drop_last(), contract)
    } else {
        without_contract(v.drop_last(), contract).push(v.last())
    }
}

proof fn lemma_without_contract(v: Seq<AllowedContractView>, contract: Seq<char>)
    ensures
        forall|i: int|
            0 <= i < without_contract(v, contract).len() ==> (#[trigger] without_contract(
                v,
                contract,
            )[i]).contract_address != contract,
    decreases v.len(),
{
    if v.len() > 0 {
        lemma_without_contract(v.drop_last(), contract);
        let w = without_contract(v, contract);
        let wp = without_contract(v.drop_last(), contract);
        assert forall|i: int| 0 <= i < w.len() implies (#[trigger] w[i]).contract_address != contract by {
            if i < wp.len() {
                assert(w[i] == wp[i]);
            }
        }
    }
}

// ── Policy implementation ───────────────────────────────────────────────────

/// The allowlist policy contract.
#[derive(Clone, Copy, Debug)]
pub struct AllowlistPolicy;

/// The installation parameters stored for `(account, rule_id)`, if any.
pub open spec fn stored_params(env: &Env, account: Seq<char>, rule_id: u32) -> Option<InstallParamsView> {
    let k = params_slot(account, rule_id);
    if env.contents().contains_key(k) {
        match env.contents()[k] {
            ValueView::AllowlistParams(p) => Some(p),
            _ => None,
        }
    } else {
        None
    }
}

fn functions_include(functions: &Vec<String>, function: &str) -> (r: bool)
    ensures
        r == views(functions@).contains(function@),
{
    let mut i: usize = 0;
    while i < functions.len()
        invariant
            i <= functions@.len(),
            forall|k: int| 0 <= k < i ==> functions@[k]@ != function@,
        decreases functions.len() - i,
    {
        if crate::text::str_eq(functions[i].as_str(), function) {
            assert(views(functions@)[i as int] == function@);
            return true;
        }
        i = i + 1;
    }
    proof {
        if views(functions@).contains(function@) {
            let k = choose|k: int| 0 <= k < views(functions@).len() && views(functions@)[k] == function@;
            assert(functions@[k]@ == function@);
        }
    }
    false
}

fn find_contract(contracts: &Vec<AllowedContract>, contract_address: &str) -> (r: bool)
    ensures
        r == lists(contract_views(contracts@), contract_address@),
{
    let ghost cv = contract_views(contracts@);
    let mut i: usize = 0;
    while i < contracts.len()
        invariant
            i <= contracts@.len(),
            cv == contract_views(contracts@),
            forall|k: int| 0 <= k < i ==> cv[k].contract_address != contract_address@,
        decreases contracts.len() - i,
    {
        if crate::text::str_eq(contracts[i].contract_address.as_str(), contract_address) {
            assert(cv[i as int].contract_address == contract_address@);
            assert(lists(cv, contract_address@));
            return true;
        }
        i = i + 1;
    }
    false
}

impl AllowlistPolicy {
    /// Check if a contract and function are allowed.
    pub fn is_allowed(&self, params: &InstallParams, contract_address: &str, function_name: &str) -> (r: bool)
        ensures
            r == allows(params@, contract_address@, function_name@),
    {
        if params.allow_unknown {
            return true;
        }
        let ghost pv = params@;
        let mut i: usize = 0;
        while i < params.allowed_contracts.len()
            invariant
                i <= params.allowed_contracts@.len(),
                pv == params@,
                !pv.allow_unknown,
                forall|k: int|
                    0 <= k < i ==> !((#[trigger] pv.allowed_contracts[k]).contract_address
                        == contract_address@ && admits_function(pv.allowed_contracts[k], function_name@)),
            decreases params.allowed_contracts.len() - i,
        {
            let allowed_contract = &params.allowed_contracts[i];
            assert(pv.allowed_contracts[i as int] == allowed_contract@);
            if crate::text::str_eq(allowed_contract.contract_address.as_str(), contract_address) {
                if allowed_contract.allowed_functions.len() == 0 {
                    return true;
                }
                if functions_include(&allowed_contract.allowed_functions, function_name) {
                    return true;
                }
            }
            i = i + 1;
        }
        false
    }

    /// Install the policy for a specific smart account and context rule.
    pub fn install(&self, env: &mut Env, account: &str, context_rule_id: u32, params: InstallParams) -> (r: PolicyResult<()>)
        requires
            old(env).wf(),
        ensures
            final(env).wf(),
            final(env).ledger() == old(env).ledger(),
            r is Ok <==> params.valid(),
            r is Err ==> r == Err::<(), PolicyError>(PolicyError::InvalidParams) && *final(env) == *old(env),
            r is Ok ==> final(env).contents() == old(env).contents().insert(
                params_slot(account@, context_rule_id),
                ValueView::AllowlistParams(params@),
            ),
    {
        params.validate()?;
        PolicyStorage::set(env, account, context_rule_id, name_key("params"), StoredValue::AllowlistParams(params));
        Ok(())
    }

    /// Uninstall the policy: the parameters slot is overwritten with the unit value.
    pub fn uninstall(&self, env: &mut Env, account: &str, context_rule_id: u32) -> (r: PolicyResult<()>)
        requires
            old(env).wf(),
        ensures
            final(env).wf(),
            final(env).ledger() == old(env).ledger(),
            r is Ok,
            final(env).contents() == old(env).contents().insert(
                params_slot(account@, context_rule_id),
                ValueView::Unit,
            ),
    {
        PolicyStorage::set(env, account, context_rule_id, name_key("params"), StoredValue::Unit);
        Ok(())
    }

    /// Get installation parameters.
    pub fn get_params(&self, env: &Env, account: &str, context_rule_id: u32) -> (r: PolicyResult<InstallParams>)
        requires
            env.wf(),
        ensures
            match stored_params(env, account@, context_rule_id) {
                Some(p) => r matches Ok(q) && q@ == p,
                None => r == Err::<InstallParams, PolicyError>(PolicyError::NotFound),
            },
    {
        match PolicyStorage::get(env, account, context_rule_id, name_key("params")) {
            Some(StoredValue::AllowlistParams(p)) => Ok(p),
            _ => Err(PolicyError::NotFound),
        }
    }

    /// Add a contract to the allowlist. Fails with `NotFound` when the policy
    /// is not installed and with `InvalidParams` when the contract is already listed.
    pub fn add_contract(
        &self,
        env: &mut Env,
        account: &str,
        context_rule_id: u32,
        contract_address: Address,
        allowed_functions: Vec<String>,
    ) -> (r: PolicyResult<()>)
        requires
            old(env).wf(),
        ensures
            final(env).wf(),
            final(env).ledger() == old(env).ledger(),
            match stored_params(old(env), account@, context_rule_id) {
                None => r == Err::<(), PolicyError>(PolicyError::NotFound) && *final(env) == *old(env),
                Some(p) => if lists(p.allowed_contracts, contract_address@) {
                    r == Err::<(), PolicyError>(PolicyError::InvalidParams) && *final(env) == *old(env)
                } else {
                    r is Ok && final(env).contents() == old(env).contents().insert(
                        params_slot(account@, context_rule_id),
                        ValueView::AllowlistParams(InstallParamsView {
                            allowed_contracts: p.allowed_contracts.push(
                                AllowedContractView {
                                    contract_address: contract_address@,
                                    allowed_functions: views(allowed_functions@),
                                },
                            ),
                            allow_unknown: p.allow_unknown,
                        }),
                    )
                },
            },
    {
        let mut params = match PolicyStorage::get(env, account, context_rule_id, name_key("params")) {
            Some(StoredValue::AllowlistParams(p)) => p,
            _ => {
                return Err(PolicyError::NotFound);
            },
        };
        if find_contract(&params.allowed_contracts, contract_address.as_str()) {
            return Err(PolicyError::InvalidParams);
        }
        let new_contract = AllowedContract { contract_address, allowed_functions };
        params.allowed_contracts.push(new_contract);
        proof {
            assert(contract_views(params.allowed_contracts@) =~= old(env).contents()[params_slot(
                account@,
                context_rule_id,
            )]->AllowlistParams_0.allowed_contracts.push(new_contract@));
        }
        PolicyStorage::set(env, account, context_rule_id, name_key("params"), StoredValue::AllowlistParams(params));
        Ok(())
    }

    /// Remove a contract from the allowlist: every entry for it is dropped.
    /// Fails with `NotFound` when the policy is not installed or the contract
    /// is not listed.
    pub fn remove_contract(&self, env: &mut Env, account: &str, context_rule_id: u32, contract_address: &str) -> (r: PolicyResult<()>)
        requires
            old(env).wf(),
        ensures
            final(env).wf(),
            final(env).ledger() == old(env).ledger(),
            match stored_params(old(env), account@, context_rule_id) {
                None => r == Err::<(), PolicyError>(PolicyError::NotFound) && *final(env) == *old(env),
                Some(p) => if lists(p.allowed_contracts, contract_address@) {
                    r is Ok && final(env).contents() == old(env).contents().insert(
                        params_slot(account@, context_rule_id),
                        ValueView::AllowlistParams(InstallParamsView {
                            allowed_contracts: without_contract(p.allowed_contracts, contract_address@),
                            allow_unknown: p.allow_unknown,
                        }),
                    )
                } else {
                    r == Err::<(), PolicyError>(PolicyError::NotFound) && *final(env) == *old(env)
                },
            },
    {
        let mut params = match PolicyStorage::get(env, account, context_rule_id, name_key("params")) {
            Some(StoredValue::AllowlistParams(p)) => p,
            _ => {
                return Err(PolicyError::NotFound);
            },
        };
        let ghost pv = params@;
        let mut found = false;
        let mut new_contracts: Vec<AllowedContract> = Vec::new();
        let mut i: usize = 0;
        while i < params.allowed_contracts.len()
            invariant
                i <= params.allowed_contracts@.len(),
                pv == params@,
                contract_views(new_contracts@) == without_contract(
                    pv.allowed_contracts.subrange(0, i as int),
                    contract_address@,
                ),
                found == lists(pv.allowed_contracts.subrange(0, i as int), contract_address@),
            decreases params.allowed_contracts.len() - i,
        {
            let allowed_contract = &params.allowed_contracts[i];
            let ghost prefix = pv.allowed_contracts.subrange(0, i as int);
            let ghost next = pv.allowed_contracts.subrange(0, i + 1);
            assert(next.drop_last() =~= prefix);
            assert(next.last() == allowed_contract@);
            if !crate::text::str_eq(allowed_contract.contract_address.as_str(), contract_address) {
                new_contracts.push(allowed_contract.duplicate());
                assert(contract_views(new_contracts@) =~= without_contract(next, contract_address@));
                proof {
                    if found {
                        let k = choose|k: int| 0 <= k < prefix.len() && (#[trigger] prefix[k]).contract_address == contract_address@;
                        assert(next[k] == prefix[k]);
                        assert(lists(next, contract_address@));
                    }
                    if lists(next, contract_address@) {
                        let k = choose|k: int| 0 <= k < next.len() && (#[trigger] next[k]).contract_address == contract_address@;
                        assert(k < prefix.len());
                        assert(prefix[k] == next[k]);
                        assert(lists(prefix, contract_address@));
                    }
                }
            } else {
                found = true;
                assert(next[i as int].contract_address == contract_address@);
                assert(lists(next, contract_address@));
            }
            i = i + 1;
        }
        assert(pv.allowed_contracts.subrange(0, i as int) =~= pv.allowed_contracts);
        if !found {
            return Err(PolicyError::NotFound);
        }
        params.allowed_contracts = new_contracts;
        PolicyStorage::set(env, account, context_rule_id, name_key("params"), StoredValue::AllowlistParams(params));
        Ok(())
    }

    /// Check if a contract/function combination is allowed.
    pub fn check_allowed(
        &self,
        env: &Env,
        account: &str,
        context_rule_id: u32,
        contract_address: &str,
        function_name: &str,
    ) -> (r: PolicyResult<bool>)
        requires
            env.wf(),
        ensures
            r == (match stored_params(env, account@, context_rule_id) {
                Some(p) => Ok::<bool, PolicyError>(allows(p, contract_address@, function_name@)),
                None => Err(PolicyError::NotFound),
            }),
    {
        let params = match PolicyStorage::get(env, account, context_rule_id, name_key("params")) {
            Some(StoredValue::AllowlistParams(p)) => p,
            _ => {
                return Err(PolicyError::NotFound);
            },
        };
        Ok(self.is_allowed(&params, contract_address, function_name))
    }

    /// Enforce the allowlist for one authorized call. The called contract and
    /// function are not decoded from the call, so the policy admits a call
    /// exactly when the signer is the smart account, the policy is installed
    /// for it, and unknown contracts are allowed.
    pub fn enforce(&self, env: &Env, context_rule_id: u32, signer: &Signer) -> (r: Result<(), EnforceError>)
        requires
            env.wf(),
        ensures
            r is Ok <==> (signer matches Signer::SmartAccount(a) && stored_params(env, a@, context_rule_id) matches Some(p)
                && p.allow_unknown),
    {
        let account = match signer {
            Signer::SmartAccount(addr) => addr,
            _ => {
                return Err(EnforceError::Denied);
            },
        };
        let params = match PolicyStorage::get(env, account.as_str(), context_rule_id, name_key("params")) {
            Some(StoredValue::AllowlistParams(p)) => p,
            _ => {
                return Err(EnforceError::Denied);
            },
        };
        if params.allow_unknown {
            return Ok(());
        }
        Err(EnforceError::Denied)
    }

    /// The policy's weight.
    pub fn weight(&self) -> (r: u32)
        ensures
            r == 3,
    {
        3
    }
}

/// After a contract is added with a function list, each listed function of
/// it is allowed (every function, when the list is empty).
pub proof fn lemma_add_then_allowed(p: InstallParamsView, contract: Seq<char>, functions: Seq<Seq<char>>, f: Seq<char>)
    requires
        functions.len() == 0 || functions.contains(f),
    ensures
        allows(
            InstallParamsView {
                allowed_contracts: p.allowed_contracts.push(
                    AllowedContractView { contract_address: contract, allowed_functions: functions },
                ),
                allow_unknown: p.allow_unknown,
            },
            contract,
            f,
        ),
{
    let q = p.allowed_contracts.push(AllowedContractView { contract_address: contract, allowed_functions: functions });
    let pv = InstallParamsView { allowed_contracts: q, allow_unknown: p.allow_unknown };
    assert(pv.allowed_contracts[q.len() - 1].contract_address == contract);
    assert(admits_function(pv.allowed_contracts[q.len() - 1], f));
}

/// After a contract is removed, none of its functions is allowed unless
/// unknown contracts are.
pub proof fn lemma_removed_not_allowed(p: InstallParamsView, contract: Seq<char>, f: Seq<char>)
    requires
        !p.allow_unknown,
    ensures
        !allows(
            InstallParamsView {
                allowed_contracts: without_contract(p.allowed_contracts, contract),
                allow_unknown: p.allow_unknown,
            },
            contract,
            f,
        ),
{
    lemma_without_contract(p.allowed_contracts, contract);
}

} // verus!
