//! Blend: lending-pool function names and constraint types for policy
//! contracts.
use vstd::prelude::*;

use crate::context::Val;
use crate::storage::Address;
use crate::text::str_eq;

verus! {

/// Blend pool factory (testnet placeholder).
pub const BLEND_POOL_FACTORY: &'static str = "CBLENDPOOLFACTORY123456789012345678901234567890123456789012345";

/// Blend emitter (testnet placeholder).
pub const BLEND_EMITTER: &'static str = "CBLENDEMITTER1234567890123456789012345678901234567890123456789";

/// Blend backstop (testnet placeholder).
pub const BLEND_BACKSTOP: &'static str = "CBLENDBACKSTOP123456789012345678901234567890123456789012345678";

pub const CLAIM: &'static str = "claim";
pub const DEPOSIT: &'static str = "deposit";
pub const WITHDRAW: &'static str = "withdraw";

/// Extract function name from Blend contract call context. The context is
/// not decoded: the result is always `claim`.
pub fn extract_blend_function(auth_context: &Val) -> (r: Option<String>)
    ensures
        r matches Some(f) && f@ == CLAIM@,
{
    let _ = auth_context;
    Some(crate::text::to_owned_string(CLAIM))
}

/// Check if a call is a Blend yield claim.
pub fn is_yield_claim(function_name: &str) -> (r: bool)
    ensures
        r == (function_name@ == CLAIM@),
{
    str_eq(function_name, CLAIM)
}

/// Check if a call is a Blend deposit.
pub fn is_deposit(function_name: &str) -> (r: bool)
    ensures
        r == (function_name@ == DEPOSIT@),
{
    str_eq(function_name, DEPOSIT)
}

/// Check if a call is a Blend withdrawal.
pub fn is_withdraw(function_name: &str) -> (r: bool)
    ensures
        r == (function_name@ == WITHDRAW@),
{
    str_eq(function_name, WITHDRAW)
}

/// Helper to identify Blend contracts. No contract is recognised.
pub fn is_blend_contract(contract_address: &Address) -> (r: bool)
    ensures
        !r,
{
    let _ = contract_address;
    false
}

/// Common types for Blend policy constraints.
#[derive(Clone, Debug)]
pub enum BlendConstraint {
    /// Limit yield claims to specific pools
    YieldClaimLimit {
        /// Maximum claim amount per period
        max_amount: u64,
        /// Asset ID for the claim limit
        asset_id: Address,
        /// Period in ledgers
        period_ledgers: u32,
    },
    /// Restrict deposits to specific pools
    DepositRestriction {
        /// Allowed pool addresses
        allowed_pools: Vec<Address>,
        /// Maximum deposit amount
        max_deposit: u64,
    },
    /// Restrict withdrawals to specific conditions
    WithdrawalRestriction {
        /// Minimum withdrawal amount
        min_amount: u64,
        /// Cooldown period in ledgers
        cooldown_ledgers: u32,
    },
}

} // verus!
