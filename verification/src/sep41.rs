//! SEP-41 token standard: function names, constraint types and
//! subscription billing arithmetic for policy contracts.
use vstd::prelude::*;

use crate::context::Val;
use crate::storage::Address;
use crate::text::str_eq;

verus! {

// ── SEP-41 token interface functions ─────────────────────────────────────────

pub const TRANSFER: &'static str = "transfer";
pub const TRANSFER_FROM: &'static str = "transfer_from";
pub const APPROVE: &'static str = "approve";
pub const ALLOWANCE: &'static str = "allowance";
pub const BALANCE: &'static str = "balance";
pub const DECIMALS: &'static str = "decimals";
pub const NAME: &'static str = "name";
pub const SYMBOL: &'static str = "symbol";

/// USDC testnet SAC.
pub const USDC: &'static str = "CBIELTK6YBZJU5UP2WWQEUCYKLPU6AUNZ2BQ4WWFEIE3USCIHMXQDAMA";

// ── Policy utilities ─────────────────────────────────────────────────────────

/// Extract function name from SEP-41 token call context. The context is not
/// decoded: the result is always `transfer`.
pub fn extract_sep41_function(auth_context: &Val) -> (r: Option<String>)
    ensures
        r matches Some(f) && f@ == TRANSFER@,
{
    let _ = auth_context;
    Some(crate::text::to_owned_string(TRANSFER))
}

/// Check if a call is a token transfer.
pub fn is_transfer(function_name: &str) -> (r: bool)
    ensures
        r == (function_name@ == TRANSFER@ || function_name@ == TRANSFER_FROM@),
{
    str_eq(function_name, TRANSFER) || str_eq(function_name, TRANSFER_FROM)
}

/// Check if a call is an approval.
pub fn is_approval(function_name: &str) -> (r: bool)
    ensures
        r == (function_name@ == APPROVE@),
{
    str_eq(function_name, APPROVE)
}

/// Check if a call is a balance/allowance query.
pub fn is_query(function_name: &str) -> (r: bool)
    ensures
        r == (function_name@ == BALANCE@ || function_name@ == ALLOWANCE@ || function_name@ == DECIMALS@
            || function_name@ == NAME@ || function_name@ == SYMBOL@),
{
    str_eq(function_name, BALANCE) || str_eq(function_name, ALLOWANCE) || str_eq(function_name, DECIMALS)
        || str_eq(function_name, NAME) || str_eq(function_name, SYMBOL)
}

/// Helper to identify SEP-41 token contracts. No contract is recognised.
pub fn is_sep41_token(contract_address: &Address) -> (r: bool)
    ensures
        !r,
{
    let _ = contract_address;
    false
}

// ── Constraint types ─────────────────────────────────────────────────────────

/// Common types for SEP-41 policy constraints.
#[derive(Clone, Debug)]
pub enum Sep41Constraint {
    /// Transfer limits
    TransferLimit {
        /// Maximum transfer amount per transaction
        max_amount: u64,
        /// Daily transfer limit
        daily_limit: u64,
        /// Recipient restrictions
        allowed_recipients: Vec<Address>,
        /// Whether to allow transfers to any address
        allow_any_recipient: bool,
    },
    /// Approval limits
    ApprovalLimit {
        /// Maximum approval amount
        max_approval: u64,
        /// Maximum allowance per spender
        max_allowance: u64,
        /// Approved spenders
        allowed_spenders: Vec<Address>,
    },
    /// Subscription billing constraints
    SubscriptionBilling {
        /// Fixed billing amount
        billing_amount: u64,
        /// Billing period in ledgers
        billing_period: u32,
        /// Allowed recipient (subscription service)
        service_address: Address,
        /// Maximum number of billing cycles
        max_cycles: Option<u32>,
    },
}

// ── Subscription billing ─────────────────────────────────────────────────────

/// Calculate next billing time.
pub fn next_billing_time(last_billed: u32, billing_period: u32) -> (r: u32)
    requires
        last_billed + billing_period <= u32::MAX,
    ensures
        r == last_billed + billing_period,
{
    last_billed + billing_period
}

/// Check if billing is due: the current ledger has reached the next billing time.
pub fn is_billing_due(current_ledger: u32, last_billed: u32, billing_period: u32) -> (r: bool)
    requires
        last_billed + billing_period <= u32::MAX,
    ensures
        r == (current_ledger >= last_billed + billing_period),
{
    current_ledger >= next_billing_time(last_billed, billing_period)
}

/// Calculate remaining billing cycles (never negative).
pub fn remaining_cycles(total_cycles: u32, used_cycles: u32) -> (r: Option<u32>)
    ensures
        r == Some(if used_cycles >= total_cycles {
            0u32
        } else {
            (total_cycles - used_cycles) as u32
        }),
{
    if used_cycles >= total_cycles {
        Some(0)
    } else {
        Some(total_cycles - used_cycles)
    }
}

} // verus!
