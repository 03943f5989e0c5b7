//! Soroswap: swap and liquidity function names, constraint types and
//! slippage arithmetic for policy contracts.
use vstd::prelude::*;

use crate::context::Val;
use crate::storage::Address;
use crate::text::{contains_str, has_substring};

verus! {

/// Soroswap factory (testnet placeholder).
pub const SOROSWAP_FACTORY: &'static str = "CSOROSWAPFACTORY12345678901234567890123456789012345678901234";

/// Soroswap router (testnet placeholder).
pub const SOROSWAP_ROUTER: &'static str = "CSOROSWAPROUTER1234567890123456789012345678901234567890123456";

/// The router's exact-input swap.
pub const SWAP_EXACT_TOKENS_FOR_TOKENS: &'static str = "swap_exact_tokens_for_tokens";

// ── Policy utilities ─────────────────────────────────────────────────────────

/// Extract function name from Soroswap contract call context. The context
/// is not decoded: the result is always `swap_exact_tokens_for_tokens`.
pub fn extract_soroswap_function(auth_context: &Val) -> (r: Option<String>)
    ensures
        r matches Some(f) && f@ == SWAP_EXACT_TOKENS_FOR_TOKENS@,
{
    let _ = auth_context;
    Some(crate::text::to_owned_string(SWAP_EXACT_TOKENS_FOR_TOKENS))
}

/// Check if a call is a Soroswap swap: its name contains `swap`.
pub fn is_swap(function_name: &str) -> (r: bool)
    ensures
        r == has_substring(function_name@, "swap"@),
{
    contains_str(function_name, "swap")
}

/// Check if a call is adding liquidity: its name contains `add` and `liquidity`.
pub fn is_add_liquidity(function_name: &str) -> (r: bool)
    ensures
        r == (has_substring(function_name@, "add"@) && has_substring(function_name@, "liquidity"@)),
{
    contains_str(function_name, "add") && contains_str(function_name, "liquidity")
}

/// Check if a call is removing liquidity: its name contains `remove` and `liquidity`.
pub fn is_remove_liquidity(function_name: &str) -> (r: bool)
    ensures
        r == (has_substring(function_name@, "remove"@) && has_substring(function_name@, "liquidity"@)),
{
    contains_str(function_name, "remove") && contains_str(function_name, "liquidity")
}

/// Helper to identify Soroswap contracts. No contract is recognised.
pub fn is_soroswap_contract(contract_address: &Address) -> (r: bool)
    ensures
        !r,
{
    let _ = contract_address;
    false
}

// ── Constraint types ─────────────────────────────────────────────────────────

/// Common types for Soroswap policy constraints.
#[derive(Clone, Debug)]
pub enum SoroswapConstraint {
    /// Limit swap amounts
    SwapLimit {
        /// Maximum input amount per swap
        max_input: u64,
        /// Maximum output amount per swap
        max_output: u64,
        /// Allowed token pairs
        allowed_pairs: Vec<(Address, Address)>,
        /// Maximum slippage percentage (0-100)
        max_slippage_percent: u32,
    },
    /// Restrict liquidity operations
    LiquidityRestriction {
        /// Minimum liquidity to add
        min_add_amount: u64,
        /// Minimum liquidity to remove
        min_remove_amount: u64,
        /// Cooldown period between operations
        cooldown_ledgers: u32,
    },
    /// Time-based trading restrictions
    TradingHours {
        /// Start ledger offset (from midnight)
        start_offset: u32,
        /// End ledger offset (from midnight)
        end_offset: u32,
        /// Days of week (0=Sun, 1=Mon, etc.)
        allowed_days: Vec<u32>,
    },
}

// ── Slippage ─────────────────────────────────────────────────────────────────

/// The least acceptable output: `expected_output` less `slippage_percent`
/// percent, rounded down; zero from 100% on.
pub open spec fn min_output(expected_output: u64, slippage_percent: u32) -> int {
    if slippage_percent >= 100 {
        0
    } else {
        (expected_output * (100 - slippage_percent)) / 100
    }
}

/// The computation of [`min_output`] stays within `u64`.
pub open spec fn min_output_computable(expected_output: u64, slippage_percent: u32) -> bool {
    slippage_percent >= 100 || expected_output * (100 - slippage_percent) <= u64::MAX
}

/// Calculate minimum output given slippage percentage.
pub fn calculate_min_output(expected_output: u64, slippage_percent: u32) -> (r: u64)
    requires
        min_output_computable(expected_output, slippage_percent),
    ensures
        r == min_output(expected_output, slippage_percent),
        r <= expected_output,
{
    if slippage_percent >= 100 {
        return 0;
    }
    let slippage_factor = (100 - slippage_percent) as u64;
    let r = expected_output * slippage_factor / 100;
    assert(r <= expected_output) by (nonlinear_arith)
        requires
            r == expected_output * slippage_factor / 100,
            slippage_factor <= 100,
    ;
    r
}

/// Check if actual output meets minimum requirement; an expected output of
/// zero never does.
pub fn check_slippage(actual_output: u64, expected_output: u64, max_slippage_percent: u32) -> (r: bool)
    requires
        min_output_computable(expected_output, max_slippage_percent),
    ensures
        r == (expected_output != 0 && actual_output >= min_output(expected_output, max_slippage_percent)),
{
    if expected_output == 0 {
        return false;
    }
    let min_output = calculate_min_output(expected_output, max_slippage_percent);
    actual_output >= min_output
}

/// An output that passes the slippage check keeps passing when it grows,
/// and the exact expected output always passes.
pub proof fn lemma_slippage_monotone(actual: u64, larger: u64, expected: u64, max_slippage_percent: u32)
    requires
        expected != 0,
        actual <= larger,
        actual >= min_output(expected, max_slippage_percent),
        min_output_computable(expected, max_slippage_percent),
    ensures
        larger >= min_output(expected, max_slippage_percent),
        expected >= min_output(expected, max_slippage_percent),
{
    if max_slippage_percent < 100 {
        let f = 100 - max_slippage_percent;
        assert((expected * f) / 100 <= expected) by (nonlinear_arith)
            requires
                0 <= f <= 100,
        ;
    }
}

} // verus!
