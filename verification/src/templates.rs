//! The files of a generated policy crate, as templates filled from
//! [`TemplateVars`].
use vstd::prelude::*;

use crate::text::{has_substring, occurs_at, push_str, to_owned_string};

verus! {

/// The values a template is filled with.
#[derive(Debug)]
pub struct TemplateVars {
    pub crate_name: String,
    pub policy_struct_name: String,
    pub policy_display_name: String,
    pub spending_limit_cap: String,
    pub spending_limit_asset: String,
    pub spending_limit_window: String,
    pub time_window_secs: String,
    pub slippage_percent: String,
    pub context_contracts: String,
    pub context_functions: String,
    pub context_lifetime_secs: String,
    pub policy_description: String,
    pub rationale: String,
}

/// The content of [`TemplateVars`].
pub struct TemplateVarsView {
    pub crate_name: Seq<char>,
    pub policy_struct_name: Seq<char>,
    pub policy_display_name: Seq<char>,
    pub spending_limit_cap: Seq<char>,
    pub spending_limit_asset: Seq<char>,
    pub spending_limit_window: Seq<char>,
    pub time_window_secs: Seq<char>,
    pub slippage_percent: Seq<char>,
    pub context_contracts: Seq<char>,
    pub context_functions: Seq<char>,
    pub context_lifetime_secs: Seq<char>,
    pub policy_description: Seq<char>,
    pub rationale: Seq<char>,
}

impl View for TemplateVars {
    type V = TemplateVarsView;

    open spec fn view(&self) -> TemplateVarsView {
        TemplateVarsView {
            crate_name: self.crate_name@,
            policy_struct_name: self.policy_struct_name@,
            policy_display_name: self.policy_display_name@,
            spending_limit_cap: self.spending_limit_cap@,
            spending_limit_asset: self.spending_limit_asset@,
            spending_limit_window: self.spending_limit_window@,
            time_window_secs: self.time_window_secs@,
            slippage_percent: self.slippage_percent@,
            context_contracts: self.context_contracts@,
            context_functions: self.context_functions@,
            context_lifetime_secs: self.context_lifetime_secs@,
            policy_description: self.policy_description@,
            rationale: self.rationale@,
        }
    }
}

// ── Cargo.toml ───────────────────────────────────────────────────────────────

pub const CARGO_NAME: &'static str = "[package]
name = \"";

pub const CARGO_DESCRIPTION: &'static str = "\"
version = \"0.1.0\"
edition = \"2021\"
description = \"";

pub const CARGO_REST: &'static str = " (policy generated by OZ Policy Builder)\"
publish = false

[lib]
crate-type = [\"cdylib\", \"rlib\"]

[dependencies]
soroban-sdk = \"22\"

[dev-dependencies]
soroban-sdk = { version = \"22\", features = [\"testutils\"] }
";

/// The generated crate's Cargo.toml.
pub open spec fn cargo_toml_spec(v: TemplateVarsView) -> Seq<char> {
    CARGO_NAME@ + v.crate_name + CARGO_DESCRIPTION@ + v.policy_display_name + CARGO_REST@
}

/// Fills the Cargo.toml template.
pub fn render_cargo_toml(vars: &TemplateVars) -> (r: String)
    ensures
        r@ == cargo_toml_spec(vars@),
{
    let mut r = to_owned_string(CARGO_NAME);
    push_str(&mut r, vars.crate_name.as_str());
    push_str(&mut r, CARGO_DESCRIPTION);
    push_str(&mut r, vars.policy_display_name.as_str());
    push_str(&mut r, CARGO_REST);
    assert(r@ =~= cargo_toml_spec(vars@));
    r
}

// ── .gitignore ───────────────────────────────────────────────────────────────

pub const GITIGNORE: &'static str = "/target
Cargo.lock
";

// ── src/lib.rs, compose mode ─────────────────────────────────────────────────

/// The end of a constant's declaration.
pub const DECLARATION_END: &'static str = ";";

/// The end of a text constant's declaration.
pub const TEXT_DECLARATION_END: &'static str = "\";";

/// The start of a struct's declaration.
pub const STRUCT_DECLARATION: &'static str = "pub struct ";

/// The start of an impl block.
pub const IMPL_DECLARATION: &'static str = "impl ";

pub const COMPOSE_HEAD: &'static str = "//! ";

pub const COMPOSE_DESCRIPTION: &'static str = "
//!
//! ";

pub const COMPOSE_CAP: &'static str = "
//!
//! Composes existing OpenZeppelin account primitives; each constant below
//! is an install parameter. Read REVIEW.md before installing.
#![no_std]

use soroban_sdk::{contract, contractimpl, Env, String};

/// Spending cap per window (raw units).
";

pub const COMPOSE_CAP_DECLARATION: &'static str = "pub const SPENDING_LIMIT_CAP: i128 = ";

pub const COMPOSE_ASSET: &'static str = "
/// Asset the spending limit applies to.
";

pub const COMPOSE_ASSET_DECLARATION: &'static str = "pub const SPENDING_LIMIT_ASSET: &'static str = \"";

pub const COMPOSE_WINDOW: &'static str = "
/// Spending window in seconds.
";

pub const COMPOSE_WINDOW_DECLARATION: &'static str = "pub const SPENDING_LIMIT_WINDOW_SECS: u64 = ";

pub const COMPOSE_TIME_WINDOW: &'static str = "
/// Minimum time between invocations, in seconds.
";

pub const COMPOSE_TIME_WINDOW_DECLARATION: &'static str = "pub const TIME_WINDOW_SECS: u64 = ";

pub const COMPOSE_CONTRACTS: &'static str = "
/// Contracts the context rule allows.
";

pub const COMPOSE_CONTRACTS_DECLARATION: &'static str = "pub const CONTEXT_CONTRACTS: &[&str] = &";

pub const COMPOSE_FUNCTIONS: &'static str = "
/// Functions the context rule allows.
";

pub const COMPOSE_FUNCTIONS_DECLARATION: &'static str = "pub const CONTEXT_FUNCTIONS: &[&str] = &";

pub const COMPOSE_LIFETIME: &'static str = "
/// Lifetime of the context rule, in seconds.
";

pub const COMPOSE_LIFETIME_DECLARATION: &'static str = "pub const CONTEXT_LIFETIME_SECS: u64 = ";

pub const COMPOSE_STRUCT: &'static str = "

#[contract]
";

pub const COMPOSE_IMPL: &'static str = "

#[contractimpl]
";

pub const COMPOSE_TAIL: &'static str = " {
    /// What this policy enforces.
    pub fn description(env: Env) -> String {
        String::from_str(&env, CONTEXT_DESCRIPTION)
    }
}

const CONTEXT_DESCRIPTION: &str = \"See REVIEW.md\";
";

/// The generated crate's src/lib.rs in compose mode.
pub open spec fn lib_rs_compose_spec(v: TemplateVarsView) -> Seq<char> {
    COMPOSE_HEAD@ + v.policy_display_name + COMPOSE_DESCRIPTION@ + v.policy_description + COMPOSE_CAP@
        + COMPOSE_CAP_DECLARATION@ + v.spending_limit_cap + DECLARATION_END@ + COMPOSE_ASSET@
        + COMPOSE_ASSET_DECLARATION@ + v.spending_limit_asset + TEXT_DECLARATION_END@ + COMPOSE_WINDOW@
        + COMPOSE_WINDOW_DECLARATION@ + v.spending_limit_window + DECLARATION_END@ + COMPOSE_TIME_WINDOW@
        + COMPOSE_TIME_WINDOW_DECLARATION@ + v.time_window_secs + DECLARATION_END@ + COMPOSE_CONTRACTS@
        + COMPOSE_CONTRACTS_DECLARATION@ + v.context_contracts + DECLARATION_END@ + COMPOSE_FUNCTIONS@
        + COMPOSE_FUNCTIONS_DECLARATION@ + v.context_functions + DECLARATION_END@ + COMPOSE_LIFETIME@
        + COMPOSE_LIFETIME_DECLARATION@ + v.context_lifetime_secs + DECLARATION_END@ + COMPOSE_STRUCT@
        + STRUCT_DECLARATION@ + v.policy_struct_name + DECLARATION_END@ + COMPOSE_IMPL@ + IMPL_DECLARATION@
        + v.policy_struct_name + COMPOSE_TAIL@
}

/// Fills the compose-mode src/lib.rs template.
pub fn render_lib_rs_compose(vars: &TemplateVars) -> (r: String)
    ensures
        r@ == lib_rs_compose_spec(vars@),
{
    let mut r = to_owned_string(COMPOSE_HEAD);
    push_str(&mut r, vars.policy_display_name.as_str());
    push_str(&mut r, COMPOSE_DESCRIPTION);
    push_str(&mut r, vars.policy_description.as_str());
    push_str(&mut r, COMPOSE_CAP);
    push_str(&mut r, COMPOSE_CAP_DECLARATION);
    push_str(&mut r, vars.spending_limit_cap.as_str());
    push_str(&mut r, DECLARATION_END);
    push_str(&mut r, COMPOSE_ASSET);
    push_str(&mut r, COMPOSE_ASSET_DECLARATION);
    push_str(&mut r, vars.spending_limit_asset.as_str());
    push_str(&mut r, TEXT_DECLARATION_END);
    push_str(&mut r, COMPOSE_WINDOW);
    push_str(&mut r, COMPOSE_WINDOW_DECLARATION);
    push_str(&mut r, vars.spending_limit_window.as_str());
    push_str(&mut r, DECLARATION_END);
    push_str(&mut r, COMPOSE_TIME_WINDOW);
    push_str(&mut r, COMPOSE_TIME_WINDOW_DECLARATION);
    push_str(&mut r, vars.time_window_secs.as_str());
    push_str(&mut r, DECLARATION_END);
    push_str(&mut r, COMPOSE_CONTRACTS);
    push_str(&mut r, COMPOSE_CONTRACTS_DECLARATION);
    push_str(&mut r, vars.context_contracts.as_str());
    push_str(&mut r, DECLARATION_END);
    push_str(&mut r, COMPOSE_FUNCTIONS);
    push_str(&mut r, COMPOSE_FUNCTIONS_DECLARATION);
    push_str(&mut r, vars.context_functions.as_str());
    push_str(&mut r, DECLARATION_END);
    push_str(&mut r, COMPOSE_LIFETIME);
    push_str(&mut r, COMPOSE_LIFETIME_DECLARATION);
    push_str(&mut r, vars.context_lifetime_secs.as_str());
    push_str(&mut r, DECLARATION_END);
    push_str(&mut r, COMPOSE_STRUCT);
    push_str(&mut r, STRUCT_DECLARATION);
    push_str(&mut r, vars.policy_struct_name.as_str());
    push_str(&mut r, DECLARATION_END);
    push_str(&mut r, COMPOSE_IMPL);
    push_str(&mut r, IMPL_DECLARATION);
    push_str(&mut r, vars.policy_struct_name.as_str());
    push_str(&mut r, COMPOSE_TAIL);
    assert(r@ =~= lib_rs_compose_spec(vars@));
    r
}

// ── src/lib.rs, generate mode ────────────────────────────────────────────────

pub const GENERATE_HEAD: &'static str = "//! ";

pub const GENERATE_DESCRIPTION: &'static str = "
//!
//! ";

pub const GENERATE_RATIONALE: &'static str = "
//!
//! Net-new policy: ";

pub const GENERATE_CAP: &'static str = "
#![no_std]

use soroban_sdk::{contract, contracterror, contractimpl, contracttype, Address, Env};

/// Spending cap per window (raw units).
";

pub const GENERATE_CAP_DECLARATION: &'static str = "const CAP: i128 = ";

pub const GENERATE_WINDOW: &'static str = "
/// Spending window in seconds.
";

pub const GENERATE_WINDOW_DECLARATION: &'static str = "const WINDOW_SECS: u64 = ";

pub const GENERATE_TIME_WINDOW: &'static str = "
/// Minimum time between invocations, in seconds.
";

pub const GENERATE_TIME_WINDOW_DECLARATION: &'static str = "const TIME_WINDOW_SECS: u64 = ";

pub const GENERATE_SLIPPAGE: &'static str = "
/// Largest slippage a swap may have, in percent.
";

pub const GENERATE_SLIPPAGE_DECLARATION: &'static str = "pub const MAX_SLIPPAGE_PERCENT: &'static str = \"";

pub const GENERATE_STRUCT: &'static str = "

#[contracttype]
#[derive(Clone)]
pub struct SpendState {
    pub spent: i128,
    pub window_start: u64,
    pub last_call: u64,
}

#[contracterror]
#[derive(Copy, Clone, Debug, Eq, PartialEq)]
#[repr(u32)]
pub enum PolicyError {
    LimitExceeded = 1,
    TooSoon = 2,
}

#[contract]
";

pub const GENERATE_IMPL: &'static str = "

#[contractimpl]
";

pub const GENERATE_TAIL: &'static str = " {
    /// Records a spend of `amount` by `account`, or refuses it.
    pub fn enforce(env: Env, account: Address, amount: i128) -> Result<(), PolicyError> {
        account.require_auth();
        let now = env.ledger().timestamp();
        let mut state: SpendState = env
            .storage()
            .persistent()
            .get(&account)
            .unwrap_or(SpendState { spent: 0, window_start: now, last_call: 0 });
        if now >= state.window_start.saturating_add(WINDOW_SECS) {
            state.spent = 0;
            state.window_start = now;
        }
        if state.spent.saturating_add(amount) > CAP {
            return Err(PolicyError::LimitExceeded);
        }
        if state.last_call != 0 && now < state.last_call.saturating_add(TIME_WINDOW_SECS) {
            return Err(PolicyError::TooSoon);
        }
        state.spent += amount;
        state.last_call = now;
        env.storage().persistent().set(&account, &state);
        Ok(())
    }
}
";

/// The generated crate's src/lib.rs in generate mode.
pub open spec fn lib_rs_generate_spec(v: TemplateVarsView) -> Seq<char> {
    GENERATE_HEAD@ + v.policy_display_name + GENERATE_DESCRIPTION@ + v.policy_description
        + GENERATE_RATIONALE@ + v.rationale + GENERATE_CAP@ + GENERATE_CAP_DECLARATION@ + v.spending_limit_cap
        + DECLARATION_END@ + GENERATE_WINDOW@ + GENERATE_WINDOW_DECLARATION@ + v.spending_limit_window
        + DECLARATION_END@ + GENERATE_TIME_WINDOW@ + GENERATE_TIME_WINDOW_DECLARATION@ + v.time_window_secs
        + DECLARATION_END@ + GENERATE_SLIPPAGE@ + GENERATE_SLIPPAGE_DECLARATION@ + v.slippage_percent
        + TEXT_DECLARATION_END@ + GENERATE_STRUCT@ + STRUCT_DECLARATION@ + v.policy_struct_name
        + DECLARATION_END@ + GENERATE_IMPL@ + IMPL_DECLARATION@ + v.policy_struct_name + GENERATE_TAIL@
}

/// Fills the generate-mode src/lib.rs template.
pub fn render_lib_rs_generate(vars: &TemplateVars) -> (r: String)
    ensures
        r@ == lib_rs_generate_spec(vars@),
{
    let mut r = to_owned_string(GENERATE_HEAD);
    push_str(&mut r, vars.policy_display_name.as_str());
    push_str(&mut r, GENERATE_DESCRIPTION);
    push_str(&mut r, vars.policy_description.as_str());
    push_str(&mut r, GENERATE_RATIONALE);
    push_str(&mut r, vars.rationale.as_str());
    push_str(&mut r, GENERATE_CAP);
    push_str(&mut r, GENERATE_CAP_DECLARATION);
    push_str(&mut r, vars.spending_limit_cap.as_str());
    push_str(&mut r, DECLARATION_END);
    push_str(&mut r, GENERATE_WINDOW);
    push_str(&mut r, GENERATE_WINDOW_DECLARATION);
    push_str(&mut r, vars.spending_limit_window.as_str());
    push_str(&mut r, DECLARATION_END);
    push_str(&mut r, GENERATE_TIME_WINDOW);
    push_str(&mut r, GENERATE_TIME_WINDOW_DECLARATION);
    push_str(&mut r, vars.time_window_secs.as_str());
    push_str(&mut r, DECLARATION_END);
    push_str(&mut r, GENERATE_SLIPPAGE);
    push_str(&mut r, GENERATE_SLIPPAGE_DECLARATION);
    push_str(&mut r, vars.slippage_percent.as_str());
    push_str(&mut r, TEXT_DECLARATION_END);
    push_str(&mut r, GENERATE_STRUCT);
    push_str(&mut r, STRUCT_DECLARATION);
    push_str(&mut r, vars.policy_struct_name.as_str());
    push_str(&mut r, DECLARATION_END);
    push_str(&mut r, GENERATE_IMPL);
    push_str(&mut r, IMPL_DECLARATION);
    push_str(&mut r, vars.policy_struct_name.as_str());
    push_str(&mut r, GENERATE_TAIL);
    assert(r@ =~= lib_rs_generate_spec(vars@));
    r
}

// ── REVIEW.md ────────────────────────────────────────────────────────────────

pub const REVIEW_HEAD: &'static str = "# Review: ";

pub const REVIEW_CRATE: &'static str = "

Crate: `";

pub const REVIEW_WHAT: &'static str = "`

## What this policy does

";

pub const REVIEW_WHY: &'static str = "

## Why

";

pub const REVIEW_CAP: &'static str = "

## Parameters

| Parameter | Value |
|---|---|
| Spending cap (raw) | ";

pub const REVIEW_ASSET: &'static str = " |
| Spending asset | ";

pub const REVIEW_WINDOW: &'static str = " |
| Spending window (seconds) | ";

pub const REVIEW_TIME_WINDOW: &'static str = " |
| Time between invocations (seconds) | ";

pub const REVIEW_SLIPPAGE: &'static str = " |
| Max slippage (%) | ";

pub const REVIEW_CONTRACTS: &'static str = " |
| Context contracts | ";

pub const REVIEW_FUNCTIONS: &'static str = " |
| Context functions | ";

pub const REVIEW_LIFETIME: &'static str = " |
| Context rule lifetime (seconds) | ";

pub const REVIEW_TAIL: &'static str = " |

## Before deploying

- Read `src/lib.rs` in full.
- Check every address above against the protocol's published deployments.
- Deployment is a separate, explicit step: nothing here deploys the crate.
";

/// The generated crate's REVIEW.md.
pub open spec fn review_md_spec(v: TemplateVarsView) -> Seq<char> {
    REVIEW_HEAD@ + v.policy_display_name + REVIEW_CRATE@ + v.crate_name + REVIEW_WHAT@ + v.policy_description
        + REVIEW_WHY@ + v.rationale + REVIEW_CAP@ + v.spending_limit_cap + REVIEW_ASSET@
        + v.spending_limit_asset + REVIEW_WINDOW@ + v.spending_limit_window + REVIEW_TIME_WINDOW@
        + v.time_window_secs + REVIEW_SLIPPAGE@ + v.slippage_percent + REVIEW_CONTRACTS@
        + v.context_contracts + REVIEW_FUNCTIONS@ + v.context_functions + REVIEW_LIFETIME@
        + v.context_lifetime_secs + REVIEW_TAIL@
}

/// Fills the REVIEW.md template.
pub fn render_review_md(vars: &TemplateVars) -> (r: String)
    ensures
        r@ == review_md_spec(vars@),
{
    let mut r = to_owned_string(REVIEW_HEAD);
    push_str(&mut r, vars.policy_display_name.as_str());
    push_str(&mut r, REVIEW_CRATE);
    push_str(&mut r, vars.crate_name.as_str());
    push_str(&mut r, REVIEW_WHAT);
    push_str(&mut r, vars.policy_description.as_str());
    push_str(&mut r, REVIEW_WHY);
    push_str(&mut r, vars.rationale.as_str());
    push_str(&mut r, REVIEW_CAP);
    push_str(&mut r, vars.spending_limit_cap.as_str());
    push_str(&mut r, REVIEW_ASSET);
    push_str(&mut r, vars.spending_limit_asset.as_str());
    push_str(&mut r, REVIEW_WINDOW);
    push_str(&mut r, vars.spending_limit_window.as_str());
    push_str(&mut r, REVIEW_TIME_WINDOW);
    push_str(&mut r, vars.time_window_secs.as_str());
    push_str(&mut r, REVIEW_SLIPPAGE);
    push_str(&mut r, vars.slippage_percent.as_str());
    push_str(&mut r, REVIEW_CONTRACTS);
    push_str(&mut r, vars.context_contracts.as_str());
    push_str(&mut r, REVIEW_FUNCTIONS);
    push_str(&mut r, vars.context_functions.as_str());
    push_str(&mut r, REVIEW_LIFETIME);
    push_str(&mut r, vars.context_lifetime_secs.as_str());
    push_str(&mut r, REVIEW_TAIL);
    assert(r@ =~= review_md_spec(vars@));
    r
}

#[verifier::rlimit(60)]
proof fn lemma_compose_declares_spending_limit_cap(v: TemplateVarsView)
    ensures
        has_substring(lib_rs_compose_spec(v), "pub const SPENDING_LIMIT_CAP: i128 = "@ + v.spending_limit_cap
            + ";"@),
{
    let d = "pub const SPENDING_LIMIT_CAP: i128 = "@ + v.spending_limit_cap + ";"@;
    let pre = COMPOSE_HEAD@ + v.policy_display_name + COMPOSE_DESCRIPTION@ + v.policy_description + COMPOSE_CAP@;
    let text = lib_rs_compose_spec(v);
    assert(text =~= pre + d + (COMPOSE_ASSET@ + COMPOSE_ASSET_DECLARATION@ + v.spending_limit_asset
        + TEXT_DECLARATION_END@ + COMPOSE_WINDOW@ + COMPOSE_WINDOW_DECLARATION@ + v.spending_limit_window
        + DECLARATION_END@ + COMPOSE_TIME_WINDOW@ + COMPOSE_TIME_WINDOW_DECLARATION@ + v.time_window_secs
        + DECLARATION_END@ + COMPOSE_CONTRACTS@ + COMPOSE_CONTRACTS_DECLARATION@ + v.context_contracts
        + DECLARATION_END@ + COMPOSE_FUNCTIONS@ + COMPOSE_FUNCTIONS_DECLARATION@ + v.context_functions
        + DECLARATION_END@ + COMPOSE_LIFETIME@ + COMPOSE_LIFETIME_DECLARATION@ + v.context_lifetime_secs
        + DECLARATION_END@ + COMPOSE_STRUCT@ + STRUCT_DECLARATION@ + v.policy_struct_name + DECLARATION_END@
        + COMPOSE_IMPL@ + IMPL_DECLARATION@ + v.policy_struct_name + COMPOSE_TAIL@));
    assert(text.subrange(pre.len() as int, (pre.len() + d.len()) as int) =~= d);
    assert(occurs_at(text, d, pre.len() as int));
}

#[verifier::rlimit(60)]
proof fn lemma_compose_declares_spending_limit_asset(v: TemplateVarsView)
    ensures
        has_substring(lib_rs_compose_spec(v), "pub const SPENDING_LIMIT_ASSET: &'static str = \""@
            + v.spending_limit_asset + "\";"@),
{
    let d = "pub const SPENDING_LIMIT_ASSET: &'static str = \""@ + v.spending_limit_asset + "\";"@;
    let pre = COMPOSE_HEAD@ + v.policy_display_name + COMPOSE_DESCRIPTION@ + v.policy_description
        + COMPOSE_CAP@ + COMPOSE_CAP_DECLARATION@ + v.spending_limit_cap + DECLARATION_END@ + COMPOSE_ASSET@;
    let text = lib_rs_compose_spec(v);
    assert(text =~= pre + d + (COMPOSE_WINDOW@ + COMPOSE_WINDOW_DECLARATION@ + v.spending_limit_window
        + DECLARATION_END@ + COMPOSE_TIME_WINDOW@ + COMPOSE_TIME_WINDOW_DECLARATION@ + v.time_window_secs
        + DECLARATION_END@ + COMPOSE_CONTRACTS@ + COMPOSE_CONTRACTS_DECLARATION@ + v.context_contracts
        + DECLARATION_END@ + COMPOSE_FUNCTIONS@ + COMPOSE_FUNCTIONS_DECLARATION@ + v.context_functions
        + DECLARATION_END@ + COMPOSE_LIFETIME@ + COMPOSE_LIFETIME_DECLARATION@ + v.context_lifetime_secs
        + DECLARATION_END@ + COMPOSE_STRUCT@ + STRUCT_DECLARATION@ + v.policy_struct_name + DECLARATION_END@
        + COMPOSE_IMPL@ + IMPL_DECLARATION@ + v.policy_struct_name + COMPOSE_TAIL@));
    assert(text.subrange(pre.len() as int, (pre.len() + d.len()) as int) =~= d);
    assert(occurs_at(text, d, pre.len() as int));
}

#[verifier::rlimit(60)]
proof fn lemma_compose_declares_spending_limit_window(v: TemplateVarsView)
    ensures
        has_substring(lib_rs_compose_spec(v), "pub const SPENDING_LIMIT_WINDOW_SECS: u64 = "@
            + v.spending_limit_window + ";"@),
{
    let d = "pub const SPENDING_LIMIT_WINDOW_SECS: u64 = "@ + v.spending_limit_window + ";"@;
    let pre = COMPOSE_HEAD@ + v.policy_display_name + COMPOSE_DESCRIPTION@ + v.policy_description
        + COMPOSE_CAP@ + COMPOSE_CAP_DECLARATION@ + v.spending_limit_cap + DECLARATION_END@ + COMPOSE_ASSET@
        + COMPOSE_ASSET_DECLARATION@ + v.spending_limit_asset + TEXT_DECLARATION_END@ + COMPOSE_WINDOW@;
    let text = lib_rs_compose_spec(v);
    assert(text =~= pre + d + (COMPOSE_TIME_WINDOW@ + COMPOSE_TIME_WINDOW_DECLARATION@ + v.time_window_secs
        + DECLARATION_END@ + COMPOSE_CONTRACTS@ + COMPOSE_CONTRACTS_DECLARATION@ + v.context_contracts
        + DECLARATION_END@ + COMPOSE_FUNCTIONS@ + COMPOSE_FUNCTIONS_DECLARATION@ + v.context_functions
        + DECLARATION_END@ + COMPOSE_LIFETIME@ + COMPOSE_LIFETIME_DECLARATION@ + v.context_lifetime_secs
        + DECLARATION_END@ + COMPOSE_STRUCT@ + STRUCT_DECLARATION@ + v.policy_struct_name + DECLARATION_END@
        + COMPOSE_IMPL@ + IMPL_DECLARATION@ + v.policy_struct_name + COMPOSE_TAIL@));
    assert(text.subrange(pre.len() as int, (pre.len() + d.len()) as int) =~= d);
    assert(occurs_at(text, d, pre.len() as int));
}

#[verifier::rlimit(60)]
proof fn lemma_compose_declares_time_window_secs(v: TemplateVarsView)
    ensures
        has_substring(lib_rs_compose_spec(v), "pub const TIME_WINDOW_SECS: u64 = "@ + v.time_window_secs + ";"@),
{
    let d = "pub const TIME_WINDOW_SECS: u64 = "@ + v.time_window_secs + ";"@;
    let pre = COMPOSE_HEAD@ + v.policy_display_name + COMPOSE_DESCRIPTION@ + v.policy_description
        + COMPOSE_CAP@ + COMPOSE_CAP_DECLARATION@ + v.spending_limit_cap + DECLARATION_END@ + COMPOSE_ASSET@
        + COMPOSE_ASSET_DECLARATION@ + v.spending_limit_asset + TEXT_DECLARATION_END@ + COMPOSE_WINDOW@
        + COMPOSE_WINDOW_DECLARATION@ + v.spending_limit_window + DECLARATION_END@ + COMPOSE_TIME_WINDOW@;
    let text = lib_rs_compose_spec(v);
    assert(text =~= pre + d + (COMPOSE_CONTRACTS@ + COMPOSE_CONTRACTS_DECLARATION@ + v.context_contracts
        + DECLARATION_END@ + COMPOSE_FUNCTIONS@ + COMPOSE_FUNCTIONS_DECLARATION@ + v.context_functions
        + DECLARATION_END@ + COMPOSE_LIFETIME@ + COMPOSE_LIFETIME_DECLARATION@ + v.context_lifetime_secs
        + DECLARATION_END@ + COMPOSE_STRUCT@ + STRUCT_DECLARATION@ + v.policy_struct_name + DECLARATION_END@
        + COMPOSE_IMPL@ + IMPL_DECLARATION@ + v.policy_struct_name + COMPOSE_TAIL@));
    assert(text.subrange(pre.len() as int, (pre.len() + d.len()) as int) =~= d);
    assert(occurs_at(text, d, pre.len() as int));
}

#[verifier::rlimit(60)]
proof fn lemma_compose_declares_context_contracts(v: TemplateVarsView)
    ensures
        has_substring(lib_rs_compose_spec(v), "pub const CONTEXT_CONTRACTS: &[&str] = &"@
            + v.context_contracts + ";"@),
{
    let d = "pub const CONTEXT_CONTRACTS: &[&str] = &"@ + v.context_contracts + ";"@;
    let pre = COMPOSE_HEAD@ + v.policy_display_name + COMPOSE_DESCRIPTION@ + v.policy_description
        + COMPOSE_CAP@ + COMPOSE_CAP_DECLARATION@ + v.spending_limit_cap + DECLARATION_END@ + COMPOSE_ASSET@
        + COMPOSE_ASSET_DECLARATION@ + v.spending_limit_asset + TEXT_DECLARATION_END@ + COMPOSE_WINDOW@
        + COMPOSE_WINDOW_DECLARATION@ + v.spending_limit_window + DECLARATION_END@ + COMPOSE_TIME_WINDOW@
        + COMPOSE_TIME_WINDOW_DECLARATION@ + v.time_window_secs + DECLARATION_END@ + COMPOSE_CONTRACTS@;
    let text = lib_rs_compose_spec(v);
    assert(text =~= pre + d + (COMPOSE_FUNCTIONS@ + COMPOSE_FUNCTIONS_DECLARATION@ + v.context_functions
        + DECLARATION_END@ + COMPOSE_LIFETIME@ + COMPOSE_LIFETIME_DECLARATION@ + v.context_lifetime_secs
        + DECLARATION_END@ + COMPOSE_STRUCT@ + STRUCT_DECLARATION@ + v.policy_struct_name + DECLARATION_END@
        + COMPOSE_IMPL@ + IMPL_DECLARATION@ + v.policy_struct_name + COMPOSE_TAIL@));
    assert(text.subrange(pre.len() as int, (pre.len() + d.len()) as int) =~= d);
    assert(occurs_at(text, d, pre.len() as int));
}

#[verifier::rlimit(60)]
proof fn lemma_compose_declares_context_functions(v: TemplateVarsView)
    ensures
        has_substring(lib_rs_compose_spec(v), "pub const CONTEXT_FUNCTIONS: &[&str] = &"@
            + v.context_functions + ";"@),
{
    let d = "pub const CONTEXT_FUNCTIONS: &[&str] = &"@ + v.context_functions + ";"@;
    let pre = COMPOSE_HEAD@ + v.policy_display_name + COMPOSE_DESCRIPTION@ + v.policy_description
        + COMPOSE_CAP@ + COMPOSE_CAP_DECLARATION@ + v.spending_limit_cap + DECLARATION_END@ + COMPOSE_ASSET@
        + COMPOSE_ASSET_DECLARATION@ + v.spending_limit_asset + TEXT_DECLARATION_END@ + COMPOSE_WINDOW@
        + COMPOSE_WINDOW_DECLARATION@ + v.spending_limit_window + DECLARATION_END@ + COMPOSE_TIME_WINDOW@
        + COMPOSE_TIME_WINDOW_DECLARATION@ + v.time_window_secs + DECLARATION_END@ + COMPOSE_CONTRACTS@
        + COMPOSE_CONTRACTS_DECLARATION@ + v.context_contracts + DECLARATION_END@ + COMPOSE_FUNCTIONS@;
    let text = lib_rs_compose_spec(v);
    assert(text =~= pre + d + (COMPOSE_LIFETIME@ + COMPOSE_LIFETIME_DECLARATION@ + v.context_lifetime_secs
        + DECLARATION_END@ + COMPOSE_STRUCT@ + STRUCT_DECLARATION@ + v.policy_struct_name + DECLARATION_END@
        + COMPOSE_IMPL@ + IMPL_DECLARATION@ + v.policy_struct_name + COMPOSE_TAIL@));
    assert(text.subrange(pre.len() as int, (pre.len() + d.len()) as int) =~= d);
    assert(occurs_at(text, d, pre.len() as int));
}

#[verifier::rlimit(60)]
proof fn lemma_compose_declares_context_lifetime_secs(v: TemplateVarsView)
    ensures
        has_substring(lib_rs_compose_spec(v), "pub const CONTEXT_LIFETIME_SECS: u64 = "@
            + v.context_lifetime_secs + ";"@),
{
    let d = "pub const CONTEXT_LIFETIME_SECS: u64 = "@ + v.context_lifetime_secs + ";"@;
    let pre = COMPOSE_HEAD@ + v.policy_display_name + COMPOSE_DESCRIPTION@ + v.policy_description
        + COMPOSE_CAP@ + COMPOSE_CAP_DECLARATION@ + v.spending_limit_cap + DECLARATION_END@ + COMPOSE_ASSET@
        + COMPOSE_ASSET_DECLARATION@ + v.spending_limit_asset + TEXT_DECLARATION_END@ + COMPOSE_WINDOW@
        + COMPOSE_WINDOW_DECLARATION@ + v.spending_limit_window + DECLARATION_END@ + COMPOSE_TIME_WINDOW@
        + COMPOSE_TIME_WINDOW_DECLARATION@ + v.time_window_secs + DECLARATION_END@ + COMPOSE_CONTRACTS@
        + COMPOSE_CONTRACTS_DECLARATION@ + v.context_contracts + DECLARATION_END@ + COMPOSE_FUNCTIONS@
        + COMPOSE_FUNCTIONS_DECLARATION@ + v.context_functions + DECLARATION_END@ + COMPOSE_LIFETIME@;
    let text = lib_rs_compose_spec(v);
    assert(text =~= pre + d + (COMPOSE_STRUCT@ + STRUCT_DECLARATION@ + v.policy_struct_name + DECLARATION_END@
        + COMPOSE_IMPL@ + IMPL_DECLARATION@ + v.policy_struct_name + COMPOSE_TAIL@));
    assert(text.subrange(pre.len() as int, (pre.len() + d.len()) as int) =~= d);
    assert(occurs_at(text, d, pre.len() as int));
}

#[verifier::rlimit(60)]
proof fn lemma_compose_declares_policy_struct_name(v: TemplateVarsView)
    ensures
        has_substring(lib_rs_compose_spec(v), "pub struct "@ + v.policy_struct_name + ";"@),
{
    let d = "pub struct "@ + v.policy_struct_name + ";"@;
    let pre = COMPOSE_HEAD@ + v.policy_display_name + COMPOSE_DESCRIPTION@ + v.policy_description
        + COMPOSE_CAP@ + COMPOSE_CAP_DECLARATION@ + v.spending_limit_cap + DECLARATION_END@ + COMPOSE_ASSET@
        + COMPOSE_ASSET_DECLARATION@ + v.spending_limit_asset + TEXT_DECLARATION_END@ + COMPOSE_WINDOW@
        + COMPOSE_WINDOW_DECLARATION@ + v.spending_limit_window + DECLARATION_END@ + COMPOSE_TIME_WINDOW@
        + COMPOSE_TIME_WINDOW_DECLARATION@ + v.time_window_secs + DECLARATION_END@ + COMPOSE_CONTRACTS@
        + COMPOSE_CONTRACTS_DECLARATION@ + v.context_contracts + DECLARATION_END@ + COMPOSE_FUNCTIONS@
        + COMPOSE_FUNCTIONS_DECLARATION@ + v.context_functions + DECLARATION_END@ + COMPOSE_LIFETIME@
        + COMPOSE_LIFETIME_DECLARATION@ + v.context_lifetime_secs + DECLARATION_END@ + COMPOSE_STRUCT@;
    let text = lib_rs_compose_spec(v);
    assert(text =~= pre + d + (COMPOSE_IMPL@ + IMPL_DECLARATION@ + v.policy_struct_name + COMPOSE_TAIL@));
    assert(text.subrange(pre.len() as int, (pre.len() + d.len()) as int) =~= d);
    assert(occurs_at(text, d, pre.len() as int));
}

#[verifier::rlimit(60)]
proof fn lemma_generate_declares_spending_limit_cap(v: TemplateVarsView)
    ensures
        has_substring(lib_rs_generate_spec(v), "const CAP: i128 = "@ + v.spending_limit_cap + ";"@),
{
    let d = "const CAP: i128 = "@ + v.spending_limit_cap + ";"@;
    let pre = GENERATE_HEAD@ + v.policy_display_name + GENERATE_DESCRIPTION@ + v.policy_description
        + GENERATE_RATIONALE@ + v.rationale + GENERATE_CAP@;
    let text = lib_rs_generate_spec(v);
    assert(text =~= pre + d + (GENERATE_WINDOW@ + GENERATE_WINDOW_DECLARATION@ + v.spending_limit_window
        + DECLARATION_END@ + GENERATE_TIME_WINDOW@ + GENERATE_TIME_WINDOW_DECLARATION@ + v.time_window_secs
        + DECLARATION_END@ + GENERATE_SLIPPAGE@ + GENERATE_SLIPPAGE_DECLARATION@ + v.slippage_percent
        + TEXT_DECLARATION_END@ + GENERATE_STRUCT@ + STRUCT_DECLARATION@ + v.policy_struct_name
        + DECLARATION_END@ + GENERATE_IMPL@ + IMPL_DECLARATION@ + v.policy_struct_name + GENERATE_TAIL@));
    assert(text.subrange(pre.len() as int, (pre.len() + d.len()) as int) =~= d);
    assert(occurs_at(text, d, pre.len() as int));
}

#[verifier::rlimit(60)]
proof fn lemma_generate_declares_spending_limit_window(v: TemplateVarsView)
    ensures
        has_substring(lib_rs_generate_spec(v), "const WINDOW_SECS: u64 = "@ + v.spending_limit_window + ";"@),
{
    let d = "const WINDOW_SECS: u64 = "@ + v.spending_limit_window + ";"@;
    let pre = GENERATE_HEAD@ + v.policy_display_name + GENERATE_DESCRIPTION@ + v.policy_description
        + GENERATE_RATIONALE@ + v.rationale + GENERATE_CAP@ + GENERATE_CAP_DECLARATION@ + v.spending_limit_cap
        + DECLARATION_END@ + GENERATE_WINDOW@;
    let text = lib_rs_generate_spec(v);
    assert(text =~= pre + d + (GENERATE_TIME_WINDOW@ + GENERATE_TIME_WINDOW_DECLARATION@ + v.time_window_secs
        + DECLARATION_END@ + GENERATE_SLIPPAGE@ + GENERATE_SLIPPAGE_DECLARATION@ + v.slippage_percent
        + TEXT_DECLARATION_END@ + GENERATE_STRUCT@ + STRUCT_DECLARATION@ + v.policy_struct_name
        + DECLARATION_END@ + GENERATE_IMPL@ + IMPL_DECLARATION@ + v.policy_struct_name + GENERATE_TAIL@));
    assert(text.subrange(pre.len() as int, (pre.len() + d.len()) as int) =~= d);
    assert(occurs_at(text, d, pre.len() as int));
}

#[verifier::rlimit(60)]
proof fn lemma_generate_declares_time_window_secs(v: TemplateVarsView)
    ensures
        has_substring(lib_rs_generate_spec(v), "const TIME_WINDOW_SECS: u64 = "@ + v.time_window_secs + ";"@),
{
    let d = "const TIME_WINDOW_SECS: u64 = "@ + v.time_window_secs + ";"@;
    let pre = GENERATE_HEAD@ + v.policy_display_name + GENERATE_DESCRIPTION@ + v.policy_description
        + GENERATE_RATIONALE@ + v.rationale + GENERATE_CAP@ + GENERATE_CAP_DECLARATION@ + v.spending_limit_cap
        + DECLARATION_END@ + GENERATE_WINDOW@ + GENERATE_WINDOW_DECLARATION@ + v.spending_limit_window
        + DECLARATION_END@ + GENERATE_TIME_WINDOW@;
    let text = lib_rs_generate_spec(v);
    assert(text =~= pre + d + (GENERATE_SLIPPAGE@ + GENERATE_SLIPPAGE_DECLARATION@ + v.slippage_percent
        + TEXT_DECLARATION_END@ + GENERATE_STRUCT@ + STRUCT_DECLARATION@ + v.policy_struct_name
        + DECLARATION_END@ + GENERATE_IMPL@ + IMPL_DECLARATION@ + v.policy_struct_name + GENERATE_TAIL@));
    assert(text.subrange(pre.len() as int, (pre.len() + d.len()) as int) =~= d);
    assert(occurs_at(text, d, pre.len() as int));
}

#[verifier::rlimit(60)]
proof fn lemma_generate_declares_slippage_percent(v: TemplateVarsView)
    ensures
        has_substring(lib_rs_generate_spec(v), "pub const MAX_SLIPPAGE_PERCENT: &'static str = \""@
            + v.slippage_percent + "\";"@),
{
    let d = "pub const MAX_SLIPPAGE_PERCENT: &'static str = \""@ + v.slippage_percent + "\";"@;
    let pre = GENERATE_HEAD@ + v.policy_display_name + GENERATE_DESCRIPTION@ + v.policy_description
        + GENERATE_RATIONALE@ + v.rationale + GENERATE_CAP@ + GENERATE_CAP_DECLARATION@ + v.spending_limit_cap
        + DECLARATION_END@ + GENERATE_WINDOW@ + GENERATE_WINDOW_DECLARATION@ + v.spending_limit_window
        + DECLARATION_END@ + GENERATE_TIME_WINDOW@ + GENERATE_TIME_WINDOW_DECLARATION@ + v.time_window_secs
        + DECLARATION_END@ + GENERATE_SLIPPAGE@;
    let text = lib_rs_generate_spec(v);
    assert(text =~= pre + d + (GENERATE_STRUCT@ + STRUCT_DECLARATION@ + v.policy_struct_name
        + DECLARATION_END@ + GENERATE_IMPL@ + IMPL_DECLARATION@ + v.policy_struct_name + GENERATE_TAIL@));
    assert(text.subrange(pre.len() as int, (pre.len() + d.len()) as int) =~= d);
    assert(occurs_at(text, d, pre.len() as int));
}

#[verifier::rlimit(60)]
proof fn lemma_generate_declares_policy_struct_name(v: TemplateVarsView)
    ensures
        has_substring(lib_rs_generate_spec(v), "pub struct "@ + v.policy_struct_name + ";"@),
{
    let d = "pub struct "@ + v.policy_struct_name + ";"@;
    let pre = GENERATE_HEAD@ + v.policy_display_name + GENERATE_DESCRIPTION@ + v.policy_description
        + GENERATE_RATIONALE@ + v.rationale + GENERATE_CAP@ + GENERATE_CAP_DECLARATION@ + v.spending_limit_cap
        + DECLARATION_END@ + GENERATE_WINDOW@ + GENERATE_WINDOW_DECLARATION@ + v.spending_limit_window
        + DECLARATION_END@ + GENERATE_TIME_WINDOW@ + GENERATE_TIME_WINDOW_DECLARATION@ + v.time_window_secs
        + DECLARATION_END@ + GENERATE_SLIPPAGE@ + GENERATE_SLIPPAGE_DECLARATION@ + v.slippage_percent
        + TEXT_DECLARATION_END@ + GENERATE_STRUCT@;
    let text = lib_rs_generate_spec(v);
    assert(text =~= pre + d + (GENERATE_IMPL@ + IMPL_DECLARATION@ + v.policy_struct_name + GENERATE_TAIL@));
    assert(text.subrange(pre.len() as int, (pre.len() + d.len()) as int) =~= d);
    assert(occurs_at(text, d, pre.len() as int));
}

/// The generated src/lib.rs declares each install parameter as exactly the
/// value it was given: each constant's declaration is followed by the
/// variable's text and closed right after it (in compose mode the cap, asset,
/// windows, context contracts, functions and lifetime, and the policy
/// struct; in generate mode the cap, windows, slippage bound and struct).
pub proof fn lemma_lib_rs_declares_values(v: TemplateVarsView)
    ensures
        has_substring(lib_rs_compose_spec(v), "pub const SPENDING_LIMIT_CAP: i128 = "@ + v.spending_limit_cap
            + ";"@),
        has_substring(lib_rs_compose_spec(v), "pub const SPENDING_LIMIT_ASSET: &'static str = \""@
            + v.spending_limit_asset + "\";"@),
        has_substring(lib_rs_compose_spec(v), "pub const SPENDING_LIMIT_WINDOW_SECS: u64 = "@
            + v.spending_limit_window + ";"@),
        has_substring(lib_rs_compose_spec(v), "pub const TIME_WINDOW_SECS: u64 = "@ + v.time_window_secs + ";"@),
        has_substring(lib_rs_compose_spec(v), "pub const CONTEXT_CONTRACTS: &[&str] = &"@
            + v.context_contracts + ";"@),
        has_substring(lib_rs_compose_spec(v), "pub const CONTEXT_FUNCTIONS: &[&str] = &"@
            + v.context_functions + ";"@),
        has_substring(lib_rs_compose_spec(v), "pub const CONTEXT_LIFETIME_SECS: u64 = "@
            + v.context_lifetime_secs + ";"@),
        has_substring(lib_rs_compose_spec(v), "pub struct "@ + v.policy_struct_name + ";"@),
        has_substring(lib_rs_generate_spec(v), "const CAP: i128 = "@ + v.spending_limit_cap + ";"@),
        has_substring(lib_rs_generate_spec(v), "const WINDOW_SECS: u64 = "@ + v.spending_limit_window + ";"@),
        has_substring(lib_rs_generate_spec(v), "const TIME_WINDOW_SECS: u64 = "@ + v.time_window_secs + ";"@),
        has_substring(lib_rs_generate_spec(v), "pub const MAX_SLIPPAGE_PERCENT: &'static str = \""@
            + v.slippage_percent + "\";"@),
        has_substring(lib_rs_generate_spec(v), "pub struct "@ + v.policy_struct_name + ";"@),
{
    lemma_compose_declares_spending_limit_cap(v);
    lemma_compose_declares_spending_limit_asset(v);
    lemma_compose_declares_spending_limit_window(v);
    lemma_compose_declares_time_window_secs(v);
    lemma_compose_declares_context_contracts(v);
    lemma_compose_declares_context_functions(v);
    lemma_compose_declares_context_lifetime_secs(v);
    lemma_compose_declares_policy_struct_name(v);
    lemma_generate_declares_spending_limit_cap(v);
    lemma_generate_declares_spending_limit_window(v);
    lemma_generate_declares_time_window_secs(v);
    lemma_generate_declares_slippage_percent(v);
    lemma_generate_declares_policy_struct_name(v);
}

} // verus!
