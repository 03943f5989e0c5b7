//! Policy synthesis and enforcement for smart accounts: the policy
//! contracts' rules, and the pipeline that records a transaction,
//! synthesizes a policy for it, tests the policy and emits its code.
use vstd::prelude::*;

pub mod allowlist;
pub mod asset_extractor;
pub mod blend;
pub mod bounded_swap;
pub mod composer;
pub mod composite;
pub mod context;
pub mod decision_tree;
pub mod deny;
pub mod emitter;
pub mod frequency_limit;
pub mod generator;
pub mod harness;
pub mod invocation_tree;
pub mod json;
pub mod manifest;
pub mod mutations;
pub mod num;
pub mod permit;
pub mod policy_spec;
pub mod sep41;
pub mod simulation;
pub mod soroswap;
pub mod spending_limit;
pub mod storage;
pub mod subscription;
pub mod templates;
pub mod text;
pub mod time_window;
pub mod xdr;
pub mod yield_claim;

verus! {
} // verus!
