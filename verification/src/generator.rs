//! The request that drives code generation for a net-new policy.
use vstd::prelude::*;

use crate::policy_spec::{PolicySpec, PolicySpecView};
use crate::text::{all_ascii, ascii_sanitize_spec, replace_char, replace_char_spec, sanitize_name, sanitize_spec, to_owned_string};

verus! {

/// What generating a new policy crate needs.
#[derive(Debug)]
pub struct GenerationRequest {
    /// Sanitized crate name (kebab-case)
    pub crate_name: String,
    /// Human-readable policy name
    pub display_name: String,
    /// Output directory path
    pub output_dir: String,
}

/// A crate name made of a policy name: leading and trailing `-` removed,
/// characters a crate name cannot hold replaced by `-`, then lowercased.
pub fn sanitize_crate_name(name: &str) -> (r: String)
    ensures
        r@ == sanitize_spec(name@, false),
        all_ascii(name@) ==> r@ == ascii_sanitize_spec(name@, false),
{
    sanitize_name(name, false)
}

impl GenerationRequest {
    /// A generation request for a policy specification and an output directory.
    pub fn from_spec(spec: &PolicySpec, output_dir: &str) -> (r: GenerationRequest)
        ensures
            r.crate_name@ == sanitize_spec(spec@.policy_name, false),
            r.display_name@ == replace_char_spec(spec@.policy_name, '-', " "@),
            r.output_dir@ == output_dir@,
    {
        let crate_name = sanitize_crate_name(spec.policy_name.as_str());
        let display_name = replace_char(spec.policy_name.as_str(), '-', " ");
        GenerationRequest { crate_name, display_name, output_dir: to_owned_string(output_dir) }
    }
}

} // verus!
