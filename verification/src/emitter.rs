//! Fills the templates and emits a policy crate as file contents.
//!
//! Nothing here deploys anything: the output is reviewable code, and
//! deployment is always a separate, explicit step.
use vstd::prelude::*;

use crate::json::{JsonView, NumberView, as_unsigned, number_text};
use crate::policy_spec::{
    CompositionMode, PolicyLayer, PolicyLayerKind, PolicyLayerView, PolicySpec, PolicySpecView,
    clarifications_view, layers_view, mode_name_spec, param,
};
use crate::templates::{
    GITIGNORE, TemplateVars, TemplateVarsView, cargo_toml_spec, lib_rs_compose_spec, lib_rs_generate_spec,
    render_cargo_toml, render_lib_rs_compose, render_lib_rs_generate, render_review_md, review_md_spec,
};
use crate::text::{
    all_ascii, ascii_alphanumeric, ascii_sanitize_spec, char_to_uppercase, chars_of, decimal, decimal_string,
    is_alphanumeric, is_whitespace, is_word_sep, join,
    join_spec, pascal_from, pascal_spec, push_char, push_str, replace_char, replace_char_spec, sanitize_name,
    has_substring, sanitize_spec, str_eq, string_list_spec, to_owned_string, trim_end, trim_end_char, unicode_alphanumeric,
    unicode_uppercase, unicode_whitespace, views,
};

verus! {

/// The most layers an OZ account supports.
pub const MAX_LAYERS: usize = 5;

/// The output of emitting a policy crate.
#[derive(Debug)]
pub struct EmittedCrate {
    /// Suggested path of the generated crate's root
    pub crate_path: String,
    /// The files to write, as (path relative to `crate_path`, contents); paths are distinct
    pub files: Vec<(String, String)>,
    /// Full text of REVIEW.md (also among `files`)
    pub review_md: String,
    /// Human-readable summary of what was generated
    pub summary: EmitSummary,
}

/// A human-readable summary of an emit result.
#[derive(Debug)]
pub struct EmitSummary {
    /// Crate name
    pub crate_name: String,
    /// Composition mode used
    pub mode: String,
    /// Number of policy layers emitted
    pub layer_count: usize,
    /// The layers' descriptions
    pub layers: Vec<String>,
    /// Whether net-new code was generated (not compose-only)
    pub has_custom_code: bool,
    /// Clarifications still pending (warnings)
    pub pending_clarifications: Vec<String>,
}

/// Errors that emission reports.
#[derive(Debug)]
pub enum EmitError {
    /// More layers than an OZ account supports
    TooManyPolicies(usize),
    /// The policy name is empty or blank
    EmptyPolicyName,
    /// The policy name has a character a crate name cannot hold
    InvalidPolicyName(String),
    /// A spending-limit layer lacks a parameter
    MissingSpendingLimitParam(String),
}

/// The content of an [`EmitError`].
pub enum EmitErrorView {
    TooManyPolicies(usize),
    EmptyPolicyName,
    InvalidPolicyName(Seq<char>),
    MissingSpendingLimitParam(Seq<char>),
}

impl View for EmitError {
    type V = EmitErrorView;

    open spec fn view(&self) -> EmitErrorView {
        match self {
            EmitError::TooManyPolicies(n) => EmitErrorView::TooManyPolicies(*n),
            EmitError::EmptyPolicyName => EmitErrorView::EmptyPolicyName,
            EmitError::InvalidPolicyName(s) => EmitErrorView::InvalidPolicyName(s@),
            EmitError::MissingSpendingLimitParam(s) => EmitErrorView::MissingSpendingLimitParam(s@),
        }
    }
}

/// The message of an error.
pub open spec fn error_message(e: EmitErrorView) -> Seq<char> {
    match e {
        EmitErrorView::TooManyPolicies(n) => "Policy has "@ + decimal(n as nat) + " layers; OZ accounts supports at most 5"@,
        EmitErrorView::EmptyPolicyName => "Policy name is empty"@,
        EmitErrorView::InvalidPolicyName(s) => "Policy name contains invalid characters: "@ + s,
        EmitErrorView::MissingSpendingLimitParam(s) => "SpendingLimit layer is missing required param: "@ + s,
    }
}

impl EmitError {
    /// The error's message.
    pub fn message(&self) -> (r: String)
        ensures
            r@ == error_message(self@),
    {
        match self {
            EmitError::TooManyPolicies(n) => {
                let mut r = to_owned_string("Policy has ");
                crate::text::push_decimal(&mut r, *n as u128);
                push_str(&mut r, " layers; OZ accounts supports at most 5");
                r
            },
            EmitError::EmptyPolicyName => to_owned_string("Policy name is empty"),
            EmitError::InvalidPolicyName(s) => {
                let mut r = to_owned_string("Policy name contains invalid characters: ");
                push_str(&mut r, s.as_str());
                r
            },
            EmitError::MissingSpendingLimitParam(s) => {
                let mut r = to_owned_string("SpendingLimit layer is missing required param: ");
                push_str(&mut r, s.as_str());
                r
            },
        }
    }
}

// ── Validation ───────────────────────────────────────────────────────────────

/// A character a policy name may hold.
pub open spec fn name_char(c: char) -> bool {
    unicode_alphanumeric(c) || c == '-' || c == '_'
}

/// The first spending-limit layer without a cap, if any.
pub open spec fn missing_cap(ls: Seq<PolicyLayerView>) -> bool {
    exists|i: int|
        0 <= i < ls.len() && (#[trigger] ls[i]).kind == PolicyLayerKind::SpendingLimit && param(
            ls[i].params,
            "cap_amount_raw"@,
        ) is None
}

/// Why a policy specification cannot be emitted, if it cannot.
pub open spec fn validation_error(s: PolicySpecView) -> Option<EmitErrorView> {
    if forall|i: int| 0 <= i < s.policy_name.len() ==> unicode_whitespace(#[trigger] s.policy_name[i]) {
        Some(EmitErrorView::EmptyPolicyName)
    } else if !(forall|i: int| 0 <= i < s.policy_name.len() ==> name_char(#[trigger] s.policy_name[i])) {
        Some(EmitErrorView::InvalidPolicyName(s.policy_name))
    } else if s.policies.len() > 5 {
        Some(EmitErrorView::TooManyPolicies(s.policies.len() as usize))
    } else if missing_cap(s.policies) {
        Some(EmitErrorView::MissingSpendingLimitParam("cap_amount_raw"@))
    } else {
        None
    }
}

/// Checks that a policy specification can be emitted. For an ASCII name,
/// the characters a name may hold are exactly letters, digits, `-` and `_`.
pub fn validate_spec(spec: &PolicySpec) -> (r: Result<(), EmitError>)
    ensures
        match validation_error(spec@) {
            Some(e) => r matches Err(x) && x@ == e,
            None => r is Ok,
        },
        all_ascii(spec@.policy_name) ==> forall|i: int|
            0 <= i < spec@.policy_name.len() ==> unicode_alphanumeric(#[trigger] spec@.policy_name[i])
                == ascii_alphanumeric(spec@.policy_name[i]),
{
    let name = chars_of(spec.policy_name.as_str());
    let mut blank = true;
    let mut valid = true;
    let mut i: usize = 0;
    while i < name.len()
        invariant
            name@ == spec.policy_name@,
            i <= name@.len(),
            blank == forall|j: int| 0 <= j < i ==> unicode_whitespace(#[trigger] spec@.policy_name[j]),
            valid == forall|j: int| 0 <= j < i ==> name_char(#[trigger] spec@.policy_name[j]),
            all_ascii(spec@.policy_name) ==> forall|j: int|
                0 <= j < i ==> unicode_alphanumeric(#[trigger] spec@.policy_name[j]) == ascii_alphanumeric(
                    spec@.policy_name[j],
                ),
        decreases name.len() - i,
    {
        let c = name[i];
        assert(c == spec@.policy_name[i as int]);
        proof {
            if all_ascii(spec@.policy_name) {
                assert((spec@.policy_name[i as int] as u32) < 128);
            }
        }
        if !is_whitespace(c) {
            blank = false;
        }
        if !(is_alphanumeric(c) || c == '-' || c == '_') {
            valid = false;
        }
        i = i + 1;
    }
    if blank {
        return Err(EmitError::EmptyPolicyName);
    }
    if !valid {
        return Err(EmitError::InvalidPolicyName(spec.policy_name.clone()));
    }
    if spec.policies.len() > MAX_LAYERS {
        return Err(EmitError::TooManyPolicies(spec.policies.len()));
    }
    assert(validation_error(spec@) == (if missing_cap(spec@.policies) {
        Some(EmitErrorView::MissingSpendingLimitParam("cap_amount_raw"@))
    } else {
        None
    }));
    let mut i: usize = 0;
    while i < spec.policies.len()
        invariant
            i <= spec.policies@.len(),
            spec@.policies == layers_view(spec.policies@),
            all_ascii(spec@.policy_name) ==> forall|j: int|
                0 <= j < spec@.policy_name.len() ==> unicode_alphanumeric(#[trigger] spec@.policy_name[j])
                    == ascii_alphanumeric(spec@.policy_name[j]),
            validation_error(spec@) == (if missing_cap(spec@.policies) {
                Some(EmitErrorView::MissingSpendingLimitParam("cap_amount_raw"@))
            } else {
                None
            }),
            forall|j: int|
                0 <= j < i ==> !((#[trigger] spec@.policies[j]).kind == PolicyLayerKind::SpendingLimit && param(
                    spec@.policies[j].params,
                    "cap_amount_raw"@,
                ) is None),
        decreases spec.policies.len() - i,
    {
        let layer = &spec.policies[i];
        assert(spec@.policies[i as int] == layer@);
        if layer.kind == PolicyLayerKind::SpendingLimit {
            if !layer.params.contains_key("cap_amount_raw") {
                return Err(EmitError::MissingSpendingLimitParam(to_owned_string("cap_amount_raw")));
            }
        }
        i = i + 1;
    }
    Ok(())
}

// ── Template values ──────────────────────────────────────────────────────────

/// The first layer of a kind.
pub open spec fn find_kind(ls: Seq<PolicyLayerView>, k: PolicyLayerKind) -> Option<PolicyLayerView>
    decreases ls.len(),
{
    if ls.len() == 0 {
        None
    } else if ls[0].kind == k {
        Some(ls[0])
    } else {
        find_kind(ls.drop_first(), k)
    }
}

/// A parameter of an optional layer.
pub open spec fn layer_param(l: Option<PolicyLayerView>, key: Seq<char>) -> Option<JsonView> {
    match l {
        Some(x) => param(x.params, key),
        None => None,
    }
}

/// An unsigned integer parameter of an optional layer.
pub open spec fn layer_u64(l: Option<PolicyLayerView>, key: Seq<char>) -> Option<u64> {
    match layer_param(l, key) {
        Some(v) => as_unsigned(v),
        None => None,
    }
}

/// The spending cap's text: a string value as it is, an unsigned integer
/// in decimal, else `100_000_000`.
pub open spec fn cap_text(l: Option<PolicyLayerView>) -> Seq<char> {
    match layer_param(l, "cap_amount_raw"@) {
        Some(JsonView::String(t)) => t,
        Some(JsonView::Number(NumberView::PosInt(n))) => decimal(n as nat),
        _ => "100_000_000"@,
    }
}

/// The spending asset: a string value, else `CUNKNOWN`.
pub open spec fn asset_text(l: Option<PolicyLayerView>) -> Seq<char> {
    match layer_param(l, "asset_id"@) {
        Some(JsonView::String(t)) => t,
        _ => "CUNKNOWN"@,
    }
}

/// The spending window in seconds, else a day.
pub open spec fn spending_window(l: Option<PolicyLayerView>) -> u64 {
    match layer_u64(l, "window_seconds"@) {
        Some(n) => n,
        None => 86_400,
    }
}

/// The slippage bound's text: a number as a float displays it, else `5`.
pub open spec fn slippage_text(l: Option<PolicyLayerView>) -> Seq<char> {
    match layer_param(l, "max_slippage_percent"@) {
        Some(v) => match number_text(v) {
            Some(t) => t,
            None => "5"@,
        },
        None => "5"@,
    }
}

/// The values the templates are filled with.
pub open spec fn vars_spec(s: PolicySpecView) -> TemplateVarsView {
    let crate_name = sanitize_spec(s.policy_name, true);
    let spending = find_kind(s.policies, PolicyLayerKind::SpendingLimit);
    let window = spending_window(spending);
    let time_window = match layer_u64(find_kind(s.policies, PolicyLayerKind::TimeWindow), "window_seconds"@) {
        Some(n) => n,
        None => window,
    };
    TemplateVarsView {
        crate_name,
        policy_struct_name: pascal_spec(crate_name),
        policy_display_name: replace_char_spec(s.policy_name, '-', " "@),
        spending_limit_cap: cap_text(spending),
        spending_limit_asset: asset_text(spending),
        spending_limit_window: decimal(window as nat),
        time_window_secs: decimal(time_window as nat),
        slippage_percent: slippage_text(find_kind(s.policies, PolicyLayerKind::Custom)),
        context_contracts: string_list_spec(s.context_rule.contracts),
        context_functions: string_list_spec(s.context_rule.functions),
        context_lifetime_secs: decimal(s.context_rule.lifetime_seconds as nat),
        policy_description: if s.policies.len() == 0 {
            "Generated by OZ Policy Builder for '"@ + s.policy_name + "'"@
        } else {
            join_spec(s.policies.map_values(|l: PolicyLayerView| l.description), "; "@)
        },
        rationale: s.rationale,
    }
}

/// The position of the first layer of a kind.
fn find_layer(layers: &Vec<PolicyLayer>, kind: PolicyLayerKind) -> (r: Option<usize>)
    ensures
        match find_kind(layers_view(layers@), kind) {
            Some(l) => r matches Some(i) && i < layers@.len() && layers@[i as int]@ == l,
            None => r is None,
        },
{
    let ghost ls = layers_view(layers@);
    assert(ls.subrange(0, ls.len() as int) =~= ls);
    let mut i: usize = 0;
    while i < layers.len()
        invariant
            ls == layers_view(layers@),
            i <= layers@.len(),
            find_kind(ls, kind) == find_kind(ls.subrange(i as int, ls.len() as int), kind),
        decreases layers.len() - i,
    {
        let ghost rest = ls.subrange(i as int, ls.len() as int);
        assert(rest[0] == layers@[i as int]@);
        if layers[i].kind == kind {
            return Some(i);
        }
        assert(rest.drop_first() =~= ls.subrange(i + 1, ls.len() as int));
        i = i + 1;
    }
    None
}

/// Converts a kebab- or snake-case crate name to a PascalCase type name.
pub fn to_pascal_case(name: &str) -> (r: String)
    ensures
        r@ == pascal_spec(name@),
{
    let cs = chars_of(name);
    let mut r = String::new();
    let mut start = true;
    let mut i: usize = 0;
    assert(name@.subrange(0, name@.len() as int) =~= name@);
    while i < cs.len()
        invariant
            cs@ == name@,
            i <= cs@.len(),
            r@ + pascal_from(name@.subrange(i as int, name@.len() as int), start) == pascal_spec(name@),
        decreases cs.len() - i,
    {
        let c = cs[i];
        let ghost rest = name@.subrange(i as int, name@.len() as int);
        assert(rest[0] == c);
        assert(rest.drop_first() =~= name@.subrange(i + 1, name@.len() as int));
        let ghost before = r@;
        if c == '-' || c == '_' {
            start = true;
        } else if start {
            let up = char_to_uppercase(c);
            push_str(&mut r, up.as_str());
            start = false;
            assert(r@ + pascal_from(rest.drop_first(), false) =~= before + pascal_from(rest, true));
        } else {
            push_char(&mut r, c);
            assert(r@ + pascal_from(rest.drop_first(), false) =~= before + pascal_from(rest, false));
        }
        i = i + 1;
    }
    assert(name@.subrange(cs@.len() as int, name@.len() as int) =~= Seq::<char>::empty());
    assert(r@ =~= pascal_spec(name@));
    r
}

/// A crate name made of any string: leading and trailing `-` and `_`
/// removed, other characters a crate name cannot hold replaced by `-`,
/// then lowercased.
pub fn sanitize_crate_name(name: &str) -> (r: String)
    ensures
        r@ == sanitize_spec(name@, true),
        all_ascii(name@) ==> r@ == ascii_sanitize_spec(name@, true),
{
    sanitize_name(name, true)
}

/// Writes strings as a Rust array literal of string literals.
pub fn format_string_list(items: &Vec<String>) -> (r: String)
    ensures
        r@ == string_list_spec(items.deep_view()),
{
    let mut quoted: Vec<String> = Vec::new();
    let mut i: usize = 0;
    while i < items.len()
        invariant
            i <= items@.len(),
            quoted@.len() == i,
            forall|j: int| 0 <= j < i ==> #[trigger] quoted@[j]@ == "\""@ + items@[j]@ + "\""@,
        decreases items.len() - i,
    {
        let mut q = to_owned_string("\"");
        push_str(&mut q, items[i].as_str());
        push_str(&mut q, "\"");
        quoted.push(q);
        i = i + 1;
    }
    assert(views(quoted@) =~= items.deep_view().map_values(|s: Seq<char>| "\""@ + s + "\""@));
    let joined = join(&quoted, ", ");
    let mut r = to_owned_string("[");
    push_str(&mut r, joined.as_str());
    push_str(&mut r, "]");
    r
}

/// Fills the template values from a policy specification.
#[verifier::rlimit(30)]
pub fn build_vars(spec: &PolicySpec) -> (v: TemplateVars)
    ensures
        v@ == vars_spec(spec@),
{
    let crate_name = sanitize_crate_name(spec.policy_name.as_str());
    let policy_struct_name = to_pascal_case(crate_name.as_str());
    let spending = find_layer(&spec.policies, PolicyLayerKind::SpendingLimit);
    let ghost sp = find_kind(spec@.policies, PolicyLayerKind::SpendingLimit);
    let spending_limit_cap = match spending {
        Some(k) => match spec.policies[k].params.get("cap_amount_raw") {
            Some(v) => match v.as_str() {
                Some(t) => t.clone(),
                None => match v.as_u64() {
                    Some(n) => decimal_string(n as u128),
                    None => to_owned_string("100_000_000"),
                },
            },
            None => to_owned_string("100_000_000"),
        },
        None => to_owned_string("100_000_000"),
    };
    assert(spending_limit_cap@ == cap_text(sp));
    let spending_limit_asset = match spending {
        Some(k) => match spec.policies[k].params.get("asset_id") {
            Some(v) => match v.as_str() {
                Some(t) => t.clone(),
                None => to_owned_string("CUNKNOWN"),
            },
            None => to_owned_string("CUNKNOWN"),
        },
        None => to_owned_string("CUNKNOWN"),
    };
    assert(spending_limit_asset@ == asset_text(sp));
    let window: u64 = match spending {
        Some(k) => match spec.policies[k].params.get("window_seconds") {
            Some(v) => match v.as_u64() {
                Some(n) => n,
                None => 86_400,
            },
            None => 86_400,
        },
        None => 86_400,
    };
    assert(window == spending_window(sp));
    let time_window: u64 = match find_layer(&spec.policies, PolicyLayerKind::TimeWindow) {
        Some(k) => match spec.policies[k].params.get("window_seconds") {
            Some(v) => match v.as_u64() {
                Some(n) => n,
                None => window,
            },
            None => window,
        },
        None => window,
    };
    let slippage_percent = match find_layer(&spec.policies, PolicyLayerKind::Custom) {
        Some(k) => match spec.policies[k].params.get("max_slippage_percent") {
            Some(v) => match v.number_to_string() {
                Some(t) => t,
                None => to_owned_string("5"),
            },
            None => to_owned_string("5"),
        },
        None => to_owned_string("5"),
    };
    let context_contracts = format_string_list(&spec.context_rule.contracts);
    let context_functions = format_string_list(&spec.context_rule.functions);
    let context_lifetime_secs = decimal_string(spec.context_rule.lifetime_seconds as u128);
    let policy_description = if spec.policies.len() == 0 {
        let mut d = to_owned_string("Generated by OZ Policy Builder for '");
        push_str(&mut d, spec.policy_name.as_str());
        push_str(&mut d, "'");
        d
    } else {
        let mut descriptions: Vec<String> = Vec::new();
        let mut i: usize = 0;
        while i < spec.policies.len()
            invariant
                i <= spec.policies@.len(),
                descriptions@.len() == i,
                forall|j: int| 0 <= j < i ==> #[trigger] descriptions@[j]@ == spec.policies@[j].description@,
            decreases spec.policies.len() - i,
        {
            descriptions.push(spec.policies[i].description.clone());
            i = i + 1;
        }
        assert(views(descriptions@) =~= spec@.policies.map_values(|l: PolicyLayerView| l.description));
        join(&descriptions, "; ")
    };
    TemplateVars {
        crate_name,
        policy_struct_name,
        policy_display_name: replace_char(spec.policy_name.as_str(), '-', " "),
        spending_limit_cap,
        spending_limit_asset,
        spending_limit_window: decimal_string(window as u128),
        time_window_secs: decimal_string(time_window as u128),
        slippage_percent,
        context_contracts,
        context_functions,
        context_lifetime_secs,
        policy_description,
        rationale: spec.rationale.clone(),
    }
}

} // verus!

verus! {

// ── Emitting ─────────────────────────────────────────────────────────────────

/// The content of an [`EmitSummary`].
pub struct EmitSummaryView {
    pub crate_name: Seq<char>,
    pub mode: Seq<char>,
    pub layer_count: usize,
    pub layers: Seq<Seq<char>>,
    pub has_custom_code: bool,
    pub pending_clarifications: Seq<Seq<char>>,
}

/// The content of an [`EmittedCrate`].
pub struct EmittedCrateView {
    pub crate_path: Seq<char>,
    pub files: Seq<(Seq<char>, Seq<char>)>,
    pub review_md: Seq<char>,
    pub summary: EmitSummaryView,
}

impl View for EmitSummary {
    type V = EmitSummaryView;

    open spec fn view(&self) -> EmitSummaryView {
        EmitSummaryView {
            crate_name: self.crate_name@,
            mode: self.mode@,
            layer_count: self.layer_count,
            layers: self.layers.deep_view(),
            has_custom_code: self.has_custom_code,
            pending_clarifications: self.pending_clarifications.deep_view(),
        }
    }
}

/// The contents of a list of files.
pub open spec fn files_view(s: Seq<(String, String)>) -> Seq<(Seq<char>, Seq<char>)> {
    s.map_values(|f: (String, String)| (f.0@, f.1@))
}

impl View for EmittedCrate {
    type V = EmittedCrateView;

    open spec fn view(&self) -> EmittedCrateView {
        EmittedCrateView {
            crate_path: self.crate_path@,
            files: files_view(self.files@),
            review_md: self.review_md@,
            summary: self.summary@,
        }
    }
}

/// Where the crate goes: under the output directory (without its trailing
/// slashes), else under `generated`.
pub open spec fn crate_path_spec(dir: Option<Seq<char>>, name: Seq<char>) -> Seq<char> {
    match dir {
        Some(d) => trim_end_char(d, '/') + "/"@ + name,
        None => "generated/"@ + name,
    }
}

/// The optional output directory's text.
pub open spec fn dir_view(dir: Option<&str>) -> Option<Seq<char>> {
    match dir {
        Some(d) => Some(d@),
        None => None,
    }
}

/// Some layer needs net-new code.
pub open spec fn has_custom_layer(ls: Seq<PolicyLayerView>) -> bool {
    exists|i: int| 0 <= i < ls.len() && !(#[trigger] ls[i]).oz_primitive
}

/// The crate emitted for a valid policy specification.
pub open spec fn emitted_spec(s: PolicySpecView, dir: Option<Seq<char>>) -> EmittedCrateView {
    let v = vars_spec(s);
    let lib = match s.composition_mode {
        CompositionMode::Compose => lib_rs_compose_spec(v),
        CompositionMode::Generate => lib_rs_generate_spec(v),
    };
    let review = review_md_spec(v);
    EmittedCrateView {
        crate_path: crate_path_spec(dir, v.crate_name),
        files: seq![
            ("Cargo.toml"@, cargo_toml_spec(v)),
            (".gitignore"@, GITIGNORE@),
            ("src/lib.rs"@, lib),
            ("REVIEW.md"@, review),
        ],
        review_md: review,
        summary: EmitSummaryView {
            crate_name: v.crate_name,
            mode: mode_name_spec(s.composition_mode),
            layer_count: s.policies.len() as usize,
            layers: s.policies.map_values(|l: PolicyLayerView| l.description),
            has_custom_code: s.composition_mode == CompositionMode::Generate || has_custom_layer(s.policies),
            pending_clarifications: s.clarifications_needed.map_values(
                |c: crate::policy_spec::ClarificationView| "["@ + c.field + "] "@ + c.question,
            ),
        },
    }
}

/// Emits a full policy crate from a policy specification: the contents of
/// its files, which the caller writes out.
pub fn emit_policy_crate(spec: &PolicySpec, output_dir: Option<&str>) -> (r: Result<EmittedCrate, EmitError>)
    ensures
        match validation_error(spec@) {
            Some(e) => r matches Err(x) && x@ == e,
            None => r matches Ok(c) && c@ == emitted_spec(spec@, dir_view(output_dir)),
        },
{
    match validate_spec(spec) {
        Err(e) => {
            return Err(e);
        },
        Ok(()) => {},
    }
    let vars = build_vars(spec);
    let crate_name = vars.crate_name.clone();
    let crate_path = match output_dir {
        Some(dir) => {
            let mut p = trim_end(dir, '/');
            push_str(&mut p, "/");
            push_str(&mut p, crate_name.as_str());
            p
        },
        None => {
            let mut p = to_owned_string("generated/");
            push_str(&mut p, crate_name.as_str());
            p
        },
    };
    let mut files: Vec<(String, String)> = Vec::new();
    files.push((to_owned_string("Cargo.toml"), render_cargo_toml(&vars)));
    files.push((to_owned_string(".gitignore"), to_owned_string(GITIGNORE)));
    let lib_rs = match spec.composition_mode {
        CompositionMode::Compose => render_lib_rs_compose(&vars),
        CompositionMode::Generate => render_lib_rs_generate(&vars),
    };
    files.push((to_owned_string("src/lib.rs"), lib_rs));
    let review_md = render_review_md(&vars);
    files.push((to_owned_string("REVIEW.md"), review_md.clone()));
    let mut has_custom = false;
    let mut layers: Vec<String> = Vec::new();
    let mut i: usize = 0;
    while i < spec.policies.len()
        invariant
            i <= spec.policies@.len(),
            layers@.len() == i,
            forall|j: int| 0 <= j < i ==> #[trigger] layers@[j]@ == spec.policies@[j].description@,
            has_custom == exists|j: int| 0 <= j < i && !(#[trigger] spec.policies@[j]).oz_primitive,
        decreases spec.policies.len() - i,
    {
        if !spec.policies[i].oz_primitive {
            has_custom = true;
        }
        layers.push(spec.policies[i].description.clone());
        i = i + 1;
    }
    assert(layers.deep_view() =~= spec@.policies.map_values(|l: PolicyLayerView| l.description));
    assert(has_custom == has_custom_layer(spec@.policies)) by {
        if has_custom {
            let j = choose|j: int| 0 <= j < spec.policies@.len() && !(#[trigger] spec.policies@[j]).oz_primitive;
            assert(!spec@.policies[j].oz_primitive);
        }
        if has_custom_layer(spec@.policies) {
            let j = choose|j: int| 0 <= j < spec@.policies.len() && !(#[trigger] spec@.policies[j]).oz_primitive;
            assert(!spec.policies@[j].oz_primitive);
        }
    }
    let mut pending: Vec<String> = Vec::new();
    let mut i: usize = 0;
    while i < spec.clarifications_needed.len()
        invariant
            i <= spec.clarifications_needed@.len(),
            pending@.len() == i,
            forall|j: int| 0 <= j < i ==> #[trigger] pending@[j]@ == "["@ + spec.clarifications_needed@[j].field@
                + "] "@ + spec.clarifications_needed@[j].question@,
        decreases spec.clarifications_needed.len() - i,
    {
        let q = &spec.clarifications_needed[i];
        let mut line = to_owned_string("[");
        push_str(&mut line, q.field.as_str());
        push_str(&mut line, "] ");
        push_str(&mut line, q.question.as_str());
        pending.push(line);
        i = i + 1;
    }
    assert(pending.deep_view() =~= spec@.clarifications_needed.map_values(
        |c: crate::policy_spec::ClarificationView| "["@ + c.field + "] "@ + c.question,
    ));
    let is_generate = match spec.composition_mode {
        CompositionMode::Generate => true,
        CompositionMode::Compose => false,
    };
    let summary = EmitSummary {
        crate_name: crate_name.clone(),
        mode: to_owned_string(spec.composition_mode.debug_name()),
        layer_count: spec.policies.len(),
        layers,
        has_custom_code: is_generate || has_custom,
        pending_clarifications: pending,
    };
    let emitted = EmittedCrate { crate_path, files, review_md, summary };
    assert(emitted@.files =~= emitted_spec(spec@, dir_view(output_dir)).files);
    Ok(emitted)
}

impl EmittedCrate {
    /// The contents of the file at `path`, if the crate has one.
    pub fn file(&self, path: &str) -> (r: Option<&String>)
        ensures
            match r {
                Some(c) => exists|i: int| 0 <= i < self@.files.len() && self@.files[i] == (path@, c@),
                None => forall|i: int| 0 <= i < self@.files.len() ==> self@.files[i].0 != path@,
            },
    {
        let mut i: usize = 0;
        while i < self.files.len()
            invariant
                i <= self.files@.len(),
                forall|j: int| 0 <= j < i ==> self@.files[j].0 != path@,
            decreases self.files.len() - i,
        {
            assert(self@.files[i as int] == (self.files@[i as int].0@, self.files@[i as int].1@));
            if str_eq(self.files[i].0.as_str(), path) {
                return Some(&self.files[i].1);
            }
            i = i + 1;
        }
        None
    }
}

/// The emitted crate's files have distinct paths, and REVIEW.md among
/// them is the review text.
pub proof fn lemma_emitted_files(s: PolicySpecView, dir: Option<Seq<char>>)
    ensures
        forall|i: int, j: int|
            0 <= i < j < emitted_spec(s, dir).files.len() ==> #[trigger] emitted_spec(s, dir).files[i].0
                != #[trigger] emitted_spec(s, dir).files[j].0,
        emitted_spec(s, dir).files[3] == ("REVIEW.md"@, emitted_spec(s, dir).review_md),
{
    reveal_strlit("Cargo.toml");
    reveal_strlit(".gitignore");
    reveal_strlit("src/lib.rs");
    reveal_strlit("REVIEW.md");
    assert("Cargo.toml"@[0] != ".gitignore"@[0]);
    assert("Cargo.toml"@[0] != "src/lib.rs"@[0]);
    assert("Cargo.toml"@.len() != "REVIEW.md"@.len());
    assert(".gitignore"@[0] != "src/lib.rs"@[0]);
    assert(".gitignore"@.len() != "REVIEW.md"@.len());
    assert("src/lib.rs"@.len() != "REVIEW.md"@.len());
}

/// The first layer of a kind is found.
proof fn lemma_find_kind_first(ls: Seq<PolicyLayerView>, k: PolicyLayerKind, i: int)
    requires
        0 <= i < ls.len(),
        ls[i].kind == k,
        forall|j: int| 0 <= j < i ==> (#[trigger] ls[j]).kind != k,
    ensures
        find_kind(ls, k) == Some(ls[i]),
    decreases i,
{
    if i > 0 {
        assert forall|j: int| 0 <= j < i - 1 implies (#[trigger] ls.drop_first()[j]).kind != k by {
            assert(ls.drop_first()[j] == ls[j + 1]);
        }
        lemma_find_kind_first(ls.drop_first(), k, i - 1);
    }
}

/// The emitted src/lib.rs declares as its spending cap exactly the
/// `cap_amount_raw` text of the policy's first spending-limit layer: as the
/// constant `SPENDING_LIMIT_CAP` in compose mode, as `CAP` in generate mode.
pub proof fn lemma_emitted_cap(s: PolicySpecView, dir: Option<Seq<char>>, k: int, cap: Seq<char>)
    requires
        0 <= k < s.policies.len(),
        s.policies[k].kind == PolicyLayerKind::SpendingLimit,
        forall|j: int| 0 <= j < k ==> (#[trigger] s.policies[j]).kind != PolicyLayerKind::SpendingLimit,
        param(s.policies[k].params, "cap_amount_raw"@) == Some(JsonView::String(cap)),
    ensures
        emitted_spec(s, dir).files[2].0 == "src/lib.rs"@,
        has_substring(
            emitted_spec(s, dir).files[2].1,
            (if s.composition_mode == CompositionMode::Compose {
                "pub const SPENDING_LIMIT_CAP: i128 = "@
            } else {
                "const CAP: i128 = "@
            }) + cap + ";"@,
        ),
{
    lemma_find_kind_first(s.policies, PolicyLayerKind::SpendingLimit, k);
    let v = vars_spec(s);
    assert(v.spending_limit_cap == cap);
    crate::templates::lemma_lib_rs_declares_values(v);
}

} // verus!
