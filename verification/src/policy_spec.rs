//! The policy specification: what the synthesizer produces and the harness
//! and code generator consume.
use vstd::prelude::*;

use crate::json::{first_member, lemma_members_view, members_view, FloatValue, JsonValue, JsonView};
use crate::text::{clone_opt, clone_strings, str_eq};

verus! {

/// Seconds in a year, the default lifetime of a context rule.
pub const ONE_YEAR_SECS: u64 = 31_536_000;

/// The parameters of a policy layer: a map from names to JSON values.
/// Entries keep the order in which they were first inserted.
#[derive(Debug)]
pub struct Params {
    pub entries: Vec<(String, JsonValue)>,
}

impl View for Params {
    type V = Seq<(Seq<char>, JsonView)>;

    open spec fn view(&self) -> Seq<(Seq<char>, JsonView)> {
        members_view(self.entries@)
    }
}

/// No name occurs twice among the entries.
pub open spec fn distinct_names(m: Seq<(Seq<char>, JsonView)>) -> bool {
    forall|i: int, j: int| 0 <= i < j < m.len() ==> #[trigger] m[i].0 != #[trigger] m[j].0
}

/// The value stored under `key`.
pub open spec fn param(m: Seq<(Seq<char>, JsonView)>, key: Seq<char>) -> Option<JsonView> {
    first_member(m, key)
}

/// `first_member` finds the entry at a position whose name no earlier entry has.
pub proof fn lemma_first_member_at(m: Seq<(Seq<char>, JsonView)>, key: Seq<char>, i: int)
    requires
        0 <= i < m.len(),
        m[i].0 == key,
        forall|j: int| 0 <= j < i ==> m[j].0 != key,
    ensures
        first_member(m, key) == Some(m[i].1),
    decreases i,
{
    if i > 0 {
        lemma_first_member_at(m.drop_first(), key, i - 1);
    }
}

/// `first_member` finds nothing when no entry has the name.
pub proof fn lemma_first_member_absent(m: Seq<(Seq<char>, JsonView)>, key: Seq<char>)
    requires
        forall|j: int| 0 <= j < m.len() ==> m[j].0 != key,
    ensures
        first_member(m, key) is None,
    decreases m.len(),
{
    if m.len() > 0 {
        lemma_first_member_absent(m.drop_first(), key);
    }
}

impl Params {
    /// No parameters.
    pub fn new() -> (r: Params)
        ensures
            r@ == Seq::<(Seq<char>, JsonView)>::empty(),
    {
        Params { entries: Vec::new() }
    }

    /// The names are distinct.
    pub open spec fn wf(&self) -> bool {
        distinct_names(self@)
    }

    /// The value stored under `key`.
    pub fn get(&self, key: &str) -> (r: Option<&JsonValue>)
        ensures
            match param(self@, key@) {
                Some(x) => r matches Some(y) && y@ == x,
                None => r is None,
            },
    {
        proof {
            lemma_members_view(self.entries@);
        }
        let mut i: usize = 0;
        while i < self.entries.len()
            invariant
                i <= self.entries@.len(),
                self@.len() == self.entries@.len(),
                forall|j: int| 0 <= j < self.entries@.len() ==> #[trigger] self@[j] == (
                    self.entries@[j].0@,
                    self.entries@[j].1@,
                ),
                forall|j: int| 0 <= j < i ==> self@[j].0 != key@,
            decreases self.entries.len() - i,
        {
            if str_eq(self.entries[i].0.as_str(), key) {
                proof {
                    lemma_first_member_at(self@, key@, i as int);
                }
                return Some(&self.entries[i].1);
            }
            i = i + 1;
        }
        proof {
            lemma_first_member_absent(self@, key@);
        }
        None
    }

    /// Whether a value is stored under `key`.
    pub fn contains_key(&self, key: &str) -> (r: bool)
        ensures
            r == param(self@, key@) is Some,
    {
        self.get(key).is_some()
    }

    /// Stores `value` under `key`, replacing a value stored there before.
    pub fn insert(&mut self, key: String, value: JsonValue)
        ensures
            (exists|i: int| 0 <= i < old(self)@.len() && old(self)@[i].0 == key@) ==> (exists|i: int|
                0 <= i < old(self)@.len() && old(self)@[i].0 == key@ && final(self)@ == old(
                    self,
                )@.update(i, (key@, value@))),
            (forall|i: int| 0 <= i < old(self)@.len() ==> old(self)@[i].0 != key@) ==> final(self)@
                == old(self)@.push((key@, value@)),
            param(final(self)@, key@) == Some(value@),
            forall|k: Seq<char>| k != key@ ==> param(final(self)@, k) == param(old(self)@, k),
            old(self).wf() ==> final(self).wf(),
    {
        proof {
            lemma_members_view(self.entries@);
        }
        let ghost before = self@;
        let mut i: usize = 0;
        while i < self.entries.len()
            invariant
                i <= self.entries@.len(),
                self.entries@ == old(self).entries@,
                before == old(self)@,
                before.len() == self.entries@.len(),
                forall|j: int| 0 <= j < self.entries@.len() ==> #[trigger] before[j] == (
                    self.entries@[j].0@,
                    self.entries@[j].1@,
                ),
                forall|j: int| 0 <= j < i ==> before[j].0 != key@,
            decreases self.entries.len() - i,
        {
            if str_eq(self.entries[i].0.as_str(), key.as_str()) {
                let ghost vv = value@;
                assert(before[i as int].0 == key@);
                self.entries.set(i, (key, value));
                proof {
                    lemma_members_view(self.entries@);
                    assert forall|j: int| 0 <= j < before.len() implies #[trigger] self@[j].0 == before[j].0 by {
                    }
                    assert(self@ =~= before.update(i as int, (key@, vv)));
                    lemma_first_member_at(self@, key@, i as int);
                    assert forall|k: Seq<char>| k != key@ implies param(self@, k) == param(before, k) by {
                        lemma_first_member_eq(before, self@, k);
                    }
                }
                return;
            }
            i = i + 1;
        }
        let ghost kv = key@;
        let ghost vv = value@;
        self.entries.push((key, value));
        proof {
            lemma_members_view(self.entries@);
            assert(self@ =~= before.push((kv, vv)));
            lemma_first_member_at(self@, kv, before.len() as int);
            assert forall|k: Seq<char>| k != kv implies param(self@, k) == param(before, k) by {
                lemma_first_member_prefix(before, (kv, vv), k);
            }
        }
    }

    /// A copy with the same content.
    pub fn duplicate(&self) -> (r: Params)
        ensures
            r@ == self@,
    {
        let mut w: Vec<(String, JsonValue)> = Vec::new();
        let mut i: usize = 0;
        proof {
            lemma_members_view(self.entries@);
        }
        while i < self.entries.len()
            invariant
                i <= self.entries@.len(),
                w@.len() == i,
                forall|j: int| 0 <= j < i ==> #[trigger] w@[j].0@ == self.entries@[j].0@ && w@[j].1@
                    == self.entries@[j].1@,
            decreases self.entries.len() - i,
        {
            w.push((self.entries[i].0.clone(), self.entries[i].1.duplicate()));
            i = i + 1;
        }
        proof {
            lemma_members_view(w@);
            assert(members_view(w@) =~= members_view(self.entries@));
        }
        Params { entries: w }
    }
}

/// Looking a name up in two entry lists that differ only at entries with
/// another name gives the same result.
proof fn lemma_first_member_eq(a: Seq<(Seq<char>, JsonView)>, b: Seq<(Seq<char>, JsonView)>, k: Seq<char>)
    requires
        a.len() == b.len(),
        forall|j: int| 0 <= j < a.len() ==> (a[j].0 == k <==> b[j].0 == k),
        forall|j: int| 0 <= j < a.len() && a[j].0 == k ==> a[j] == b[j],
    ensures
        first_member(a, k) == first_member(b, k),
    decreases a.len(),
{
    if a.len() > 0 {
        lemma_first_member_eq(a.drop_first(), b.drop_first(), k);
    }
}

/// Appending an entry with another name does not change a lookup.
proof fn lemma_first_member_prefix(a: Seq<(Seq<char>, JsonView)>, e: (Seq<char>, JsonView), k: Seq<char>)
    requires
        e.0 != k,
    ensures
        first_member(a.push(e), k) == first_member(a, k),
    decreases a.len(),
{
    if a.len() > 0 {
        assert(a.push(e)[0] == a[0]);
        assert(a.push(e).drop_first() =~= a.drop_first().push(e));
        lemma_first_member_prefix(a.drop_first(), e, k);
    } else {
        assert(a.push(e).drop_first() =~= Seq::<(Seq<char>, JsonView)>::empty());
        assert(first_member(Seq::<(Seq<char>, JsonView)>::empty(), k) is None);
    }
}

/// The context rule: what a policy applies to.
#[derive(Debug)]
pub struct ContextRule {
    /// Whitelisted contract IDs
    pub contracts: Vec<String>,
    /// Whitelisted function names
    pub functions: Vec<String>,
    /// Lifetime in seconds (default: 365 days)
    pub lifetime_seconds: u64,
}

/// The type of a policy layer.
#[derive(Clone, Copy, Debug, PartialEq, Eq, Structural)]
pub enum PolicyLayerKind {
    /// Cap on spending per time window
    SpendingLimit,
    /// Allow only within a time window
    TimeWindow,
    /// Single signer sufficient
    SimpleThreshold,
    /// Weighted multi-signer
    WeightedThreshold,
    /// Net-new custom policy
    Custom,
}

/// Whether to compose existing primitives or generate new code.
#[derive(Clone, Copy, Debug, PartialEq, Eq, Structural)]
pub enum CompositionMode {
    /// Use existing OZ primitives
    Compose,
    /// Generate a net-new Policy trait implementation
    Generate,
}

/// A single policy layer.
#[derive(Debug)]
pub struct PolicyLayer {
    /// Policy type
    pub kind: PolicyLayerKind,
    /// Parameters of this layer
    pub params: Params,
    /// Whether this uses an existing OZ primitive (true) or needs net-new code (false)
    pub oz_primitive: bool,
    /// Human-readable description
    pub description: String,
}

/// A question to ask the user before proceeding.
#[derive(Debug)]
pub struct Clarification {
    /// Field this clarification addresses
    pub field: String,
    /// Question to ask
    pub question: String,
    /// Optional suggested answers
    pub options: Option<Vec<String>>,
}

/// The complete output of the synthesizer.
#[derive(Debug)]
pub struct PolicySpec {
    /// Context rule: contracts and functions to whitelist
    pub context_rule: ContextRule,
    /// Ordered policy layers (at most 5, the OZ limit)
    pub policies: Vec<PolicyLayer>,
    /// Whether to compose existing OZ primitives or generate net-new code
    pub composition_mode: CompositionMode,
    /// Rationale for the chosen primitives
    pub rationale: String,
    /// Questions to ask the user before proceeding
    pub clarifications_needed: Vec<Clarification>,
    /// Human-readable policy name (used for the crate name)
    pub policy_name: String,
}

/// User-supplied constraint overrides for synthesis.
#[derive(Debug)]
pub struct Constraints {
    /// Override observed amount cap (raw)
    pub amount_cap: Option<u128>,
    /// Time window in seconds
    pub time_window_seconds: Option<u64>,
    /// Max calls per time window
    pub max_calls_per_window: Option<u32>,
    /// Slippage percentage (0-100); the synthesizer reads only whether it is set
    pub allow_slippage_percent: Option<FloatValue>,
    /// Context rule lifetime in seconds
    pub lifetime_seconds: Option<u64>,
}

// ── Views ────────────────────────────────────────────────────────────────────

/// The content of a [`ContextRule`].
pub struct ContextRuleView {
    pub contracts: Seq<Seq<char>>,
    pub functions: Seq<Seq<char>>,
    pub lifetime_seconds: u64,
}

/// The content of a [`PolicyLayer`].
pub struct PolicyLayerView {
    pub kind: PolicyLayerKind,
    pub params: Seq<(Seq<char>, JsonView)>,
    pub oz_primitive: bool,
    pub description: Seq<char>,
}

/// The content of a [`Clarification`].
pub struct ClarificationView {
    pub field: Seq<char>,
    pub question: Seq<char>,
    pub options: Option<Seq<Seq<char>>>,
}

/// The content of a [`PolicySpec`].
pub struct PolicySpecView {
    pub context_rule: ContextRuleView,
    pub policies: Seq<PolicyLayerView>,
    pub composition_mode: CompositionMode,
    pub rationale: Seq<char>,
    pub clarifications_needed: Seq<ClarificationView>,
    pub policy_name: Seq<char>,
}

/// What the synthesizer reads of [`Constraints`].
pub struct ConstraintsView {
    pub amount_cap: Option<u128>,
    pub time_window_seconds: Option<u64>,
    pub max_calls_per_window: Option<u32>,
    pub slippage_set: bool,
    pub lifetime_seconds: Option<u64>,
}

impl View for ContextRule {
    type V = ContextRuleView;

    open spec fn view(&self) -> ContextRuleView {
        ContextRuleView {
            contracts: self.contracts.deep_view(),
            functions: self.functions.deep_view(),
            lifetime_seconds: self.lifetime_seconds,
        }
    }
}

impl View for PolicyLayer {
    type V = PolicyLayerView;

    open spec fn view(&self) -> PolicyLayerView {
        PolicyLayerView {
            kind: self.kind,
            params: self.params@,
            oz_primitive: self.oz_primitive,
            description: self.description@,
        }
    }
}

impl View for Clarification {
    type V = ClarificationView;

    open spec fn view(&self) -> ClarificationView {
        ClarificationView {
            field: self.field@,
            question: self.question@,
            options: match self.options {
                Some(v) => Some(v.deep_view()),
                None => None,
            },
        }
    }
}

/// The contents of a list of policy layers.
pub open spec fn layers_view(s: Seq<PolicyLayer>) -> Seq<PolicyLayerView> {
    s.map_values(|l: PolicyLayer| l@)
}

/// The contents of a list of clarifications.
pub open spec fn clarifications_view(s: Seq<Clarification>) -> Seq<ClarificationView> {
    s.map_values(|c: Clarification| c@)
}

impl View for PolicySpec {
    type V = PolicySpecView;

    open spec fn view(&self) -> PolicySpecView {
        PolicySpecView {
            context_rule: self.context_rule@,
            policies: layers_view(self.policies@),
            composition_mode: self.composition_mode,
            rationale: self.rationale@,
            clarifications_needed: clarifications_view(self.clarifications_needed@),
            policy_name: self.policy_name@,
        }
    }
}

impl View for Constraints {
    type V = ConstraintsView;

    open spec fn view(&self) -> ConstraintsView {
        ConstraintsView {
            amount_cap: self.amount_cap,
            time_window_seconds: self.time_window_seconds,
            max_calls_per_window: self.max_calls_per_window,
            slippage_set: self.allow_slippage_percent is Some,
            lifetime_seconds: self.lifetime_seconds,
        }
    }
}

/// Constraints with nothing set.
pub open spec fn no_constraints() -> ConstraintsView {
    ConstraintsView {
        amount_cap: None,
        time_window_seconds: None,
        max_calls_per_window: None,
        slippage_set: false,
        lifetime_seconds: None,
    }
}

impl Default for ContextRule {
    fn default() -> (r: Self)
        ensures
            r@.contracts.len() == 0,
            r@.functions.len() == 0,
            r@.lifetime_seconds == ONE_YEAR_SECS,
    {
        let r = ContextRule { contracts: Vec::new(), functions: Vec::new(), lifetime_seconds: ONE_YEAR_SECS };
        assert(r@.contracts.len() == 0);
        r
    }
}

impl Default for Constraints {
    fn default() -> (r: Self)
        ensures
            r@ == no_constraints(),
    {
        Constraints {
            amount_cap: None,
            time_window_seconds: None,
            max_calls_per_window: None,
            allow_slippage_percent: None,
            lifetime_seconds: None,
        }
    }
}

/// The name `Debug` gives a layer kind.
pub open spec fn kind_name_spec(k: PolicyLayerKind) -> Seq<char> {
    match k {
        PolicyLayerKind::SpendingLimit => "SpendingLimit"@,
        PolicyLayerKind::TimeWindow => "TimeWindow"@,
        PolicyLayerKind::SimpleThreshold => "SimpleThreshold"@,
        PolicyLayerKind::WeightedThreshold => "WeightedThreshold"@,
        PolicyLayerKind::Custom => "Custom"@,
    }
}

impl PolicyLayerKind {
    /// The kind's name as `Debug` writes it.
    pub fn debug_name(&self) -> (r: &'static str)
        ensures
            r@ == kind_name_spec(*self),
    {
        match self {
            PolicyLayerKind::SpendingLimit => "SpendingLimit",
            PolicyLayerKind::TimeWindow => "TimeWindow",
            PolicyLayerKind::SimpleThreshold => "SimpleThreshold",
            PolicyLayerKind::WeightedThreshold => "WeightedThreshold",
            PolicyLayerKind::Custom => "Custom",
        }
    }
}

/// The name `Debug` gives a composition mode.
pub open spec fn mode_name_spec(m: CompositionMode) -> Seq<char> {
    match m {
        CompositionMode::Compose => "Compose"@,
        CompositionMode::Generate => "Generate"@,
    }
}

impl CompositionMode {
    /// The mode's name as `Debug` writes it.
    pub fn debug_name(&self) -> (r: &'static str)
        ensures
            r@ == mode_name_spec(*self),
    {
        match self {
            CompositionMode::Compose => "Compose",
            CompositionMode::Generate => "Generate",
        }
    }
}

impl PolicyLayer {
    /// A copy with the same content.
    pub fn duplicate(&self) -> (r: Self)
        ensures
            r@ == self@,
    {
        PolicyLayer {
            kind: self.kind,
            params: self.params.duplicate(),
            oz_primitive: self.oz_primitive,
            description: self.description.clone(),
        }
    }
}

impl Clarification {
    /// A copy with the same content.
    pub fn duplicate(&self) -> (r: Self)
        ensures
            r@ == self@,
    {
        let options = match &self.options {
            Some(v) => Some(clone_strings(v)),
            None => None,
        };
        Clarification { field: self.field.clone(), question: self.question.clone(), options }
    }
}

impl ContextRule {
    /// A copy with the same content.
    pub fn duplicate(&self) -> (r: Self)
        ensures
            r@ == self@,
    {
        ContextRule {
            contracts: clone_strings(&self.contracts),
            functions: clone_strings(&self.functions),
            lifetime_seconds: self.lifetime_seconds,
        }
    }
}

impl Constraints {
    /// A copy with the same content.
    pub fn duplicate(&self) -> (r: Self)
        ensures
            r@ == self@,
    {
        Constraints {
            amount_cap: self.amount_cap,
            time_window_seconds: self.time_window_seconds,
            max_calls_per_window: self.max_calls_per_window,
            allow_slippage_percent: match &self.allow_slippage_percent {
                Some(f) => Some(f.duplicate()),
                None => None,
            },
            lifetime_seconds: self.lifetime_seconds,
        }
    }
}

impl PolicySpec {
    /// A copy with the same content.
    pub fn duplicate(&self) -> (r: Self)
        ensures
            r@ == self@,
    {
        let mut layers: Vec<PolicyLayer> = Vec::new();
        let mut i: usize = 0;
        while i < self.policies.len()
            invariant
                i <= self.policies@.len(),
                layers@.len() == i,
                forall|k: int| 0 <= k < i ==> #[trigger] layers@[k]@ == self.policies@[k]@,
            decreases self.policies.len() - i,
        {
            layers.push(self.policies[i].duplicate());
            i = i + 1;
        }
        assert(layers_view(layers@) =~= layers_view(self.policies@));
        let mut qs: Vec<Clarification> = Vec::new();
        let mut i: usize = 0;
        while i < self.clarifications_needed.len()
            invariant
                i <= self.clarifications_needed@.len(),
                qs@.len() == i,
                forall|k: int| 0 <= k < i ==> #[trigger] qs@[k]@ == self.clarifications_needed@[k]@,
            decreases self.clarifications_needed.len() - i,
        {
            qs.push(self.clarifications_needed[i].duplicate());
            i = i + 1;
        }
        assert(clarifications_view(qs@) =~= clarifications_view(self.clarifications_needed@));
        PolicySpec {
            context_rule: self.context_rule.duplicate(),
            policies: layers,
            composition_mode: self.composition_mode,
            rationale: self.rationale.clone(),
            clarifications_needed: qs,
            policy_name: self.policy_name.clone(),
        }
    }
}

impl Clone for Params {
    fn clone(&self) -> Self {
        self.duplicate()
    }
}

impl Clone for PolicyLayer {
    fn clone(&self) -> Self {
        self.duplicate()
    }
}

impl Clone for Clarification {
    fn clone(&self) -> Self {
        self.duplicate()
    }
}

impl Clone for ContextRule {
    fn clone(&self) -> Self {
        self.duplicate()
    }
}

impl Clone for Constraints {
    fn clone(&self) -> Self {
        self.duplicate()
    }
}

impl Clone for PolicySpec {
    fn clone(&self) -> Self {
        self.duplicate()
    }
}

} // verus!
