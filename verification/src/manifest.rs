//! The call manifest: the structured record of one Soroban transaction.
use vstd::prelude::*;

use crate::json::{list_view, JsonValue, JsonView};
use crate::text::{clone_opt, clone_strings};

verus! {

/// A single contract invocation in the call tree.
#[derive(Debug)]
pub struct CallNode {
    /// Contract ID (C-address format)
    pub contract_id: String,
    /// Human-readable label from the protocol registry (if known)
    pub contract_label: Option<String>,
    /// Function name invoked
    pub function_name: String,
    /// Decoded argument list
    pub args: Vec<JsonValue>,
    /// Sub-calls made by this invocation
    pub sub_calls: Vec<CallNode>,
    /// Whether this call triggered a `require_auth()`
    pub requires_auth: bool,
    /// The account that authorized this call (if known)
    pub authorized_by: Option<String>,
}

/// A contract referenced in the manifest.
#[derive(Debug)]
pub struct ContractRef {
    /// Contract ID (C-address format)
    pub id: String,
    /// Human-readable label (from the protocol registry)
    pub label: Option<String>,
    /// Protocol family (blend, soroswap, aquarius, ...)
    pub protocol: Option<String>,
}

/// Direction of an asset flow relative to the invoking account.
#[derive(Clone, Copy, Debug, PartialEq, Eq, Structural)]
pub enum FlowDirection {
    /// Token leaving the invoking account
    Outbound,
    /// Token entering the invoking account
    Inbound,
}

/// Net token movement involving the invoking account.
#[derive(Debug)]
pub struct AssetFlow {
    /// Asset identifier (contract ID for SAC tokens, or "native" for XLM)
    pub asset_id: String,
    /// Human-readable asset symbol (USDC, XLM, ...)
    pub asset_symbol: Option<String>,
    /// Direction relative to the invoking account
    pub direction: FlowDirection,
    /// Raw integer amount
    pub amount_raw: u128,
    /// Human-readable amount with the asset's decimals
    pub amount_display: String,
    /// Decimal places of this asset
    pub decimals: u8,
    /// Counterparty address
    pub counterparty: Option<String>,
}

/// An observed `require_auth()` call site.
#[derive(Debug)]
pub struct AuthBoundary {
    /// Contract that called `require_auth()`
    pub contract_id: String,
    /// Function that called `require_auth()`
    pub function_name: String,
    /// Account whose authorization was required
    pub account: String,
}

/// Observed amount range for a (contract, function) pair.
#[derive(Debug)]
pub struct AmountRange {
    /// Minimum observed amount (raw)
    pub min_raw: u128,
    /// Maximum observed amount (raw)
    pub max_raw: u128,
    /// Asset this range refers to
    pub asset_id: String,
}

/// Resource consumption of a simulated transaction.
#[derive(Clone, Copy, Debug, PartialEq, Eq, Structural)]
pub struct SimulationCost {
    /// CPU instructions consumed
    pub cpu_instructions: u64,
    /// Memory bytes consumed
    pub memory_bytes: u64,
}

/// The complete structured output of recording a transaction.
#[derive(Debug)]
pub struct CallManifest {
    /// Transaction hash (or "simulated_{id}" for simulations)
    pub transaction_hash: String,
    /// Network this transaction was observed on
    pub network: String,
    /// Ledger sequence number (0 for simulations)
    pub ledger_sequence: u32,
    /// ISO 8601 timestamp
    pub timestamp: String,
    /// Invoking account (G-address or C-address)
    pub invoking_account: String,
    /// Pruned call tree: user-initiated calls only
    pub top_level_calls: Vec<CallNode>,
    /// Unique contracts referenced in the manifest
    pub unique_contracts: Vec<ContractRef>,
    /// Unique function names observed
    pub unique_functions: Vec<String>,
    /// Net asset flows involving the invoking account
    pub asset_flows: Vec<AssetFlow>,
    /// `require_auth()` call sites
    pub auth_boundaries: Vec<AuthBoundary>,
    /// Observed amount ranges per "contract_id::function_name" key; keys are distinct
    pub observed_amounts: Vec<(String, AmountRange)>,
    /// Human-readable one-line summary
    pub summary: String,
    /// Whether this was a simulation (not an executed transaction)
    pub is_simulation: bool,
    /// Simulation resource cost (only set for simulations)
    pub simulation_cost: Option<SimulationCost>,
}

// ── Views ────────────────────────────────────────────────────────────────────

/// The content of a [`CallNode`].
pub struct CallNodeView {
    pub contract_id: Seq<char>,
    pub contract_label: Option<Seq<char>>,
    pub function_name: Seq<char>,
    pub args: Seq<JsonView>,
    pub sub_calls: Seq<CallNodeView>,
    pub requires_auth: bool,
    pub authorized_by: Option<Seq<char>>,
}

/// The content of a [`ContractRef`].
pub struct ContractRefView {
    pub id: Seq<char>,
    pub label: Option<Seq<char>>,
    pub protocol: Option<Seq<char>>,
}

/// The content of an [`AssetFlow`].
pub struct AssetFlowView {
    pub asset_id: Seq<char>,
    pub asset_symbol: Option<Seq<char>>,
    pub direction: FlowDirection,
    pub amount_raw: u128,
    pub amount_display: Seq<char>,
    pub decimals: u8,
    pub counterparty: Option<Seq<char>>,
}

/// The content of an [`AuthBoundary`].
pub struct AuthBoundaryView {
    pub contract_id: Seq<char>,
    pub function_name: Seq<char>,
    pub account: Seq<char>,
}

/// The content of an [`AmountRange`].
pub struct AmountRangeView {
    pub min_raw: u128,
    pub max_raw: u128,
    pub asset_id: Seq<char>,
}

/// The content of a [`CallManifest`].
pub struct CallManifestView {
    pub transaction_hash: Seq<char>,
    pub network: Seq<char>,
    pub ledger_sequence: u32,
    pub timestamp: Seq<char>,
    pub invoking_account: Seq<char>,
    pub top_level_calls: Seq<CallNodeView>,
    pub unique_contracts: Seq<ContractRefView>,
    pub unique_functions: Seq<Seq<char>>,
    pub asset_flows: Seq<AssetFlowView>,
    pub auth_boundaries: Seq<AuthBoundaryView>,
    pub observed_amounts: Seq<(Seq<char>, AmountRangeView)>,
    pub summary: Seq<char>,
    pub is_simulation: bool,
    pub simulation_cost: Option<SimulationCost>,
}

/// The content of a call node.
pub open spec fn node_view(n: &CallNode) -> CallNodeView
    decreases n, 0nat,
{
    CallNodeView {
        contract_id: n.contract_id@,
        contract_label: n.contract_label.deep_view(),
        function_name: n.function_name@,
        args: list_view(n.args@),
        sub_calls: nodes_view(n.sub_calls@),
        requires_auth: n.requires_auth,
        authorized_by: n.authorized_by.deep_view(),
    }
}

/// The contents of a list of call nodes.
pub open spec fn nodes_view(s: Seq<CallNode>) -> Seq<CallNodeView>
    decreases s, 0nat,
{
    if s.len() == 0 {
        Seq::empty()
    } else {
        nodes_view(s.drop_last()).push(node_view(&s.last()))
    }
}

impl View for CallNode {
    type V = CallNodeView;

    open spec fn view(&self) -> CallNodeView {
        node_view(self)
    }
}

impl View for ContractRef {
    type V = ContractRefView;

    open spec fn view(&self) -> ContractRefView {
        ContractRefView {
            id: self.id@,
            label: self.label.deep_view(),
            protocol: self.protocol.deep_view(),
        }
    }
}

impl View for AssetFlow {
    type V = AssetFlowView;

    open spec fn view(&self) -> AssetFlowView {
        AssetFlowView {
            asset_id: self.asset_id@,
            asset_symbol: self.asset_symbol.deep_view(),
            direction: self.direction,
            amount_raw: self.amount_raw,
            amount_display: self.amount_display@,
            decimals: self.decimals,
            counterparty: self.counterparty.deep_view(),
        }
    }
}

impl View for AuthBoundary {
    type V = AuthBoundaryView;

    open spec fn view(&self) -> AuthBoundaryView {
        AuthBoundaryView {
            contract_id: self.contract_id@,
            function_name: self.function_name@,
            account: self.account@,
        }
    }
}

impl View for AmountRange {
    type V = AmountRangeView;

    open spec fn view(&self) -> AmountRangeView {
        AmountRangeView { min_raw: self.min_raw, max_raw: self.max_raw, asset_id: self.asset_id@ }
    }
}

/// The contents of a list of contract references.
pub open spec fn contracts_view(s: Seq<ContractRef>) -> Seq<ContractRefView> {
    s.map_values(|c: ContractRef| c@)
}

/// The contents of a list of asset flows.
pub open spec fn flows_view(s: Seq<AssetFlow>) -> Seq<AssetFlowView> {
    s.map_values(|f: AssetFlow| f@)
}

/// The contents of a list of auth boundaries.
pub open spec fn boundaries_view(s: Seq<AuthBoundary>) -> Seq<AuthBoundaryView> {
    s.map_values(|b: AuthBoundary| b@)
}

/// The contents of the observed amount ranges.
pub open spec fn ranges_view(s: Seq<(String, AmountRange)>) -> Seq<(Seq<char>, AmountRangeView)> {
    s.map_values(|e: (String, AmountRange)| (e.0@, e.1@))
}

impl View for CallManifest {
    type V = CallManifestView;

    open spec fn view(&self) -> CallManifestView {
        CallManifestView {
            transaction_hash: self.transaction_hash@,
            network: self.network@,
            ledger_sequence: self.ledger_sequence,
            timestamp: self.timestamp@,
            invoking_account: self.invoking_account@,
            top_level_calls: nodes_view(self.top_level_calls@),
            unique_contracts: contracts_view(self.unique_contracts@),
            unique_functions: self.unique_functions.deep_view(),
            asset_flows: flows_view(self.asset_flows@),
            auth_boundaries: boundaries_view(self.auth_boundaries@),
            observed_amounts: ranges_view(self.observed_amounts@),
            summary: self.summary@,
            is_simulation: self.is_simulation,
            simulation_cost: self.simulation_cost,
        }
    }
}

impl CallManifest {
    /// The observed amount ranges have distinct keys.
    pub open spec fn wf(&self) -> bool {
        forall|i: int, j: int|
            0 <= i < j < self.observed_amounts@.len() ==> #[trigger] self.observed_amounts@[i].0@
                != #[trigger] self.observed_amounts@[j].0@
    }
}

/// Facts about [`nodes_view`].
pub proof fn lemma_nodes_view(s: Seq<CallNode>)
    ensures
        nodes_view(s).len() == s.len(),
        forall|i: int| 0 <= i < s.len() ==> #[trigger] nodes_view(s)[i] == node_view(&s[i]),
    decreases s.len(),
{
    if s.len() > 0 {
        lemma_nodes_view(s.drop_last());
    }
}

// ── Copies ───────────────────────────────────────────────────────────────────

impl ContractRef {
    /// A copy with the same content.
    pub fn duplicate(&self) -> (r: Self)
        ensures
            r@ == self@,
    {
        ContractRef { id: self.id.clone(), label: clone_opt(&self.label), protocol: clone_opt(&self.protocol) }
    }
}

impl AssetFlow {
    /// A copy with the same content.
    pub fn duplicate(&self) -> (r: Self)
        ensures
            r@ == self@,
    {
        AssetFlow {
            asset_id: self.asset_id.clone(),
            asset_symbol: clone_opt(&self.asset_symbol),
            direction: self.direction,
            amount_raw: self.amount_raw,
            amount_display: self.amount_display.clone(),
            decimals: self.decimals,
            counterparty: clone_opt(&self.counterparty),
        }
    }
}

impl AuthBoundary {
    /// A copy with the same content.
    pub fn duplicate(&self) -> (r: Self)
        ensures
            r@ == self@,
    {
        AuthBoundary {
            contract_id: self.contract_id.clone(),
            function_name: self.function_name.clone(),
            account: self.account.clone(),
        }
    }
}

impl AmountRange {
    /// A copy with the same content.
    pub fn duplicate(&self) -> (r: Self)
        ensures
            r@ == self@,
    {
        AmountRange { min_raw: self.min_raw, max_raw: self.max_raw, asset_id: self.asset_id.clone() }
    }
}

/// A copy of a list of JSON values.
pub fn duplicate_values(a: &Vec<JsonValue>) -> (r: Vec<JsonValue>)
    ensures
        list_view(r@) == list_view(a@),
{
    let mut w: Vec<JsonValue> = Vec::new();
    let mut i: usize = 0;
    while i < a.len()
        invariant
            i <= a@.len(),
            list_view(w@) == list_view(a@.subrange(0, i as int)),
        decreases a.len() - i,
    {
        let d = a[i].duplicate();
        let ghost before = w@;
        w.push(d);
        proof {
            assert(w@.drop_last() =~= before);
            assert(a@.subrange(0, i + 1).drop_last() =~= a@.subrange(0, i as int));
        }
        i = i + 1;
    }
    assert(a@.subrange(0, a@.len() as int) =~= a@);
    w
}

impl CallNode {
    /// A copy with the same content.
    #[verifier::loop_isolation(false)]
    pub fn duplicate(&self) -> (r: Self)
        ensures
            r@ == self@,
        decreases self,
    {
        let s = &self.sub_calls;
        let mut w: Vec<CallNode> = Vec::new();
        let mut i: usize = 0;
        while i < s.len()
            invariant
                i <= s@.len(),
                nodes_view(w@) == nodes_view(s@.subrange(0, i as int)),
            decreases s.len() - i,
        {
            proof {
                vstd::std_specs::vec::axiom_vec_index_decreases(*s, i as int);
            }
            let d = s[i].duplicate();
            let ghost before = w@;
            w.push(d);
            proof {
                assert(w@.drop_last() =~= before);
                assert(s@.subrange(0, i + 1).drop_last() =~= s@.subrange(0, i as int));
            }
            i = i + 1;
        }
        assert(s@.subrange(0, s@.len() as int) =~= s@);
        CallNode {
            contract_id: self.contract_id.clone(),
            contract_label: clone_opt(&self.contract_label),
            function_name: self.function_name.clone(),
            args: duplicate_values(&self.args),
            sub_calls: w,
            requires_auth: self.requires_auth,
            authorized_by: clone_opt(&self.authorized_by),
        }
    }
}

impl Clone for CallNode {
    fn clone(&self) -> Self {
        self.duplicate()
    }
}

/// A copy of a list of call nodes.
pub fn duplicate_nodes(s: &Vec<CallNode>) -> (r: Vec<CallNode>)
    ensures
        nodes_view(r@) == nodes_view(s@),
{
    let mut w: Vec<CallNode> = Vec::new();
    let mut i: usize = 0;
    while i < s.len()
        invariant
            i <= s@.len(),
            nodes_view(w@) == nodes_view(s@.subrange(0, i as int)),
        decreases s.len() - i,
    {
        let d = s[i].duplicate();
        let ghost before = w@;
        w.push(d);
        proof {
            assert(w@.drop_last() =~= before);
            assert(s@.subrange(0, i + 1).drop_last() =~= s@.subrange(0, i as int));
        }
        i = i + 1;
    }
    assert(s@.subrange(0, s@.len() as int) =~= s@);
    w
}

impl CallManifest {
    /// A copy with the same content.
    pub fn duplicate(&self) -> (r: Self)
        ensures
            r@ == self@,
    {
        let mut contracts: Vec<ContractRef> = Vec::new();
        let mut i: usize = 0;
        while i < self.unique_contracts.len()
            invariant
                i <= self.unique_contracts@.len(),
                contracts@.len() == i,
                forall|k: int| 0 <= k < i ==> #[trigger] contracts@[k]@ == self.unique_contracts@[k]@,
            decreases self.unique_contracts.len() - i,
        {
            contracts.push(self.unique_contracts[i].duplicate());
            i = i + 1;
        }
        assert(contracts_view(contracts@) =~= contracts_view(self.unique_contracts@));
        let mut flows: Vec<AssetFlow> = Vec::new();
        let mut i: usize = 0;
        while i < self.asset_flows.len()
            invariant
                i <= self.asset_flows@.len(),
                flows@.len() == i,
                forall|k: int| 0 <= k < i ==> #[trigger] flows@[k]@ == self.asset_flows@[k]@,
            decreases self.asset_flows.len() - i,
        {
            flows.push(self.asset_flows[i].duplicate());
            i = i + 1;
        }
        assert(flows_view(flows@) =~= flows_view(self.asset_flows@));
        let mut bounds: Vec<AuthBoundary> = Vec::new();
        let mut i: usize = 0;
        while i < self.auth_boundaries.len()
            invariant
                i <= self.auth_boundaries@.len(),
                bounds@.len() == i,
                forall|k: int| 0 <= k < i ==> #[trigger] bounds@[k]@ == self.auth_boundaries@[k]@,
            decreases self.auth_boundaries.len() - i,
        {
            bounds.push(self.auth_boundaries[i].duplicate());
            i = i + 1;
        }
        assert(boundaries_view(bounds@) =~= boundaries_view(self.auth_boundaries@));
        let mut ranges: Vec<(String, AmountRange)> = Vec::new();
        let mut i: usize = 0;
        while i < self.observed_amounts.len()
            invariant
                i <= self.observed_amounts@.len(),
                ranges@.len() == i,
                forall|k: int| 0 <= k < i ==> #[trigger] ranges@[k].0@ == self.observed_amounts@[k].0@
                    && ranges@[k].1@ == self.observed_amounts@[k].1@,
            decreases self.observed_amounts.len() - i,
        {
            ranges.push((self.observed_amounts[i].0.clone(), self.observed_amounts[i].1.duplicate()));
            i = i + 1;
        }
        assert(ranges_view(ranges@) =~= ranges_view(self.observed_amounts@));
        CallManifest {
            transaction_hash: self.transaction_hash.clone(),
            network: self.network.clone(),
            ledger_sequence: self.ledger_sequence,
            timestamp: self.timestamp.clone(),
            invoking_account: self.invoking_account.clone(),
            top_level_calls: duplicate_nodes(&self.top_level_calls),
            unique_contracts: contracts,
            unique_functions: clone_strings(&self.unique_functions),
            asset_flows: flows,
            auth_boundaries: bounds,
            observed_amounts: ranges,
            summary: self.summary.clone(),
            is_simulation: self.is_simulation,
            simulation_cost: self.simulation_cost,
        }
    }
}

impl Clone for ContractRef {
    fn clone(&self) -> Self {
        self.duplicate()
    }
}

impl Clone for AssetFlow {
    fn clone(&self) -> Self {
        self.duplicate()
    }
}

impl Clone for AuthBoundary {
    fn clone(&self) -> Self {
        self.duplicate()
    }
}

impl Clone for AmountRange {
    fn clone(&self) -> Self {
        self.duplicate()
    }
}

impl Clone for CallManifest {
    fn clone(&self) -> Self {
        self.duplicate()
    }
}

} // verus!
