//! Policy primitives: scoped storage, the ledger a policy runs against, and
//! the error type shared by the policy contracts.
//!
//! All policy state lives in a persistent key/value store. Keys written
//! through [`PolicyStorage`] are scoped by `(smart_account, context_rule_id)`,
//! so one policy contract can serve many accounts without leaking data
//! between them.
use vstd::prelude::*;

use crate::allowlist;
use crate::bounded_swap;
use crate::composite;
use crate::frequency_limit;
use crate::spending_limit;
use crate::subscription;
use crate::time_window;
use crate::yield_claim;

verus! {

/// An account or contract address, in its text (strkey) form.
pub type Address = String;

/// Common error types for policy implementations.
#[derive(Clone, Copy, Debug, PartialEq, Eq, Structural)]
pub enum PolicyError {
    /// Policy constraint violation (e.g., spending limit exceeded)
    ConstraintViolated,
    /// Invalid parameters provided during install
    InvalidParams,
    /// Policy not found for the given account and context rule
    NotFound,
    /// Storage operation failed
    StorageError,
}

/// Result type for policy operations.
pub type PolicyResult<T> = Result<T, PolicyError>;

/// Validation of policy installation parameters.
pub trait ValidateParams {
    /// Validate installation parameters.
    fn validate(&self) -> PolicyResult<()>;
}

// ── Keys ─────────────────────────────────────────────────────────────────────

/// The last component of a scoped key: a name, or a name and an index
/// (as the tuple `("policy", i)`).
#[derive(Clone, Debug)]
pub enum Subkey {
    Name(String),
    Indexed(String, u32),
}

/// Storage key pattern for policy state scoped by `(smart_account, context_rule_id)`.
#[derive(Clone, Debug)]
pub enum PolicyStorageKey {
    /// State storage for a specific smart account and context rule
    State(Address, u32, Subkey),
    /// Parameters storage for a specific smart account and context rule
    Params(Address, u32, Subkey),
}

/// Any key of a policy contract's persistent storage.
#[derive(Clone, Debug)]
pub enum StorageKey {
    /// A key scoped through [`PolicyStorage`].
    Scoped(PolicyStorageKey),
    /// Installation parameters of a standalone policy contract.
    AccountParams(Address, u32),
    /// Per-account state of a standalone policy contract.
    AccountState(Address, u32),
    /// Rolling spend state keyed by account and rule symbol.
    SpendState(Address, String),
}

/// The mathematical content of a [`StorageKey`].
pub enum KeyView {
    Scoped { params: bool, account: Seq<char>, rule_id: u32, name: Seq<char>, index: Option<u32> },
    AccountParams(Seq<char>, u32),
    AccountState(Seq<char>, u32),
    SpendState(Seq<char>, Seq<char>),
}

impl View for StorageKey {
    type V = KeyView;

    open spec fn view(&self) -> KeyView {
        match self {
            StorageKey::Scoped(k) => scoped_view(k),
            StorageKey::AccountParams(a, r) => KeyView::AccountParams(a@, *r),
            StorageKey::AccountState(a, r) => KeyView::AccountState(a@, *r),
            StorageKey::SpendState(a, s) => KeyView::SpendState(a@, s@),
        }
    }
}

/// The content of a scoped key.
pub open spec fn scoped_view(k: &PolicyStorageKey) -> KeyView {
    match k {
        PolicyStorageKey::State(a, r, s) => subkey_slot(false, a@, *r, s),
        PolicyStorageKey::Params(a, r, s) => subkey_slot(true, a@, *r, s),
    }
}

/// The content of a scoped key, given its parts.
pub open spec fn subkey_slot(params: bool, account: Seq<char>, rule_id: u32, s: &Subkey) -> KeyView {
    match s {
        Subkey::Name(n) => KeyView::Scoped { params, account, rule_id, name: n@, index: None },
        Subkey::Indexed(n, i) => KeyView::Scoped {
            params,
            account,
            rule_id,
            name: n@,
            index: Some(*i),
        },
    }
}

/// The slot that [`PolicyStorage`] uses for `(account, context_rule_id, name)`.
pub open spec fn slot(account: Seq<char>, rule_id: u32, name: Seq<char>) -> KeyView {
    KeyView::Scoped { params: false, account, rule_id, name, index: None }
}

/// The slot that [`PolicyStorage`] uses for `(account, context_rule_id, (name, index))`.
pub open spec fn indexed_slot(account: Seq<char>, rule_id: u32, name: Seq<char>, index: u32) -> KeyView {
    KeyView::Scoped { params: false, account, rule_id, name, index: Some(index) }
}

/// The slot holding the installation parameters of `(account, context_rule_id)`.
pub open spec fn params_slot(account: Seq<char>, rule_id: u32) -> KeyView {
    slot(account, rule_id, "params"@)
}

/// The slot holding the state of `(account, context_rule_id)`.
pub open spec fn state_slot(account: Seq<char>, rule_id: u32) -> KeyView {
    slot(account, rule_id, "state"@)
}

/// Ledgers elapsed from `start` to `current` (zero when `current` is earlier).
pub open spec fn elapsed(current: u32, start: u32) -> int {
    if current >= start {
        current - start
    } else {
        0
    }
}

/// The account and context rule that a key belongs to, where it has one.
pub open spec fn key_scope(k: KeyView) -> Option<(Seq<char>, u32)> {
    match k {
        KeyView::Scoped { account, rule_id, .. } => Some((account, rule_id)),
        KeyView::AccountParams(a, r) => Some((a, r)),
        KeyView::AccountState(a, r) => Some((a, r)),
        KeyView::SpendState(_, _) => None,
    }
}

fn same_subkey(a: &Subkey, b: &Subkey) -> (r: bool)
    ensures
        r == (subkey_slot(true, Seq::empty(), 0, a) == subkey_slot(true, Seq::empty(), 0, b)),
{
    match (a, b) {
        (Subkey::Name(x), Subkey::Name(y)) => *x == *y,
        (Subkey::Indexed(x, i), Subkey::Indexed(y, j)) => *x == *y && *i == *j,
        _ => false,
    }
}

fn same_key(a: &StorageKey, b: &StorageKey) -> (r: bool)
    ensures
        r == (a@ == b@),
{
    match (a, b) {
        (StorageKey::Scoped(x), StorageKey::Scoped(y)) => match (x, y) {
            (PolicyStorageKey::State(a1, r1, s1), PolicyStorageKey::State(a2, r2, s2)) => {
                *a1 == *a2 && *r1 == *r2 && same_subkey(s1, s2)
            },
            (PolicyStorageKey::Params(a1, r1, s1), PolicyStorageKey::Params(a2, r2, s2)) => {
                *a1 == *a2 && *r1 == *r2 && same_subkey(s1, s2)
            },
            _ => false,
        },
        (StorageKey::AccountParams(a1, r1), StorageKey::AccountParams(a2, r2)) => {
            *a1 == *a2 && *r1 == *r2
        },
        (StorageKey::AccountState(a1, r1), StorageKey::AccountState(a2, r2)) => {
            *a1 == *a2 && *r1 == *r2
        },
        (StorageKey::SpendState(a1, s1), StorageKey::SpendState(a2, s2)) => {
            *a1 == *a2 && *s1 == *s2
        },
        _ => false,
    }
}

/// Helper to get storage key for policy state.
pub fn state_key(account: &str, context_rule_id: u32, subkey: Subkey) -> (k: PolicyStorageKey)
    ensures
        k matches PolicyStorageKey::State(a, r, s) && a@ == account@ && r == context_rule_id
            && s == subkey,
{
    PolicyStorageKey::State(crate::text::to_owned_string(account), context_rule_id, subkey)
}

/// Helper to get storage key for policy parameters.
pub fn params_key(account: &str, context_rule_id: u32, subkey: Subkey) -> (k: PolicyStorageKey)
    ensures
        k matches PolicyStorageKey::Params(a, r, s) && a@ == account@ && r == context_rule_id
            && s == subkey,
{
    PolicyStorageKey::Params(crate::text::to_owned_string(account), context_rule_id, subkey)
}

// ── Values ───────────────────────────────────────────────────────────────────

/// A value held in persistent storage.
#[derive(Clone, Debug)]
pub enum StoredValue {
    Unit,
    U64(u64),
    Bool(bool),
    Text(String),
    SpendingParams(spending_limit::InstallParams),
    SpendingState(spending_limit::SpendingState),
    TimeWindowParams(time_window::InstallParams),
    TimeWindowState(time_window::TimeWindowState),
    FrequencyParams(frequency_limit::InstallParams),
    FrequencyState(frequency_limit::FrequencyState),
    AllowlistParams(allowlist::InstallParams),
    CompositeParams(composite::InstallParams),
    PolicyReference(composite::PolicyReference),
    SubscriptionParams(subscription::Sep41SubscriptionParams),
    SubscriptionState(subscription::SubscriptionState),
    YieldClaimParams(yield_claim::BlendYieldClaimParams),
    SpendState(yield_claim::SpendState),
    SwapSpendState(bounded_swap::SpendState),
}

/// The mathematical content of a [`StoredValue`].
pub enum ValueView {
    Unit,
    U64(u64),
    Bool(bool),
    Text(Seq<char>),
    SpendingParams(spending_limit::InstallParamsView),
    SpendingState(spending_limit::SpendingState),
    TimeWindowParams(time_window::InstallParams),
    TimeWindowState(time_window::TimeWindowState),
    FrequencyParams(frequency_limit::InstallParams),
    FrequencyState(frequency_limit::FrequencyState),
    AllowlistParams(allowlist::InstallParamsView),
    CompositeParams(composite::InstallParamsView),
    PolicyReference(composite::PolicyReferenceView),
    SubscriptionParams(subscription::Sep41SubscriptionParamsView),
    SubscriptionState(subscription::SubscriptionState),
    YieldClaimParams(yield_claim::BlendYieldClaimParams),
    SpendState(yield_claim::SpendState),
    SwapSpendState(bounded_swap::SpendState),
}

impl View for StoredValue {
    type V = ValueView;

    open spec fn view(&self) -> ValueView {
        match self {
            StoredValue::Unit => ValueView::Unit,
            StoredValue::U64(v) => ValueView::U64(*v),
            StoredValue::Bool(v) => ValueView::Bool(*v),
            StoredValue::Text(v) => ValueView::Text(v@),
            StoredValue::SpendingParams(v) => ValueView::SpendingParams(v@),
            StoredValue::SpendingState(v) => ValueView::SpendingState(*v),
            StoredValue::TimeWindowParams(v) => ValueView::TimeWindowParams(*v),
            StoredValue::TimeWindowState(v) => ValueView::TimeWindowState(*v),
            StoredValue::FrequencyParams(v) => ValueView::FrequencyParams(*v),
            StoredValue::FrequencyState(v) => ValueView::FrequencyState(*v),
            StoredValue::AllowlistParams(v) => ValueView::AllowlistParams(v@),
            StoredValue::CompositeParams(v) => ValueView::CompositeParams(v@),
            StoredValue::PolicyReference(v) => ValueView::PolicyReference(v@),
            StoredValue::SubscriptionParams(v) => ValueView::SubscriptionParams(v@),
            StoredValue::SubscriptionState(v) => ValueView::SubscriptionState(*v),
            StoredValue::YieldClaimParams(v) => ValueView::YieldClaimParams(*v),
            StoredValue::SpendState(v) => ValueView::SpendState(*v),
            StoredValue::SwapSpendState(v) => ValueView::SwapSpendState(*v),
        }
    }
}

impl StoredValue {
    /// A copy with the same content.
    pub fn duplicate(&self) -> (r: Self)
        ensures
            r@ == self@,
    {
        match self {
            StoredValue::Unit => StoredValue::Unit,
            StoredValue::U64(v) => StoredValue::U64(*v),
            StoredValue::Bool(v) => StoredValue::Bool(*v),
            StoredValue::Text(v) => StoredValue::Text(v.clone()),
            StoredValue::SpendingParams(v) => StoredValue::SpendingParams(v.duplicate()),
            StoredValue::SpendingState(v) => StoredValue::SpendingState(*v),
            StoredValue::TimeWindowParams(v) => StoredValue::TimeWindowParams(*v),
            StoredValue::TimeWindowState(v) => StoredValue::TimeWindowState(*v),
            StoredValue::FrequencyParams(v) => StoredValue::FrequencyParams(*v),
            StoredValue::FrequencyState(v) => StoredValue::FrequencyState(*v),
            StoredValue::AllowlistParams(v) => StoredValue::AllowlistParams(v.duplicate()),
            StoredValue::CompositeParams(v) => StoredValue::CompositeParams(v.duplicate()),
            StoredValue::PolicyReference(v) => StoredValue::PolicyReference(v.duplicate()),
            StoredValue::SubscriptionParams(v) => StoredValue::SubscriptionParams(v.duplicate()),
            StoredValue::SubscriptionState(v) => StoredValue::SubscriptionState(*v),
            StoredValue::YieldClaimParams(v) => StoredValue::YieldClaimParams(*v),
            StoredValue::SpendState(v) => StoredValue::SpendState(*v),
            StoredValue::SwapSpendState(v) => StoredValue::SwapSpendState(*v),
        }
    }
}

// ── The ledger a policy contract runs against ───────────────────────────────

/// One entry of persistent storage.
#[derive(Clone, Debug)]
pub struct StorageEntry {
    pub key: StorageKey,
    pub value: StoredValue,
}

/// The ledger a policy contract runs against: the current ledger sequence
/// and the contract's persistent storage.
#[derive(Clone, Debug)]
pub struct Env {
    sequence: u32,
    entries: Vec<StorageEntry>,
}

/// No key occurs twice.
pub open spec fn distinct_keys(entries: Seq<StorageEntry>) -> bool {
    forall|i: int, j: int|
        0 <= i < entries.len() && 0 <= j < entries.len() && i != j ==> entries[i].key@
            != entries[j].key@
}

/// The map that a list of distinct entries stands for.
pub open spec fn entries_map(entries: Seq<StorageEntry>) -> Map<KeyView, ValueView>
    decreases entries.len(),
{
    if entries.len() == 0 {
        Map::empty()
    } else {
        entries_map(entries.drop_last()).insert(entries.last().key@, entries.last().value@)
    }
}

proof fn lemma_entries_map_index(entries: Seq<StorageEntry>, i: int)
    requires
        distinct_keys(entries),
        0 <= i < entries.len(),
    ensures
        entries_map(entries).contains_key(entries[i].key@),
        entries_map(entries)[entries[i].key@] == entries[i].value@,
    decreases entries.len(),
{
    if i < entries.len() - 1 {
        lemma_entries_map_index(entries.drop_last(), i);
    }
}

proof fn lemma_entries_map_absent(entries: Seq<StorageEntry>, k: KeyView)
    requires
        forall|i: int| 0 <= i < entries.len() ==> entries[i].key@ != k,
    ensures
        !entries_map(entries).contains_key(k),
    decreases entries.len(),
{
    if entries.len() > 0 {
        lemma_entries_map_absent(entries.drop_last(), k);
    }
}

proof fn lemma_entries_map_update(entries: Seq<StorageEntry>, i: int, e: StorageEntry)
    requires
        distinct_keys(entries),
        0 <= i < entries.len(),
        e.key@ == entries[i].key@,
    ensures
        distinct_keys(entries.update(i, e)),
        entries_map(entries.update(i, e)) == entries_map(entries).insert(e.key@, e.value@),
    decreases entries.len(),
{
    let u = entries.update(i, e);
    if i == entries.len() - 1 {
        assert(u.drop_last() =~= entries.drop_last());
        lemma_entries_map_absent(entries.drop_last(), e.key@);
        assert(entries_map(u) =~= entries_map(entries).insert(e.key@, e.value@));
    } else {
        lemma_entries_map_update(entries.drop_last(), i, e);
        assert(u.drop_last() =~= entries.drop_last().update(i, e));
        assert(entries_map(u) =~= entries_map(entries).insert(e.key@, e.value@));
    }
}

proof fn lemma_entries_map_remove(entries: Seq<StorageEntry>, i: int)
    requires
        distinct_keys(entries),
        0 <= i < entries.len(),
    ensures
        distinct_keys(entries.remove(i)),
        entries_map(entries.remove(i)) == entries_map(entries).remove(entries[i].key@),
    decreases entries.len(),
{
    let k = entries[i].key@;
    let r = entries.remove(i);
    if i == entries.len() - 1 {
        assert(r =~= entries.drop_last());
        lemma_entries_map_absent(entries.drop_last(), k);
        assert(entries_map(r) =~= entries_map(entries).remove(k));
    } else {
        lemma_entries_map_remove(entries.drop_last(), i);
        assert(r.drop_last() =~= entries.drop_last().remove(i));
        assert(r.last() == entries.last());
        assert(entries_map(r) =~= entries_map(entries).remove(k));
    }
}

impl Env {
    /// The entries' keys are distinct.
    pub closed spec fn wf(&self) -> bool {
        distinct_keys(self.entries@)
    }

    /// The contents of persistent storage.
    pub closed spec fn contents(&self) -> Map<KeyView, ValueView> {
        entries_map(self.entries@)
    }

    /// The current ledger sequence.
    pub closed spec fn ledger(&self) -> u32 {
        self.sequence
    }

    /// A fresh ledger at sequence 0 with empty storage.
    pub fn new() -> (e: Env)
        ensures
            e.wf(),
            e.ledger() == 0,
            e.contents() == Map::<KeyView, ValueView>::empty(),
    {
        Env { sequence: 0, entries: Vec::new() }
    }

    /// The current ledger sequence.
    pub fn sequence(&self) -> (s: u32)
        ensures
            s == self.ledger(),
    {
        self.sequence
    }

    /// Moves the ledger to another sequence; storage is unchanged.
    pub fn set_sequence(&mut self, sequence: u32)
        ensures
            final(self).ledger() == sequence,
            final(self).contents() == old(self).contents(),
            final(self).wf() == old(self).wf(),
    {
        self.sequence = sequence;
    }

    fn find(&self, key: &StorageKey) -> (r: Option<usize>)
        ensures
            match r {
                Some(i) => i < self.entries@.len() && self.entries@[i as int].key@ == key@,
                None => forall|j: int|
                    0 <= j < self.entries@.len() ==> self.entries@[j].key@ != key@,
            },
    {
        let mut i: usize = 0;
        while i < self.entries.len()
            invariant
                i <= self.entries@.len(),
                forall|j: int| 0 <= j < i ==> self.entries@[j].key@ != key@,
            decreases self.entries.len() - i,
        {
            if same_key(&self.entries[i].key, key) {
                return Some(i);
            }
            i = i + 1;
        }
        None
    }

    /// Whether a value is stored under `key`.
    pub fn has(&self, key: &StorageKey) -> (r: bool)
        requires
            self.wf(),
        ensures
            r == self.contents().contains_key(key@),
    {
        match self.find(key) {
            Some(i) => {
                proof {
                    lemma_entries_map_index(self.entries@, i as int);
                }
                true
            },
            None => {
                proof {
                    lemma_entries_map_absent(self.entries@, key@);
                }
                false
            },
        }
    }

    /// The value stored under `key`, if any.
    pub fn get(&self, key: &StorageKey) -> (r: Option<StoredValue>)
        requires
            self.wf(),
        ensures
            match r {
                Some(v) => self.contents().contains_key(key@) && v@ == self.contents()[key@],
                None => !self.contents().contains_key(key@),
            },
    {
        match self.find(key) {
            Some(i) => {
                proof {
                    lemma_entries_map_index(self.entries@, i as int);
                }
                Some(self.entries[i].value.duplicate())
            },
            None => {
                proof {
                    lemma_entries_map_absent(self.entries@, key@);
                }
                None
            },
        }
    }

    /// Stores `value` under `key`, replacing what was there.
    pub fn set(&mut self, key: StorageKey, value: StoredValue)
        requires
            old(self).wf(),
        ensures
            final(self).wf(),
            final(self).ledger() == old(self).ledger(),
            final(self).contents() == old(self).contents().insert(key@, value@),
    {
        let ghost k = key@;
        let ghost v = value@;
        match self.find(&key) {
            Some(i) => {
                let e = StorageEntry { key, value };
                proof {
                    lemma_entries_map_update(self.entries@, i as int, e);
                }
                self.entries.set(i, e);
            },
            None => {
                let e = StorageEntry { key, value };
                proof {
                    lemma_entries_map_absent(self.entries@, k);
                }
                self.entries.push(e);
                proof {
                    assert(self.entries@.drop_last() =~= old(self).entries@);
                }
            },
        }
    }

    /// Removes whatever is stored under `key`.
    pub fn remove(&mut self, key: &StorageKey)
        requires
            old(self).wf(),
        ensures
            final(self).wf(),
            final(self).ledger() == old(self).ledger(),
            final(self).contents() == old(self).contents().remove(key@),
    {
        match self.find(key) {
            Some(i) => {
                proof {
                    lemma_entries_map_remove(self.entries@, i as int);
                }
                self.entries.remove(i);
            },
            None => {
                proof {
                    lemma_entries_map_absent(self.entries@, key@);
                    assert(self.contents() =~= self.contents().remove(key@));
                }
            },
        }
    }
}

// ── Scoped storage ───────────────────────────────────────────────────────────

/// Storage helper for policy implementations: every value is stored under a
/// key scoped by `(account, context_rule_id)`.
pub struct PolicyStorage;

/// The storage key that [`PolicyStorage`] uses.
pub open spec fn scoped_key(account: Seq<char>, context_rule_id: u32, subkey: &Subkey) -> KeyView {
    subkey_slot(false, account, context_rule_id, subkey)
}

impl PolicyStorage {
    /// Store value with proper scoping.
    pub fn set(env: &mut Env, account: &str, context_rule_id: u32, subkey: Subkey, value: StoredValue)
        requires
            old(env).wf(),
        ensures
            final(env).wf(),
            final(env).ledger() == old(env).ledger(),
            final(env).contents() == old(env).contents().insert(
                scoped_key(account@, context_rule_id, &subkey),
                value@,
            ),
    {
        let ghost k = scoped_key(account@, context_rule_id, &subkey);
        let key = StorageKey::Scoped(state_key(account, context_rule_id, subkey));
        assert(key@ == k);
        env.set(key, value);
    }

    /// Get stored value with proper scoping.
    pub fn get(env: &Env, account: &str, context_rule_id: u32, subkey: Subkey) -> (r: Option<StoredValue>)
        requires
            env.wf(),
        ensures
            ({
                let k = scoped_key(account@, context_rule_id, &subkey);
                match r {
                    Some(v) => env.contents().contains_key(k) && v@ == env.contents()[k],
                    None => !env.contents().contains_key(k),
                }
            }),
    {
        let ghost k = scoped_key(account@, context_rule_id, &subkey);
        let key = StorageKey::Scoped(state_key(account, context_rule_id, subkey));
        assert(key@ == k);
        env.get(&key)
    }

    /// Check if value exists with proper scoping.
    pub fn has(env: &Env, account: &str, context_rule_id: u32, subkey: Subkey) -> (r: bool)
        requires
            env.wf(),
        ensures
            r == env.contents().contains_key(scoped_key(account@, context_rule_id, &subkey)),
    {
        let ghost k = scoped_key(account@, context_rule_id, &subkey);
        let key = StorageKey::Scoped(state_key(account, context_rule_id, subkey));
        assert(key@ == k);
        env.has(&key)
    }
}

/// A subkey made of a name.
pub fn name_key(name: &str) -> (s: Subkey)
    ensures
        s matches Subkey::Name(n) && n@ == name@,
{
    Subkey::Name(crate::text::to_owned_string(name))
}

// ── Laws ─────────────────────────────────────────────────────────────────────

/// Scoping: a value stored for one `(account, context_rule_id)` pair is read
/// back for that pair, and storing it leaves every key of any other account
/// or context rule as it was.
pub proof fn lemma_scoped_write_isolation(
    before: Map<KeyView, ValueView>,
    account: Seq<char>,
    rule_id: u32,
    subkey: Subkey,
    value: ValueView,
    other: KeyView,
)
    requires
        key_scope(other) != Some((account, rule_id)),
    ensures
        ({
            let k = scoped_key(account, rule_id, &subkey);
            let after = before.insert(k, value);
            &&& after[k] == value
            &&& after.contains_key(other) == before.contains_key(other)
            &&& after.contains_key(other) ==> after[other] == before[other]
        }),
{
}

} // verus!
