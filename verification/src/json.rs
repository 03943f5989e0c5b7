//! JSON values as the recorder and synthesizer read them.
//!
//! Numbers keep what the library reads of them: unsigned and negative
//! integers exactly; of a floating-point number its truncation to `u128`
//! (saturating at the bounds, as a float-to-integer cast does), whether it
//! is below zero, and its display text.
use vstd::prelude::*;

use crate::text::{decimal, str_eq, to_owned_string};

verus! {

/// A floating-point JSON number, as far as the library reads it.
#[derive(Clone, Debug)]
pub struct FloatValue {
    /// The number cast to `u128` (saturating; 0 for negative numbers and NaN).
    pub truncated: u128,
    /// The number is below zero.
    pub negative: bool,
    /// The number's display text.
    pub text: String,
}

/// A JSON number.
#[derive(Clone, Debug)]
pub enum JsonNumber {
    /// A non-negative integer.
    PosInt(u64),
    /// A negative integer.
    NegInt(i64),
    /// Any other number.
    Float(FloatValue),
}

/// A JSON value. Object members keep their order; keys are distinct.
#[derive(Debug)]
pub enum JsonValue {
    Null,
    Bool(bool),
    Number(JsonNumber),
    String(String),
    Array(Vec<JsonValue>),
    Object(Vec<(String, JsonValue)>),
}

/// The content of a [`FloatValue`].
pub struct FloatView {
    pub truncated: u128,
    pub negative: bool,
    pub text: Seq<char>,
}

/// The content of a [`JsonNumber`].
pub enum NumberView {
    PosInt(u64),
    NegInt(i64),
    Float(FloatView),
}

/// The content of a [`JsonValue`].
pub enum JsonView {
    Null,
    Bool(bool),
    Number(NumberView),
    String(Seq<char>),
    Array(Seq<JsonView>),
    Object(Seq<(Seq<char>, JsonView)>),
}

impl View for FloatValue {
    type V = FloatView;

    open spec fn view(&self) -> FloatView {
        FloatView { truncated: self.truncated, negative: self.negative, text: self.text@ }
    }
}

impl View for JsonNumber {
    type V = NumberView;

    open spec fn view(&self) -> NumberView {
        match self {
            JsonNumber::PosInt(n) => NumberView::PosInt(*n),
            JsonNumber::NegInt(n) => NumberView::NegInt(*n),
            JsonNumber::Float(f) => NumberView::Float(f@),
        }
    }
}

/// The content of a JSON value.
pub open spec fn json_view(v: &JsonValue) -> JsonView
    decreases v, 0nat,
{
    match v {
        JsonValue::Null => JsonView::Null,
        JsonValue::Bool(b) => JsonView::Bool(*b),
        JsonValue::Number(n) => JsonView::Number(n@),
        JsonValue::String(s) => JsonView::String(s@),
        JsonValue::Array(a) => JsonView::Array(list_view(a@)),
        JsonValue::Object(o) => JsonView::Object(members_view(o@)),
    }
}

/// The contents of a list of JSON values.
pub open spec fn list_view(s: Seq<JsonValue>) -> Seq<JsonView>
    decreases s, 0nat,
{
    if s.len() == 0 {
        Seq::empty()
    } else {
        list_view(s.drop_last()).push(json_view(&s.last()))
    }
}

/// The contents of a list of object members.
pub open spec fn members_view(s: Seq<(String, JsonValue)>) -> Seq<(Seq<char>, JsonView)>
    decreases s, 0nat,
{
    if s.len() == 0 {
        Seq::empty()
    } else {
        members_view(s.drop_last()).push((s.last().0@, json_view(&s.last().1)))
    }
}

impl View for JsonValue {
    type V = JsonView;

    open spec fn view(&self) -> JsonView {
        json_view(self)
    }
}

impl FloatValue {
    /// A copy with the same content.
    pub fn duplicate(&self) -> (r: Self)
        ensures
            r@ == self@,
    {
        FloatValue { truncated: self.truncated, negative: self.negative, text: self.text.clone() }
    }
}

impl JsonNumber {
    /// A copy with the same content.
    pub fn duplicate(&self) -> (r: Self)
        ensures
            r@ == self@,
    {
        match self {
            JsonNumber::PosInt(n) => JsonNumber::PosInt(*n),
            JsonNumber::NegInt(n) => JsonNumber::NegInt(*n),
            JsonNumber::Float(f) => JsonNumber::Float(f.duplicate()),
        }
    }
}

/// The value of member `key` of the members `m` (the first with that key).
pub open spec fn first_member(m: Seq<(Seq<char>, JsonView)>, key: Seq<char>) -> Option<JsonView>
    decreases m.len(),
{
    if m.len() == 0 {
        None
    } else if m[0].0 == key {
        Some(m[0].1)
    } else {
        first_member(m.drop_first(), key)
    }
}

/// Member `key` of an object (`None` for other values).
pub open spec fn member(v: JsonView, key: Seq<char>) -> Option<JsonView> {
    match v {
        JsonView::Object(m) => first_member(m, key),
        _ => None,
    }
}

/// The text of a string value.
pub open spec fn as_text(v: JsonView) -> Option<Seq<char>> {
    match v {
        JsonView::String(s) => Some(s),
        _ => None,
    }
}

/// The value of a non-negative integer.
pub open spec fn as_unsigned(v: JsonView) -> Option<u64> {
    match v {
        JsonView::Number(NumberView::PosInt(n)) => Some(n),
        _ => None,
    }
}

/// A number below zero (what `as_f64() < 0.0` tests).
pub open spec fn is_negative_number(v: JsonView) -> Option<bool> {
    match v {
        JsonView::Number(NumberView::PosInt(_)) => Some(false),
        JsonView::Number(NumberView::NegInt(_)) => Some(true),
        JsonView::Number(NumberView::Float(f)) => Some(f.negative),
        _ => None,
    }
}

/// The display text of a number. Integers are shown exactly in decimal,
/// which is also how a float shows them up to 2^53; beyond that a float
/// would round them, and its display can differ.
pub open spec fn number_text(v: JsonView) -> Option<Seq<char>> {
    match v {
        JsonView::Number(NumberView::PosInt(n)) => Some(decimal(n as nat)),
        JsonView::Number(NumberView::NegInt(n)) => Some(
            if n < 0 {
                seq!['-'] + decimal((-n) as nat)
            } else {
                decimal(n as nat)
            },
        ),
        JsonView::Number(NumberView::Float(f)) => Some(f.text),
        _ => None,
    }
}

/// Facts about [`list_view`].
pub proof fn lemma_list_view(s: Seq<JsonValue>)
    ensures
        list_view(s).len() == s.len(),
        forall|i: int| 0 <= i < s.len() ==> #[trigger] list_view(s)[i] == json_view(&s[i]),
    decreases s.len(),
{
    if s.len() > 0 {
        lemma_list_view(s.drop_last());
    }
}

/// Facts about [`members_view`].
pub proof fn lemma_members_view(s: Seq<(String, JsonValue)>)
    ensures
        members_view(s).len() == s.len(),
        forall|i: int| 0 <= i < s.len() ==> #[trigger] members_view(s)[i] == (s[i].0@, json_view(&s[i].1)),
    decreases s.len(),
{
    if s.len() > 0 {
        lemma_members_view(s.drop_last());
    }
}

impl Clone for JsonValue {
    fn clone(&self) -> Self {
        self.duplicate()
    }
}

impl JsonValue {
    /// A copy with the same content.
    #[verifier::loop_isolation(false)]
    pub fn duplicate(&self) -> (r: Self)
        ensures
            r@ == self@,
        decreases self,
    {
        match self {
            JsonValue::Null => JsonValue::Null,
            JsonValue::Bool(b) => JsonValue::Bool(*b),
            JsonValue::Number(n) => JsonValue::Number(n.duplicate()),
            JsonValue::String(s) => JsonValue::String(s.clone()),
            JsonValue::Array(a) => {
                let mut w: Vec<JsonValue> = Vec::new();
                let mut i: usize = 0;
                while i < a.len()
                    invariant
                        i <= a@.len(),
                        list_view(w@) == list_view(a@.subrange(0, i as int)),
                    decreases a.len() - i,
                {
                    proof {
                        vstd::std_specs::vec::axiom_vec_index_decreases(*a, i as int);
                    }
                    let d = a[i].duplicate();
                    let ghost before = w@;
                    w.push(d);
                    proof {
                        assert(w@.drop_last() =~= before);
                        assert(a@.subrange(0, i + 1).drop_last() =~= a@.subrange(0, i as int));
                    }
                    i = i + 1;
                }
                assert(a@.subrange(0, a@.len() as int) =~= a@);
                JsonValue::Array(w)
            },
            JsonValue::Object(o) => {
                let mut w: Vec<(String, JsonValue)> = Vec::new();
                let mut i: usize = 0;
                while i < o.len()
                    invariant
                        i <= o@.len(),
                        members_view(w@) == members_view(o@.subrange(0, i as int)),
                    decreases o.len() - i,
                {
                    proof {
                        vstd::std_specs::vec::axiom_vec_index_decreases(*o, i as int);
                        assert(decreases_to!(o@[i as int] => o@[i as int].1));
                    }
                    let d = o[i].1.duplicate();
                    let k = o[i].0.clone();
                    let ghost before = w@;
                    w.push((k, d));
                    proof {
                        assert(w@.drop_last() =~= before);
                        assert(o@.subrange(0, i + 1).drop_last() =~= o@.subrange(0, i as int));
                    }
                    i = i + 1;
                }
                assert(o@.subrange(0, o@.len() as int) =~= o@);
                JsonValue::Object(w)
            },
        }
    }
}

impl JsonValue {
    /// Member `key` of an object; `None` for other values or a missing key.
    pub fn get(&self, key: &str) -> (r: Option<&JsonValue>)
        ensures
            match member(self@, key@) {
                Some(x) => r matches Some(y) && y@ == x,
                None => r is None,
            },
    {
        match self {
            JsonValue::Object(o) => {
                proof {
                    lemma_members_view(o@);
                }
                let ghost m = members_view(o@);
                assert(self@ == JsonView::Object(m));
                assert(member(self@, key@) == first_member(m, key@));
                assert(m.subrange(0, m.len() as int) =~= m);
                let mut i: usize = 0;
                while i < o.len()
                    invariant
                        i <= o@.len(),
                        m == members_view(o@),
                        m.len() == o@.len(),
                        forall|j: int| 0 <= j < o@.len() ==> #[trigger] m[j] == (o@[j].0@, json_view(&o@[j].1)),
                        member(self@, key@) == first_member(m.subrange(i as int, m.len() as int), key@),
                    decreases o.len() - i,
                {
                    let ghost rest = m.subrange(i as int, m.len() as int);
                    assert(rest[0] == m[i as int]);
                    assert(m[i as int] == (o@[i as int].0@, json_view(&o@[i as int].1)));
                    if str_eq(o[i].0.as_str(), key) {
                        assert(first_member(rest, key@) == Some(json_view(&o@[i as int].1)));
                        let found = &o[i].1;
                        assert(found@ == json_view(&o@[i as int].1));
                        return Some(found);
                    }
                    assert(rest.drop_first() =~= m.subrange(i + 1, m.len() as int));
                    i = i + 1;
                }
                None
            },
            _ => None,
        }
    }

    /// The text of a string value.
    pub fn as_str(&self) -> (r: Option<&String>)
        ensures
            match as_text(self@) {
                Some(t) => r matches Some(s) && s@ == t,
                None => r is None,
            },
    {
        match self {
            JsonValue::String(s) => Some(s),
            _ => None,
        }
    }

    /// The value of a non-negative integer.
    pub fn as_u64(&self) -> (r: Option<u64>)
        ensures
            r == as_unsigned(self@),
    {
        match self {
            JsonValue::Number(JsonNumber::PosInt(n)) => Some(*n),
            _ => None,
        }
    }

    /// Whether a number is below zero; `None` for other values.
    pub fn is_negative(&self) -> (r: Option<bool>)
        ensures
            r == is_negative_number(self@),
    {
        match self {
            JsonValue::Number(JsonNumber::PosInt(_)) => Some(false),
            JsonValue::Number(JsonNumber::NegInt(_)) => Some(true),
            JsonValue::Number(JsonNumber::Float(f)) => Some(f.negative),
            _ => None,
        }
    }

    /// The display text of a number read as a float; `None` for other values.
    pub fn number_to_string(&self) -> (r: Option<String>)
        ensures
            match number_text(self@) {
                Some(t) => r matches Some(s) && s@ == t,
                None => r is None,
            },
    {
        match self {
            JsonValue::Number(JsonNumber::PosInt(n)) => {
                let s = crate::text::decimal_string(*n as u128);
                assert(self@ == JsonView::Number(NumberView::PosInt(*n)));
                Some(s)
            },
            JsonValue::Number(JsonNumber::NegInt(n)) => {
                let wide: i128 = *n as i128;
                if wide < 0 {
                    let mut s = String::new();
                    crate::text::push_char(&mut s, '-');
                    crate::text::push_decimal(&mut s, (0i128 - wide) as u128);
                    assert(s@ =~= seq!['-'] + decimal((-*n) as nat));
                    Some(s)
                } else {
                    Some(crate::text::decimal_string(wide as u128))
                }
            },
            JsonValue::Number(JsonNumber::Float(f)) => Some(f.text.clone()),
            _ => None,
        }
    }

    /// A string value.
    pub fn from_text(s: &str) -> (r: JsonValue)
        ensures
            r@ == JsonView::String(s@),
    {
        JsonValue::String(to_owned_string(s))
    }

    /// A non-negative integer value.
    pub fn from_u64(n: u64) -> (r: JsonValue)
        ensures
            r@ == JsonView::Number(NumberView::PosInt(n)),
    {
        JsonValue::Number(JsonNumber::PosInt(n))
    }
}

} // verus!
