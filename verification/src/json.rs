//! The JSON values that flow between zwave-js-server, the translator and
//! HomeCore, as plain data.

use vstd::prelude::*;
use crate::text::{int_text, is_digit, nat_text, owned, u64_text, i64_text, str_eq, table_lookup};
use crate::assoc::{assoc_map, keys_distinct};

verus! {

/// A JSON number as zwave-js-server and HomeCore exchange it: a
/// non-negative integer, a negative integer, or a finite float.
///
/// A float is held by its IEEE-754 bit pattern together with the text that
/// serde_json renders for it.
#[derive(Debug, PartialEq)]
pub enum JsonNumber {
    PosInt(u64),
    NegInt(i64),
    Float { bits: u64, text: String },
}

/// A JSON value; an object keeps its members in order.
#[derive(Debug, PartialEq)]
pub enum JsonValue {
    Null,
    Bool(bool),
    Number(JsonNumber),
    String(String),
    Array(Vec<JsonValue>),
    Object(Vec<(String, JsonValue)>),
}

/// The mathematical view of a [`JsonNumber`].
pub enum NumberView {
    PosInt(u64),
    NegInt(i64),
    Float { bits: u64, text: Seq<char> },
}

/// The mathematical view of a [`JsonValue`].
pub enum JsonView {
    Null,
    Bool(bool),
    Number(NumberView),
    Str(Seq<char>),
    Array(Seq<JsonView>),
    Object(Seq<(Seq<char>, JsonView)>),
}

impl View for JsonNumber {
    type V = NumberView;

    open spec fn view(&self) -> NumberView {
        match self {
            JsonNumber::PosInt(n) => NumberView::PosInt(*n),
            JsonNumber::NegInt(i) => NumberView::NegInt(*i),
            JsonNumber::Float { bits, text } => NumberView::Float { bits: *bits, text: text@ },
        }
    }
}

pub open spec fn items_view(items: Seq<JsonValue>) -> Seq<JsonView>
    decreases items,
{
    if items.len() == 0 {
        Seq::empty()
    } else {
        items_view(items.drop_last()).push(json_view(items.last()))
    }
}

pub open spec fn members_view(members: Seq<(String, JsonValue)>) -> Seq<(Seq<char>, JsonView)>
    decreases members,
{
    if members.len() == 0 {
        Seq::empty()
    } else {
        members_view(members.drop_last()).push(
            (members.last().0@, json_view(members.last().1)),
        )
    }
}

pub open spec fn json_view(v: JsonValue) -> JsonView
    decreases v,
{
    match v {
        JsonValue::Null => JsonView::Null,
        JsonValue::Bool(b) => JsonView::Bool(b),
        JsonValue::Number(n) => JsonView::Number(n@),
        JsonValue::String(s) => JsonView::Str(s@),
        JsonValue::Array(items) => JsonView::Array(items_view(items@)),
        JsonValue::Object(members) => JsonView::Object(members_view(members@)),
    }
}

impl View for JsonValue {
    type V = JsonView;

    open spec fn view(&self) -> JsonView {
        json_view(*self)
    }
}


pub proof fn lemma_items_view_push(items: Seq<JsonValue>, x: JsonValue)
    ensures
        items_view(items.push(x)) == items_view(items).push(json_view(x)),
{
    assert(items.push(x).drop_last() =~= items);
}

pub proof fn lemma_members_view_push(members: Seq<(String, JsonValue)>, m: (String, JsonValue))
    ensures
        members_view(members.push(m)) == members_view(members).push((m.0@, json_view(m.1))),
{
    assert(members.push(m).drop_last() =~= members);
}

impl JsonNumber {
    /// A copy of this number.
    pub fn copy(&self) -> (r: JsonNumber)
        ensures
            r@ == self@,
    {
        match self {
            JsonNumber::PosInt(n) => JsonNumber::PosInt(*n),
            JsonNumber::NegInt(i) => JsonNumber::NegInt(*i),
            JsonNumber::Float { bits, text } => JsonNumber::Float { bits: *bits, text: text.clone() },
        }
    }
}

impl JsonValue {
    /// A deep copy of this value.
    #[verifier::loop_isolation(false)]
    pub fn copy(&self) -> (r: JsonValue)
        ensures
            r@ == self@,
        decreases self,
    {
        match self {
            JsonValue::Null => JsonValue::Null,
            JsonValue::Bool(b) => JsonValue::Bool(*b),
            JsonValue::Number(n) => JsonValue::Number(n.copy()),
            JsonValue::String(s) => JsonValue::String(s.clone()),
            JsonValue::Array(items) => {
                let mut out: Vec<JsonValue> = Vec::new();
                let mut i: usize = 0;
                while i < items.len()
                    invariant
                        i <= items.len(),
                        items_view(out@) == items_view(items@.take(i as int)),
                    decreases items.len() - i,
                {
                    proof {
                        vstd::std_specs::vec::axiom_vec_index_decreases(*items, i as int);
                    }
                    let c = items[i].copy();
                    proof {
                        lemma_items_view_push(out@, c);
                        lemma_items_view_push(items@.take(i as int), items[i as int]);
                        assert(items@.take(i as int).push(items[i as int]) =~= items@.take(i + 1));
                    }
                    out.push(c);
                    i = i + 1;
                }
                assert(items@.take(i as int) =~= items@);
                JsonValue::Array(out)
            },
            JsonValue::Object(members) => {
                let mut out: Vec<(String, JsonValue)> = Vec::new();
                let mut i: usize = 0;
                while i < members.len()
                    invariant
                        i <= members.len(),
                        members_view(out@) == members_view(members@.take(i as int)),
                    decreases members.len() - i,
                {
                    proof {
                        vstd::std_specs::vec::axiom_vec_index_decreases(*members, i as int);
                    }
                    let m = (members[i].0.clone(), members[i].1.copy());
                    proof {
                        lemma_members_view_push(out@, m);
                        lemma_members_view_push(members@.take(i as int), members[i as int]);
                        assert(members@.take(i as int).push(members[i as int]) =~= members@.take(i + 1));
                    }
                    out.push(m);
                    i = i + 1;
                }
                assert(members@.take(i as int) =~= members@);
                JsonValue::Object(out)
            },
        }
    }
}


/// The text that serde_json's `Display` writes for a number.
pub open spec fn number_text(n: NumberView) -> Seq<char> {
    match n {
        NumberView::PosInt(u) => nat_text(u as nat),
        NumberView::NegInt(i) => int_text(i as int),
        NumberView::Float { bits, text } => text,
    }
}

/// The text of a scalar value: a string's own characters, a number's or a
/// boolean's rendering, and `null`.  Arrays and objects have none here:
/// their JSON text begins with `[` or `{`.
pub open spec fn scalar_text(v: JsonView) -> Option<Seq<char>> {
    match v {
        JsonView::Null => Some("null"@),
        JsonView::Bool(b) => Some(if b { "true"@ } else { "false"@ }),
        JsonView::Number(n) => Some(number_text(n)),
        JsonView::Str(s) => Some(s),
        JsonView::Array(_) => None,
        JsonView::Object(_) => None,
    }
}

/// A character of a float's JSON text.
pub open spec fn is_float_char(c: char) -> bool {
    is_digit(c) || c == '-' || c == '+' || c == '.' || c == 'e' || c == 'E'
}

/// A float's JSON text as serde_json writes it: digits with an optional
/// leading minus, and a decimal point or an exponent, which tells it from
/// an integer's.
pub open spec fn is_float_text(s: Seq<char>) -> bool {
    &&& s.len() > 0
    &&& is_digit(s[0]) || s[0] == '-'
    &&& forall|i: int| 0 <= i < s.len() ==> is_float_char(#[trigger] s[i])
    &&& exists|i: int| 0 <= i < s.len() && (#[trigger] s[i] == '.' || s[i] == 'e' || s[i] == 'E')
}

/// Whether an IEEE-754 bit pattern is a finite double: its exponent bits
/// are not all set.
pub open spec fn is_finite_bits(bits: u64) -> bool {
    (bits / 0x10_0000_0000_0000) % 2048 != 2047
}

/// A number as serde_json holds one: a negative integer is below zero, and
/// a float is finite and carries its JSON text.
pub open spec fn number_wf(n: NumberView) -> bool {
    match n {
        NumberView::PosInt(_) => true,
        NumberView::NegInt(i) => i < 0,
        NumberView::Float { bits, text } => is_finite_bits(bits) && is_float_text(text),
    }
}

/// Whether every number in a JSON value is as serde_json holds one.
pub open spec fn json_wf(v: JsonView) -> bool
    decreases v,
{
    match v {
        JsonView::Number(n) => number_wf(n),
        JsonView::Array(items) => forall|i: int| 0 <= i < items.len() ==> json_wf(#[trigger] items[i]),
        JsonView::Object(members) => forall|i: int|
            0 <= i < members.len() ==> json_wf(#[trigger] members[i].1),
        _ => true,
    }
}

/// `Value::as_u64`: a non-negative integer, and nothing for anything else.
pub open spec fn as_u64_spec(v: JsonView) -> Option<u64> {
    match v {
        JsonView::Number(NumberView::PosInt(n)) => Some(n),
        _ => None,
    }
}

impl JsonNumber {
    /// The decimal text of this number.
    pub fn text(&self) -> (r: String)
        ensures
            r@ == number_text(self@),
    {
        match self {
            JsonNumber::PosInt(n) => u64_text(*n),
            JsonNumber::NegInt(i) => i64_text(*i),
            JsonNumber::Float { bits, text } => text.clone(),
        }
    }
}

impl JsonValue {
    /// The text of a scalar value, as `value_to_string` renders it.
    pub fn scalar_text(&self) -> (r: Option<String>)
        ensures
            match scalar_text(self@) {
                Some(t) => r matches Some(x) && x@ == t,
                None => r is None,
            },
    {
        match self {
            JsonValue::Null => Some(owned("null")),
            JsonValue::Bool(b) => Some(if *b { owned("true") } else { owned("false") }),
            JsonValue::Number(n) => Some(n.text()),
            JsonValue::String(s) => Some(s.clone()),
            JsonValue::Array(_) => None,
            JsonValue::Object(_) => None,
        }
    }

    /// `Value::as_u64`.
    pub fn as_u64(&self) -> (r: Option<u64>)
        ensures
            r == as_u64_spec(self@),
    {
        match self {
            JsonValue::Number(JsonNumber::PosInt(n)) => Some(*n),
            _ => None,
        }
    }
}


pub proof fn lemma_items_view_index(items: Seq<JsonValue>)
    ensures
        items_view(items).len() == items.len(),
        forall|i: int| 0 <= i < items.len() ==> #[trigger] items_view(items)[i] == json_view(items[i]),
    decreases items.len(),
{
    if items.len() > 0 {
        lemma_items_view_index(items.drop_last());
    }
}

pub proof fn lemma_members_view_index(members: Seq<(String, JsonValue)>)
    ensures
        members_view(members).len() == members.len(),
        forall|i: int|
            0 <= i < members.len() ==> #[trigger] members_view(members)[i] == (
                members[i].0@,
                json_view(members[i].1),
            ),
    decreases members.len(),
{
    if members.len() > 0 {
        lemma_members_view_index(members.drop_last());
    }
}

/// The member `key` of an object (the first one, where keys repeat);
/// nothing for any other value.
pub open spec fn object_get(v: JsonView, key: Seq<char>) -> Option<JsonView> {
    match v {
        JsonView::Object(members) => table_lookup(members, key),
        _ => None,
    }
}

/// The map that an object's members describe, a later member taking the
/// place of an earlier one with the same key.
pub open spec fn members_map(members: Seq<(Seq<char>, JsonView)>) -> Map<Seq<char>, JsonView>
    decreases members.len(),
{
    if members.len() == 0 {
        Map::empty()
    } else {
        members_map(members.drop_last()).insert(members.last().0, members.last().1)
    }
}

/// No two members share a key.
pub open spec fn member_keys_distinct(members: Seq<(Seq<char>, JsonView)>) -> bool {
    forall|i: int, j: int| 0 <= i < j < members.len() ==> #[trigger] members[i].0 != #[trigger] members[j].0
}

/// An object whose members have distinct keys and describe `m`.
pub open spec fn is_object_of(v: JsonView, m: Map<Seq<char>, JsonView>) -> bool {
    &&& v is Object
    &&& member_keys_distinct(v->Object_0)
    &&& members_map(v->Object_0) == m
}

pub proof fn lemma_members_map_assoc(members: Seq<(String, JsonValue)>)
    ensures
        members_map(members_view(members)) == assoc_map(members),
        keys_distinct(members) ==> member_keys_distinct(members_view(members)),
    decreases members.len(),
{
    lemma_members_view_index(members);
    if members.len() > 0 {
        lemma_members_map_assoc(members.drop_last());
        assert(members_view(members).drop_last() =~= members_view(members.drop_last()));
    }
}

impl JsonValue {
    /// `Value::get` with a string key: the member `key` of an object.
    #[verifier::loop_isolation(false)]
    pub fn get(&self, key: &str) -> (r: Option<&JsonValue>)
        ensures
            match object_get(self@, key@) {
                Some(v) => r matches Some(x) && x@ == v,
                None => r is None,
            },
    {
        match self {
            JsonValue::Object(members) => {
                proof {
                    lemma_members_view_index(members@);
                }
                let ghost ms = members_view(members@);
                assert(ms.skip(0) =~= ms);
                let mut i: usize = 0;
                while i < members.len()
                    invariant
                        i <= members@.len(),
                        ms == members_view(members@),
                        ms.len() == members@.len(),
                        forall|j: int|
                            0 <= j < members@.len() ==> #[trigger] ms[j] == (
                                members@[j].0@,
                                json_view(members@[j].1),
                            ),
                        table_lookup(ms, key@) == table_lookup(ms.skip(i as int), key@),
                    decreases members@.len() - i,
                {
                    let ghost rest = ms.skip(i as int);
                    assert(rest[0] == ms[i as int]);
                    assert(rest.drop_first() =~= ms.skip(i + 1));
                    if str_eq(members[i].0.as_str(), key) {
                        return Some(&members[i].1);
                    }
                    i = i + 1;
                }
                assert(ms.skip(i as int).len() == 0);
                None
            },
            _ => None,
        }
    }

    /// The elements of an array.
    pub fn as_array(&self) -> (r: Option<&Vec<JsonValue>>)
        ensures
            match self@ {
                JsonView::Array(items) => r matches Some(x) && items_view(x@) == items,
                _ => r is None,
            },
    {
        match self {
            JsonValue::Array(items) => Some(items),
            _ => None,
        }
    }

    /// A string value.
    pub fn string(s: &str) -> (r: JsonValue)
        ensures
            r@ == JsonView::Str(s@),
    {
        JsonValue::String(owned(s))
    }

    /// A non-negative integer value.
    pub fn uint(n: u64) -> (r: JsonValue)
        ensures
            r@ == JsonView::Number(NumberView::PosInt(n)),
    {
        JsonValue::Number(JsonNumber::PosInt(n))
    }
}

} // verus!
