//! A plain JSON document model, the parser that fills it (serde_json), and
//! exact accessors over it.
//!
//! Numbers are held as the bit pattern of the `f64` that serde_json reports
//! for them; nothing here computes with them.

use vstd::prelude::*;
use vstd::string::*;

use crate::question_bank::opt_text;
use crate::text::text_eq;

verus! {

/// A JSON value.
#[derive(Debug)]
pub enum JsonValue {
    Null,
    Bool(bool),
    /// The bit pattern of the number as an `f64`, when it has one.
    Number(Option<u64>),
    Text(String),
    Array(Vec<JsonValue>),
    /// The members of an object, each key once.
    Object(Vec<JsonMember>),
}

/// One member of a JSON object.
#[derive(Debug)]
pub struct JsonMember {
    pub key: String,
    pub value: JsonValue,
}

#[verifier::external_type_specification]
#[verifier::external_body]
pub struct ExSerdeJsonValue(serde_json::Value);

/// What serde_json makes of `text`: the document, or the text of its error.
pub uninterp spec fn json_parse_result(text: Seq<char>) -> Result<JsonValue, Seq<char>>;

/// Moves a serde_json document into the plain model, variant by variant:
/// numbers become the bits of their `f64` reading, arrays and objects keep
/// their order (an object's members in the order serde_json's map yields).
/// It is the result conversion of [`parse_json`], and called there only.
#[verifier::external_body]
fn json_from_serde(v: serde_json::Value) -> JsonValue {
    match v {
        serde_json::Value::Null => JsonValue::Null,
        serde_json::Value::Bool(b) => JsonValue::Bool(b),
        serde_json::Value::Number(n) => JsonValue::Number(n.as_f64().map(|x| x.to_bits())),
        serde_json::Value::String(s) => JsonValue::Text(s),
        serde_json::Value::Array(items) => JsonValue::Array(
            items.into_iter().map(json_from_serde).collect(),
        ),
        serde_json::Value::Object(map) => JsonValue::Object(
            map.into_iter().map(|(key, value)| JsonMember { key, value: json_from_serde(value) }).collect(),
        ),
    }
}

/// Parses `text` with `serde_json::from_str::<serde_json::Value>`. The
/// contract names the outcome (`json_parse_result`): the document on
/// success, the `Display` text of serde_json's error otherwise; it states
/// nothing of which texts parse.
#[verifier::external_body]
pub(crate) fn parse_json(text: &str) -> (r: Result<JsonValue, String>)
    ensures
        match (r, json_parse_result(text@)) {
            (Ok(v), Ok(w)) => v == w,
            (Err(e), Err(m)) => e@ == m,
            _ => false,
        },
{
    match serde_json::from_str::<serde_json::Value>(text) {
        Ok(v) => Ok(json_from_serde(v)),
        Err(e) => Err(e.to_string()),
    }
}

// ---------------------------------------------------------------------------
// Specifications
// ---------------------------------------------------------------------------

/// The value of the first member of `members` with key `key`.
pub open spec fn member_lookup(members: Seq<JsonMember>, key: Seq<char>) -> Option<JsonValue>
    decreases members.len(),
{
    if members.len() == 0 {
        None
    } else if members[0].key@ == key {
        Some(members[0].value)
    } else {
        member_lookup(members.drop_first(), key)
    }
}

/// `v[key]` when `v` is an object with that key.
pub open spec fn json_field(v: JsonValue, key: Seq<char>) -> Option<JsonValue> {
    match v {
        JsonValue::Object(members) => member_lookup(members@, key),
        _ => None,
    }
}

/// The text of a string value.
pub open spec fn text_of(v: Option<JsonValue>) -> Option<Seq<char>> {
    match v {
        Some(JsonValue::Text(s)) => Some(s@),
        _ => None,
    }
}

/// The `f64` bit pattern of a number value.
pub open spec fn number_of(v: Option<JsonValue>) -> Option<u64> {
    match v {
        Some(JsonValue::Number(Some(bits))) => Some(bits),
        _ => None,
    }
}

/// The texts of the string items, in order; other items are skipped.
pub open spec fn texts_in(items: Seq<JsonValue>) -> Seq<Seq<char>>
    decreases items.len(),
{
    if items.len() == 0 {
        Seq::empty()
    } else {
        let rest = texts_in(items.drop_last());
        match items.last() {
            JsonValue::Text(s) => rest.push(s@),
            _ => rest,
        }
    }
}

/// Every item is a string.
pub open spec fn all_texts(items: Seq<JsonValue>) -> bool {
    forall|i: int| 0 <= i < items.len() ==> #[trigger] items[i] is Text
}

/// The texts of `v[key]` when it is an array (string items only); empty
/// otherwise.
pub open spec fn text_items_of(v: JsonValue, key: Seq<char>) -> Seq<Seq<char>> {
    match json_field(v, key) {
        Some(JsonValue::Array(items)) => texts_in(items@),
        _ => Seq::empty(),
    }
}

/// The list of strings that `text` denotes: a JSON array whose items are all
/// strings.
pub open spec fn string_list_of(text: Seq<char>) -> Option<Seq<Seq<char>>> {
    match json_parse_result(text) {
        Ok(JsonValue::Array(items)) => if all_texts(items@) {
            Some(texts_in(items@))
        } else {
            None
        },
        _ => None,
    }
}

// ---------------------------------------------------------------------------
// Accessors
// ---------------------------------------------------------------------------

/// `v[key]` when `v` is an object with that key.
pub fn field<'a>(v: &'a JsonValue, key: &str) -> (r: Option<&'a JsonValue>)
    ensures
        match r {
            Some(x) => json_field(*v, key@) == Some(*x),
            None => json_field(*v, key@) is None,
        },
{
    match v {
        JsonValue::Object(members) => {
            let mut i: usize = 0;
            assert(members@.subrange(0, members@.len() as int) =~= members@);
            while i < members.len()
                invariant
                    i <= members@.len(),
                    json_field(*v, key@) == member_lookup(members@, key@),
                    member_lookup(members@, key@) == member_lookup(
                        members@.subrange(i as int, members@.len() as int),
                        key@,
                    ),
                decreases members.len() - i,
            {
                let ghost rest = members@.subrange(i as int, members@.len() as int);
                assert(rest[0] == members@[i as int]);
                if text_eq(members[i].key.as_str(), key) {
                    assert(member_lookup(rest, key@) == Some(members@[i as int].value));
                    return Some(&members[i].value);
                }
                assert(rest.drop_first() =~= members@.subrange(i + 1, members@.len() as int));
                i = i + 1;
            }
            None
        },
        _ => None,
    }
}

/// The text of `v[key]` when it is a string.
pub fn text_field(v: &JsonValue, key: &str) -> (r: Option<String>)
    ensures
        opt_text(r) == text_of(json_field(*v, key@)),
{
    match field(v, key) {
        Some(JsonValue::Text(s)) => Some(s.clone()),
        _ => None,
    }
}

/// The `f64` bit pattern of `v[key]` when it is a number.
pub fn number_field(v: &JsonValue, key: &str) -> (r: Option<u64>)
    ensures
        r == number_of(json_field(*v, key@)),
{
    match field(v, key) {
        Some(JsonValue::Number(Some(bits))) => Some(*bits),
        _ => None,
    }
}

/// The texts of the string items, in order.
pub fn text_items(items: &Vec<JsonValue>) -> (r: Vec<String>)
    ensures
        r.deep_view() == texts_in(items@),
{
    let mut r: Vec<String> = Vec::new();
    let mut i: usize = 0;
    while i < items.len()
        invariant
            i <= items@.len(),
            r.deep_view() == texts_in(items@.subrange(0, i as int)),
        decreases items.len() - i,
    {
        assert(items@.subrange(0, i + 1).drop_last() =~= items@.subrange(0, i as int));
        assert(items@.subrange(0, i + 1).last() == items@[i as int]);
        let ghost before = r.deep_view();
        match &items[i] {
            JsonValue::Text(s) => {
                r.push(s.clone());
                assert(r.deep_view() =~= before.push(s@));
            },
            _ => {},
        }
        i = i + 1;
    }
    assert(items@.subrange(0, items@.len() as int) =~= items@);
    r
}

/// Whether every item is a string.
pub fn only_texts(items: &Vec<JsonValue>) -> (r: bool)
    ensures
        r == all_texts(items@),
{
    let mut i: usize = 0;
    while i < items.len()
        invariant
            i <= items@.len(),
            forall|j: int| 0 <= j < i ==> #[trigger] items@[j] is Text,
        decreases items.len() - i,
    {
        match &items[i] {
            JsonValue::Text(_) => {},
            _ => {
                return false;
            },
        }
        i = i + 1;
    }
    true
}

/// The strings of `v[key]` when it is an array (non-string items are
/// skipped); an empty list otherwise.
pub fn extract_string_array(v: &JsonValue, key: &str) -> (r: Vec<String>)
    ensures
        r.deep_view() == text_items_of(*v, key@),
{
    match field(v, key) {
        Some(JsonValue::Array(items)) => text_items(items),
        _ => {
            let r: Vec<String> = Vec::new();
            assert(r.deep_view() =~= Seq::<Seq<char>>::empty());
            r
        },
    }
}

/// Reads `text` as a JSON list of strings.
pub fn parse_string_list(text: &str) -> (r: Option<Vec<String>>)
    ensures
        match r {
            Some(v) => string_list_of(text@) == Some(v.deep_view()),
            None => string_list_of(text@) is None,
        },
{
    match parse_json(text) {
        Ok(JsonValue::Array(items)) => {
            if only_texts(&items) {
                Some(text_items(&items))
            } else {
                None
            }
        },
        _ => None,
    }
}

} // verus!
