//! JSON values.
//!
//! The library holds JSON as `serde_json::Value` and never looks inside one
//! itself. What a value holds is modelled by `JsonValue`; the functions of
//! `serde_json` that the library calls are given contracts over that model,
//! which Verus takes on trust. Parsing and printing are only named: their
//! results are whatever `serde_json` computes.

use crate::text::texts;
use serde_json::Value;
use vstd::prelude::*;

verus! {

/// Trusted: `serde_json::Value`, opaque to the verifier.
#[verifier::external_type_specification]
#[verifier::external_body]
pub struct ExValue(serde_json::Value);

/// Trusted: `serde_json::Error`, opaque to the verifier.
#[verifier::external_type_specification]
#[verifier::external_body]
pub struct ExJsonError(serde_json::Error);

/// What a JSON value holds.
///
/// A number is an `Integer` where `serde_json` holds it as a `u64` or an
/// `i64`, and a `Fraction` otherwise. The members of an object are a map:
/// their order plays no part in what the library reads.
pub enum JsonValue {
    Null,
    Bool(bool),
    Integer(int),
    Fraction(Seq<char>),
    Str(Seq<char>),
    Array(Seq<JsonValue>),
    Object(Map<Seq<char>, JsonValue>),
}

/// What a `serde_json::Value` holds.
pub uninterp spec fn value_content(v: serde_json::Value) -> JsonValue;

/// What `serde_json::from_str` reads from a text: the content of the value,
/// or `None` where it reports an error.
pub uninterp spec fn json_parse(text: Seq<char>) -> Option<JsonValue>;

/// The compact text that `serde_json` prints for a value.
pub uninterp spec fn json_text(v: JsonValue) -> Seq<char>;

/// The member of an object under a key; `None` for a missing key and for
/// anything that is not an object.
pub open spec fn member(v: JsonValue, key: Seq<char>) -> Option<JsonValue> {
    match v {
        JsonValue::Object(m) => if m.dom().contains(key) {
            Some(m[key])
        } else {
            None
        },
        _ => None,
    }
}

/// The member under a key, where a missing member and `null` count alike as
/// absent.
pub open spec fn present_member(v: JsonValue, key: Seq<char>) -> Option<JsonValue> {
    match member(v, key) {
        Some(JsonValue::Null) => None,
        other => other,
    }
}

/// The content of each value of a sequence.
pub open spec fn contents(items: Seq<serde_json::Value>) -> Seq<JsonValue> {
    Seq::new(items.len(), |i: int| value_content(items[i]))
}

/// The content of an optional value.
pub open spec fn optional_content(v: Option<serde_json::Value>) -> Option<JsonValue> {
    match v {
        Some(v) => Some(value_content(v)),
        None => None,
    }
}

/// The keys of a list of members.
pub open spec fn member_keys(members: Seq<(String, serde_json::Value)>) -> Seq<Seq<char>> {
    Seq::new(members.len(), |i: int| members[i].0@)
}

/// The map that a list of members with distinct keys stands for.
pub open spec fn members_map(members: Seq<(String, serde_json::Value)>) -> Map<
    Seq<char>,
    JsonValue,
> {
    Map::new(
        |k: Seq<char>| member_keys(members).contains(k),
        |k: Seq<char>| value_content(members[member_keys(members).index_of(k)].1),
    )
}

/// Trusted: `serde_json::from_str` at type `Value`. Its result is named by
/// `json_parse`; nothing more is claimed.
#[verifier::external_body]
pub(crate) fn parse(text: &str) -> (r: Result<Value, serde_json::Error>)
    ensures
        json_parse(text@) == match r {
            Ok(v) => Some(value_content(v)),
            Err(_) => None,
        },
{
    serde_json::from_str::<Value>(text)
}

/// Trusted: `to_string` of a `serde_json::Error`, its `Display` text.
/// Nothing is claimed of it.
#[verifier::external_body]
pub(crate) fn error_text(e: &serde_json::Error) -> (s: String) {
    e.to_string()
}

/// Trusted: `to_string` of a `Value`, its compact `Display` text, named by
/// `json_text`.
#[verifier::external_body]
pub(crate) fn to_text(v: &Value) -> (s: String)
    ensures
        s@ == json_text(value_content(*v)),
{
    v.to_string()
}

/// Trusted: `Value::clone` gives an equal value.
pub assume_specification[ <serde_json::Value as Clone>::clone ](v: &serde_json::Value) -> (r:
    serde_json::Value)
    ensures
        r == *v,
;

/// Trusted: `Value::get` with a string key looks the key up in an object and
/// gives `None` for any other kind of value.
#[verifier::external_body]
pub(crate) fn get<'a>(v: &'a Value, key: &str) -> (r: Option<&'a Value>)
    ensures
        member(value_content(*v), key@) == match r {
            Some(m) => Some(value_content(*m)),
            None => None,
        },
{
    v.get(key)
}

/// Trusted: `Value::as_array` gives the items of an array and `None` for any
/// other kind of value.
#[verifier::external_body]
pub(crate) fn as_array(v: &Value) -> (r: Option<&Vec<Value>>)
    ensures
        match r {
            Some(items) => value_content(*v) == JsonValue::Array(contents(items@)),
            None => !(value_content(*v) is Array),
        },
{
    v.as_array()
}

/// Trusted: `Value::as_str` gives the text of a string and `None` for any
/// other kind of value.
#[verifier::external_body]
pub(crate) fn as_str(v: &Value) -> (r: Option<&str>)
    ensures
        match r {
            Some(s) => value_content(*v) == JsonValue::Str(s@),
            None => !(value_content(*v) is Str),
        },
{
    v.as_str()
}

/// Trusted: `Value::as_u64` gives an integer that fits `u64`, and `None` for
/// every other number and every other kind of value.
#[verifier::external_body]
pub(crate) fn as_u64(v: &Value) -> (r: Option<u64>)
    ensures
        match r {
            Some(n) => value_content(*v) == JsonValue::Integer(n as int),
            None => !(value_content(*v) matches JsonValue::Integer(n) && 0 <= n <= u64::MAX),
        },
{
    v.as_u64()
}

/// Trusted: `Value::as_i64` gives an integer that fits `i64`, and `None` for
/// every other number and every other kind of value.
#[verifier::external_body]
pub(crate) fn as_i64(v: &Value) -> (r: Option<i64>)
    ensures
        match r {
            Some(n) => value_content(*v) == JsonValue::Integer(n as int),
            None => !(value_content(*v) matches JsonValue::Integer(n) && i64::MIN <= n
                <= i64::MAX),
        },
{
    v.as_i64()
}

/// Trusted: `Value::as_bool` gives a boolean and `None` for any other kind of
/// value.
#[verifier::external_body]
pub(crate) fn as_bool(v: &Value) -> (r: Option<bool>)
    ensures
        match r {
            Some(b) => value_content(*v) == JsonValue::Bool(b),
            None => !(value_content(*v) is Bool),
        },
{
    v.as_bool()
}

/// Trusted: `Value::is_null` tells `null` from every other value.
#[verifier::external_body]
pub(crate) fn is_null(v: &Value) -> (b: bool)
    ensures
        b == (value_content(*v) is Null),
{
    v.is_null()
}

/// Trusted: the keys of an object, from `Value::as_object` and `Map::keys`,
/// each once, in the order the map keeps them; `None` for any other kind of
/// value.
#[verifier::external_body]
pub(crate) fn object_keys(v: &Value) -> (r: Option<Vec<String>>)
    ensures
        match r {
            Some(keys) => {
                &&& value_content(*v) matches JsonValue::Object(m)
                &&& texts(keys@).no_duplicates()
                &&& forall|k: Seq<char>| m.dom().contains(k) <==> texts(keys@).contains(k)
            },
            None => !(value_content(*v) is Object),
        },
{
    v.as_object().map(|m| m.keys().cloned().collect())
}

/// Trusted: the variant `Value::String`.
#[verifier::external_body]
pub(crate) fn string(s: String) -> (v: Value)
    ensures
        value_content(v) == JsonValue::Str(s@),
{
    Value::String(s)
}

/// Trusted: the variant `Value::Bool`.
#[verifier::external_body]
pub(crate) fn boolean(b: bool) -> (v: Value)
    ensures
        value_content(v) == JsonValue::Bool(b),
{
    Value::Bool(b)
}

/// Trusted: `Value::from` a `u64` is that integer.
#[verifier::external_body]
pub(crate) fn unsigned(n: u64) -> (v: Value)
    ensures
        value_content(v) == JsonValue::Integer(n as int),
{
    Value::from(n)
}

/// Trusted: `Value::Object` of a `serde_json::Map` collected from members
/// whose keys are distinct holds exactly those members.
#[verifier::external_body]
pub(crate) fn object(members: Vec<(String, Value)>) -> (v: Value)
    requires
        member_keys(members@).no_duplicates(),
    ensures
        value_content(v) == JsonValue::Object(members_map(members@)),
{
    Value::Object(members.into_iter().collect())
}

/// In the map of a list of members with distinct keys, each key leads to the
/// value listed with it.
pub proof fn lemma_members_map(members: Seq<(String, serde_json::Value)>, i: int)
    requires
        member_keys(members).no_duplicates(),
        0 <= i < members.len(),
    ensures
        members_map(members).dom().contains(members[i].0@),
        members_map(members)[members[i].0@] == value_content(members[i].1),
{
    let keys = member_keys(members);
    assert(keys[i] == members[i].0@);
    assert(keys.contains(members[i].0@));
    let j = keys.index_of(members[i].0@);
    assert(keys[j] == keys[i]);
}

/// The string under a key; `None` where the member is missing or is not a
/// string.
pub open spec fn text_member(v: JsonValue, key: Seq<char>) -> Option<Seq<char>> {
    match member(v, key) {
        Some(JsonValue::Str(s)) => Some(s),
        _ => None,
    }
}

/// The optional string under a key. The outer `None` says that the member is
/// there, is not `null` and is not a string.
pub open spec fn optional_text_member(v: JsonValue, key: Seq<char>) -> Option<Option<Seq<char>>> {
    match present_member(v, key) {
        None => Some(None),
        Some(JsonValue::Str(s)) => Some(Some(s)),
        Some(_) => None,
    }
}

/// The optional `u64` under a key. The outer `None` says that the member is
/// there, is not `null` and is not an integer that fits `u64`.
pub open spec fn optional_u64_member(v: JsonValue, key: Seq<char>) -> Option<Option<u64>> {
    match present_member(v, key) {
        None => Some(None),
        Some(JsonValue::Integer(n)) => if 0 <= n <= u64::MAX {
            Some(Some(n as u64))
        } else {
            None
        },
        Some(_) => None,
    }
}

/// The `i64` under a key; `None` where the member is missing or is not an
/// integer that fits `i64`.
pub open spec fn i64_member(v: JsonValue, key: Seq<char>) -> Option<i64> {
    match member(v, key) {
        Some(JsonValue::Integer(n)) => if i64::MIN <= n <= i64::MAX {
            Some(n as i64)
        } else {
            None
        },
        _ => None,
    }
}

/// Reads the string under a key.
pub fn get_text(v: &Value, key: &str) -> (r: Option<String>)
    ensures
        r.deep_view() == text_member(value_content(*v), key@),
{
    match get(v, key) {
        Some(m) => match as_str(m) {
            Some(s) => Some(s.to_owned()),
            None => None,
        },
        None => None,
    }
}

/// Reads the member under a key, taking `null` for absent.
pub fn get_present<'a>(v: &'a Value, key: &str) -> (r: Option<&'a Value>)
    ensures
        present_member(value_content(*v), key@) == match r {
            Some(m) => Some(value_content(*m)),
            None => None,
        },
{
    match get(v, key) {
        Some(m) => if is_null(m) {
            None
        } else {
            Some(m)
        },
        None => None,
    }
}

/// Reads the optional string under a key.
pub fn get_optional_text(v: &Value, key: &str) -> (r: Option<Option<String>>)
    ensures
        r.deep_view() == optional_text_member(value_content(*v), key@),
{
    match get_present(v, key) {
        Some(m) => match as_str(m) {
            Some(s) => Some(Some(s.to_owned())),
            None => None,
        },
        None => Some(None),
    }
}

/// Reads the optional `u64` under a key.
pub fn get_optional_u64(v: &Value, key: &str) -> (r: Option<Option<u64>>)
    ensures
        r == optional_u64_member(value_content(*v), key@),
{
    match get_present(v, key) {
        Some(m) => match as_u64(m) {
            Some(n) => Some(Some(n)),
            None => None,
        },
        None => Some(None),
    }
}

/// Reads the `i64` under a key.
pub fn get_i64(v: &Value, key: &str) -> (r: Option<i64>)
    ensures
        r == i64_member(value_content(*v), key@),
{
    match get(v, key) {
        Some(m) => as_i64(m),
        None => None,
    }
}

/// The object without members.
pub fn empty_object() -> (v: Value)
    ensures
        value_content(v) == JsonValue::Object(Map::empty()),
{
    let members: Vec<(String, Value)> = Vec::new();
    assert(member_keys(members@) =~= Seq::empty());
    let v = object(members);
    assert(members_map(members@) =~= Map::empty());
    v
}

/// The object with one member.
pub fn object_of_one(key: &str, value: Value) -> (v: Value)
    ensures
        value_content(v) == JsonValue::Object(map![key@ => value_content(value)]),
{
    let mut members: Vec<(String, Value)> = Vec::new();
    members.push((key.to_owned(), value));
    assert(member_keys(members@) =~= seq![key@]);
    let v = object(members);
    proof {
        lemma_members_map(members@, 0);
        assert(members_map(members@) =~= map![key@ => value_content(value)]);
    }
    v
}

/// The object with two members under different keys.
pub fn object_of_two(key_a: &str, a: Value, key_b: &str, b: Value) -> (v: Value)
    requires
        key_a@ != key_b@,
    ensures
        value_content(v) == JsonValue::Object(
            map![key_a@ => value_content(a), key_b@ => value_content(b)],
        ),
{
    let mut members: Vec<(String, Value)> = Vec::new();
    members.push((key_a.to_owned(), a));
    members.push((key_b.to_owned(), b));
    assert(member_keys(members@) =~= seq![key_a@, key_b@]);
    let v = object(members);
    proof {
        lemma_members_map(members@, 0);
        lemma_members_map(members@, 1);
        assert(members_map(members@) =~= map![key_a@ => value_content(a), key_b@ => value_content(b)]);
    }
    v
}

/// The object with three members under different keys.
pub fn object_of_three(
    key_a: &str,
    a: Value,
    key_b: &str,
    b: Value,
    key_c: &str,
    c: Value,
) -> (v: Value)
    requires
        key_a@ != key_b@,
        key_a@ != key_c@,
        key_b@ != key_c@,
    ensures
        value_content(v) == JsonValue::Object(
            map![key_a@ => value_content(a), key_b@ => value_content(b), key_c@ => value_content(c)],
        ),
{
    let mut members: Vec<(String, Value)> = Vec::new();
    members.push((key_a.to_owned(), a));
    members.push((key_b.to_owned(), b));
    members.push((key_c.to_owned(), c));
    assert(member_keys(members@) =~= seq![key_a@, key_b@, key_c@]);
    let v = object(members);
    proof {
        lemma_members_map(members@, 0);
        lemma_members_map(members@, 1);
        lemma_members_map(members@, 2);
        assert(members_map(members@) =~= map![key_a@ => value_content(a), key_b@ => value_content(b), key_c@ => value_content(c)]);
    }
    v
}

} // verus!
