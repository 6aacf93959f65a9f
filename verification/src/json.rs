//! JSON documents.
//!
//! Documents are `serde_json::Value`s: they are parsed, rendered, read and
//! built by `serde_json`. Verus cannot look inside a `Value`, so this module
//! gives every document a mathematical model, [`Json`], and states for each
//! call into `serde_json` what it does in terms of that model. Those
//! statements are trusted, not proved; everything else in the crate is proved
//! from them.

use serde_json::Value;
use vstd::prelude::*;

verus! {

/// `serde_json::Value`, a JSON document. Nothing of its inside is known to
/// the proofs but what the items below state.
#[verifier::external_type_specification]
#[verifier::external_body]
pub struct ExValue(serde_json::Value);

/// `serde_json::Error`, what the crate reports when it cannot read or write
/// a document. Nothing of its inside is known to the proofs.
#[verifier::external_type_specification]
#[verifier::external_body]
pub struct ExJsonError(serde_json::Error);

/// The mathematical content of a JSON document.
pub enum Json {
    Null,
    Bool(bool),
    /// A number. `integer` is the number itself when it was written without
    /// fraction or exponent and lies between `i64::MIN` and `u64::MAX`, and is
    /// absent otherwise. `bits` is the number as a double, in the 64 bits of
    /// its IEEE 754 form.
    Number { integer: Option<int>, bits: u64 },
    Text(Seq<char>),
    List(Seq<Json>),
    Object(Map<Seq<char>, Json>),
}

impl Json {
    /// The member stored under `key`, if this is an object that has one.
    pub open spec fn get(self, key: Seq<char>) -> Option<Json> {
        match self {
            Json::Object(members) => if members.contains_key(key) {
                Some(members[key])
            } else {
                None
            },
            _ => None,
        }
    }

    /// The first of the members stored under `key` and `alias` that exists.
    pub open spec fn get_either(self, key: Seq<char>, alias: Seq<char>) -> Option<Json> {
        match self.get(key) {
            Some(member) => Some(member),
            None => self.get(alias),
        }
    }

    /// Whether this is an object with a member under `key`.
    pub open spec fn has(self, key: Seq<char>) -> bool {
        self.get(key) is Some
    }

    /// The number as an `i64`, if this is an integer that fits.
    pub open spec fn as_i64(self) -> Option<i64> {
        match self {
            Json::Number { integer: Some(n), .. } => if i64::MIN <= n <= i64::MAX {
                Some(n as i64)
            } else {
                None
            },
            _ => None,
        }
    }

    /// The number as a `u64`, if this is an integer that fits.
    pub open spec fn as_u64(self) -> Option<u64> {
        match self {
            Json::Number { integer: Some(n), .. } => if 0 <= n <= u64::MAX {
                Some(n as u64)
            } else {
                None
            },
            _ => None,
        }
    }

    /// The text, if this is a string.
    pub open spec fn as_text(self) -> Option<Seq<char>> {
        match self {
            Json::Text(text) => Some(text),
            _ => None,
        }
    }

    /// Any number as a double, in the bits of the double.
    pub open spec fn as_bits(self) -> Option<u64> {
        match self {
            Json::Number { bits, .. } => Some(bits),
            _ => None,
        }
    }

    /// Whether this is the integer number `n`.
    pub open spec fn is_integer(self, n: int) -> bool {
        self matches Json::Number { integer: Some(i), .. } && i == n
    }
}

/// What a document holds.
pub uninterp spec fn json_model(value: Value) -> Json;

/// The compact text that `serde_json` renders a document to; nothing for a
/// document that it does not render.
pub uninterp spec fn json_text(value: Value) -> Option<Seq<char>>;

/// What `serde_json` reads from a text: the document's content, or nothing
/// where the text is not one JSON document.
pub uninterp spec fn json_parsed(text: Seq<char>) -> Option<Json>;

/// `Value::get` with a string key: the member under `key` when the document is
/// an object that has it, nothing for a missing key and for every document
/// that is not an object.
#[verifier::external_body]
pub(crate) fn member<'a>(value: &'a Value, key: &str) -> (found: Option<&'a Value>)
    ensures
        match found {
            Some(inner) => json_model(*value).get(key@) == Some(json_model(*inner)),
            None => json_model(*value).get(key@) is None,
        },
{
    value.get(key)
}

/// `Value::as_i64`: an integer number that fits in `i64`; nothing for a larger
/// one, for a number with a fraction and for every other kind of document.
pub assume_specification[ Value::as_i64 ](value: &Value) -> (n: Option<i64>)
    ensures
        n == json_model(*value).as_i64(),
;

/// `Value::as_u64`: a non-negative integer number; nothing for a negative one,
/// for a number with a fraction and for every other kind of document.
pub assume_specification[ Value::as_u64 ](value: &Value) -> (n: Option<u64>)
    ensures
        n == json_model(*value).as_u64(),
;

/// `Value::as_str`: the text of a string document, nothing for any other.
pub assume_specification<'a>[ Value::as_str ](value: &'a Value) -> (found: Option<&'a str>)
    ensures
        match found {
            Some(t) => json_model(*value).as_text() == Some(t@),
            None => json_model(*value).as_text() is None,
        },
;

/// `Value::as_f64`, and `to_bits` of what it gives: every number as a double,
/// in the bits of the double; nothing for every other kind of document.
#[verifier::external_body]
pub(crate) fn double_bits(value: &Value) -> (bits: Option<u64>)
    ensures
        bits == json_model(*value).as_bits(),
{
    value.as_f64().map(|number| number.to_bits())
}

/// `serde_json::from_str` for a `Value`: the document that the text holds, or
/// the crate's error where it holds none.
#[verifier::external_body]
pub(crate) fn parse(text: &str) -> (outcome: Result<Value, serde_json::Error>)
    ensures
        match outcome {
            Ok(value) => json_parsed(text@) == Some(json_model(value)),
            Err(_) => json_parsed(text@) is None,
        },
{
    serde_json::from_str(text)
}

/// `serde_json::to_string` for a `Value`: the document's compact text, or the
/// crate's error where it renders none. Which of the two it is, and which
/// text, depends on the document alone; neither is stated here but named.
#[verifier::external_body]
pub(crate) fn render(value: &Value) -> (outcome: Result<String, serde_json::Error>)
    ensures
        match outcome {
            Ok(text) => json_text(*value) == Some(text@),
            Err(_) => json_text(*value) is None,
        },
{
    serde_json::to_string(value)
}

/// The message of a `serde_json::Error`, as its `Display` impl writes it.
#[verifier::external_body]
pub(crate) fn error_text(error: &serde_json::Error) -> (text: String) {
    error.to_string()
}

/// `Value::Null`.
#[verifier::external_body]
pub(crate) fn null() -> (value: Value)
    ensures
        json_model(value) == Json::Null,
{
    Value::Null
}

/// `Value::Bool`.
#[verifier::external_body]
pub(crate) fn boolean(flag: bool) -> (value: Value)
    ensures
        json_model(value) == Json::Bool(flag),
{
    Value::Bool(flag)
}

/// `Value::from` for a `u64`: the integer number `n`.
#[verifier::external_body]
pub(crate) fn unsigned(n: u64) -> (value: Value)
    ensures
        json_model(value).is_integer(n as int),
{
    Value::from(n)
}

/// `Value::from` for a string slice: a string document with that text.
#[verifier::external_body]
pub(crate) fn text(content: &str) -> (value: Value)
    ensures
        json_model(value) == Json::Text(content@),
{
    Value::from(content)
}

/// `Value::Array` around the given documents, in their order.
#[verifier::external_body]
pub(crate) fn list(items: Vec<Value>) -> (value: Value)
    ensures
        json_model(value) == Json::List(items@.map_values(|item: Value| json_model(item))),
{
    Value::Array(items)
}

/// `Value::Object` around an empty `serde_json::Map`.
#[verifier::external_body]
pub(crate) fn object() -> (value: Value)
    ensures
        json_model(value) == Json::Object(Map::empty()),
{
    Value::Object(serde_json::Map::new())
}

/// `serde_json::Map::insert` on the map of an object: the object with `member`
/// under `key`, whatever it had there before. A document that is not an object
/// comes back as it was.
#[verifier::external_body]
pub(crate) fn with_member(target: Value, key: &str, member: Value) -> (value: Value)
    ensures
        json_model(value) == match json_model(target) {
            Json::Object(members) => Json::Object(members.insert(key@, json_model(member))),
            other => other,
        },
{
    let mut target = target;
    if let Value::Object(members) = &mut target {
        members.insert(key.to_string(), member);
    }
    target
}

} // verus!
