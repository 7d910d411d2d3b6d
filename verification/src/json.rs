//! JSON documents as plain values, read from the bytes that package
//! registries answer with.

use vstd::prelude::*;
use crate::text::str_eq;

verus! {

/// A JSON value. Numbers keep their text; an object keeps its members in
/// the order the parser gives them.
#[derive(Debug)]
pub enum Json {
    Null,
    Bool(bool),
    Number(String),
    Str(String),
    Array(Vec<Json>),
    /// Member names and values, position for position.
    Object(Vec<String>, Vec<Json>),
}

#[verifier::external_type_specification]
#[verifier::external_body]
pub struct ExJsonValue(serde_json::Value);

/// What `serde_json::from_slice` reads from `bytes`, as a `Json`; `None`
/// when they are not a JSON document.
pub uninterp spec fn parsed_json(bytes: Seq<u8>) -> Option<Json>;

/// Parses JSON text with `serde_json::from_slice` into a
/// `serde_json::Value`, then converts it member for member; `None` when
/// the parser reports an error. The result is named `parsed_json(bytes@)`:
/// nothing more about it is claimed.
#[verifier::external_body]
pub(crate) fn parse_json(bytes: &[u8]) -> (r: Option<Json>)
    ensures
        r == parsed_json(bytes@),
{
    serde_json::from_slice::<serde_json::Value>(bytes).ok().map(json_of_value)
}

/// Converts a `serde_json::Value` to a `Json`, variant for variant (a
/// number becomes its `to_string` text).
#[verifier::external_body]
fn json_of_value(v: serde_json::Value) -> Json {
    match v {
        serde_json::Value::Null => Json::Null,
        serde_json::Value::Bool(b) => Json::Bool(b),
        serde_json::Value::Number(n) => Json::Number(n.to_string()),
        serde_json::Value::String(s) => Json::Str(s),
        serde_json::Value::Array(a) => Json::Array(a.into_iter().map(json_of_value).collect()),
        serde_json::Value::Object(o) => {
            let (keys, values): (Vec<String>, Vec<serde_json::Value>) = o.into_iter().unzip();
            Json::Object(keys, values.into_iter().map(json_of_value).collect())
        },
    }
}

/// The value of the first member named `key`.
pub open spec fn member(keys: Seq<String>, values: Seq<Json>, key: Seq<char>) -> Option<Json>
    decreases keys.len(),
{
    if keys.len() == 0 || values.len() == 0 {
        None
    } else if keys[0]@ == key {
        Some(values[0])
    } else {
        member(keys.drop_first(), values.drop_first(), key)
    }
}

/// `j[key]`: the member of an object, `None` for anything else or a
/// missing member (where `serde_json` indexing gives `null`).
pub open spec fn json_get(j: Option<Json>, key: Seq<char>) -> Option<Json> {
    match j {
        Some(Json::Object(keys, values)) => member(keys@, values@, key),
        _ => None,
    }
}

/// `j.as_str()`.
pub open spec fn json_str(j: Option<Json>) -> Option<Seq<char>> {
    match j {
        Some(Json::Str(s)) => Some(s@),
        _ => None,
    }
}

/// An optional reference as an optional value.
pub open spec fn opt_json(j: Option<&Json>) -> Option<Json> {
    match j {
        Some(x) => Some(*x),
        None => None,
    }
}

fn member_of<'a>(keys: &'a Vec<String>, values: &'a Vec<Json>, key: &str) -> (r: Option<&'a Json>)
    ensures
        opt_json(r) == member(keys@, values@, key@),
{
    let mut i: usize = 0;
    assert(keys@.skip(0) =~= keys@ && values@.skip(0) =~= values@);
    while i < keys.len() && i < values.len()
        invariant
            i <= keys@.len(),
            i <= values@.len(),
            member(keys@, values@, key@) == member(keys@.skip(i as int), values@.skip(i as int), key@),
        decreases keys@.len() - i,
    {
        proof {
            assert(keys@.skip(i as int).drop_first() =~= keys@.skip(i + 1));
            assert(values@.skip(i as int).drop_first() =~= values@.skip(i + 1));
            assert(keys@.skip(i as int)[0] == keys@[i as int]);
            assert(values@.skip(i as int)[0] == values@[i as int]);
        }
        if str_eq(keys[i].as_str(), key) {
            return Some(&values[i]);
        }
        i += 1;
    }
    None
}

/// The member `key` of an object (see `json_get`).
pub fn get<'a>(j: Option<&'a Json>, key: &str) -> (r: Option<&'a Json>)
    ensures
        opt_json(r) == json_get(opt_json(j), key@),
{
    match j {
        Some(Json::Object(keys, values)) => member_of(keys, values, key),
        _ => None,
    }
}

/// `j.as_str()` (see `json_str`).
pub fn as_text<'a>(j: Option<&'a Json>) -> (r: Option<&'a String>)
    ensures
        match r {
            Some(s) => json_str(opt_json(j)) == Some(s@),
            None => json_str(opt_json(j)) is None,
        },
{
    match j {
        Some(Json::Str(s)) => Some(s),
        _ => None,
    }
}

} // verus!
