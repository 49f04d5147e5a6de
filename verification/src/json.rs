//! A small model of parsed JSON, just deep enough for the feed protocol.
//!
//! Inbound feed messages are arbitrary JSON text. Parsing is delegated to
//! `serde_json`; the parsed tree is carried over into [`Json`], the
//! library's own shape, on which all envelope decoding is then verified.

use vstd::prelude::*;
use crate::text::str_eq;

verus! {

/// A parsed JSON value, as far as the feed protocol reads it.
///
/// The protocol only ever reads null, booleans, non-negative integers,
/// strings and objects. Every other value (an array, a negative or
/// fractional number) is carried as [`Json::Other`]: its presence is kept,
/// its contents are not, and the decoder treats it as a type mismatch.
pub enum Json {
    Null,
    Bool(bool),
    /// A number that is a non-negative integer.
    UInt(u64),
    Str(String),
    /// An object's fields, in the order the parser hands them out.
    Obj(Vec<(String, Json)>),
    /// Any other JSON value.
    Other,
}

/// What `serde_json` parses the given text into, carried over into
/// [`Json`]; `None` exactly when the text is not well-formed JSON. The
/// result is a function of the text alone.
pub uninterp spec fn json_of(s: Seq<char>) -> Option<Json>;

#[verifier::external_type_specification]
#[verifier::external_body]
pub struct ExValue(serde_json::Value);

/// Relies on `serde_json::Value`: each variant is told apart and carried
/// over one for one; `Number::as_u64` is `Some` exactly on numbers that are
/// non-negative integers. Part of the trusted body of [`parse_json`].
#[verifier::external_body]
fn json_tree(v: &serde_json::Value) -> Json {
    match v {
        serde_json::Value::Null => Json::Null,
        serde_json::Value::Bool(b) => Json::Bool(*b),
        serde_json::Value::Number(n) => n.as_u64().map_or(Json::Other, Json::UInt),
        serde_json::Value::String(s) => Json::Str(s.clone()),
        serde_json::Value::Array(_) => Json::Other,
        serde_json::Value::Object(m) => Json::Obj(
            m.iter().map(|(k, x)| (k.clone(), json_tree(x))).collect(),
        ),
    }
}

/// Relies on `serde_json::from_str::<serde_json::Value>`: it returns `Ok`
/// exactly on well-formed JSON text, and the parsed value is a function of
/// the text alone (the object representation is ordered by key, so the
/// field order handed out is determined by the text as well). `json_of`
/// names the parsed tree carried over into [`Json`] by [`json_tree`].
#[verifier::external_body]
pub fn parse_json(s: &str) -> (r: Option<Json>)
    ensures
        r == json_of(s@),
{
    match serde_json::from_str::<serde_json::Value>(s) {
        Ok(v) => Some(json_tree(&v)),
        Err(_) => None,
    }
}

/// The value of the first field named `key`, if any.
pub open spec fn spec_lookup(fields: Seq<(String, Json)>, key: Seq<char>) -> Option<Json>
    decreases fields.len(),
{
    if fields.len() == 0 {
        None
    } else if fields[0].0@ == key {
        Some(fields[0].1)
    } else {
        spec_lookup(fields.drop_first(), key)
    }
}

/// Looks a field up by name in a parsed object's field list.
pub fn obj_get<'a>(fields: &'a Vec<(String, Json)>, key: &str) -> (r: Option<&'a Json>)
    ensures
        match r {
            Some(j) => spec_lookup(fields@, key@) == Some(*j),
            None => spec_lookup(fields@, key@) is None,
        },
{
    let n = fields.len();
    proof {
        assert(fields@.skip(0) =~= fields@);
    }
    for i in 0..n
        invariant
            n == fields@.len(),
            spec_lookup(fields@, key@) == spec_lookup(fields@.skip(i as int), key@),
    {
        if str_eq(fields[i].0.as_str(), key) {
            return Some(&fields[i].1);
        }
        proof {
            assert(fields@.skip(i as int).drop_first() =~= fields@.skip(i + 1));
        }
    }
    None
}

} // verus!
