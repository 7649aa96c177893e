//! The JSON decoding and encoding that the resolver hands to serde_json.
use vstd::prelude::*;

verus! {

/// The members of the JSON object that a byte string encodes, in serde_json's
/// order, each value written back as compact JSON; `None` when the bytes are
/// not a JSON object.
pub uninterp spec fn json_object(b: Seq<u8>) -> Option<Seq<(Seq<char>, Seq<u8>)>>;

/// The string that a byte string encodes as a JSON string value.
pub uninterp spec fn json_text(b: Seq<u8>) -> Option<Seq<char>>;

/// The decimal text of the JSON number that a byte string encodes.
pub uninterp spec fn json_number(b: Seq<u8>) -> Option<Seq<char>>;

/// A string written as a JSON string literal, quotes and escapes included.
pub uninterp spec fn json_quoted(s: Seq<char>) -> Seq<char>;

pub open spec fn members_view(v: Seq<(String, Vec<u8>)>) -> Seq<(Seq<char>, Seq<u8>)> {
    v.map_values(|p: (String, Vec<u8>)| (p.0@, p.1@))
}

/// Relies on serde_json::from_slice into a serde_json::Map (an object, or an
/// error), and on serde_json::to_vec to write each member's value back.
#[verifier::external_body]
pub(crate) fn decode_object(b: &[u8]) -> (r: Option<Vec<(String, Vec<u8>)>>)
    ensures
        match r {
            Some(v) => json_object(b@) == Some(members_view(v@)),
            None => json_object(b@) is None,
        },
{
    let m: serde_json::Map<String, serde_json::Value> = serde_json::from_slice(b).ok()?;
    Some(m.into_iter().map(|(k, v)| (k, serde_json::to_vec(&v).unwrap_or_default())).collect())
}

/// Relies on serde_json::from_slice into a String: the decoded JSON string.
#[verifier::external_body]
pub(crate) fn decode_text(b: &[u8]) -> (r: Option<String>)
    ensures
        match r {
            Some(s) => json_text(b@) == Some(s@),
            None => json_text(b@) is None,
        },
{
    serde_json::from_slice::<String>(b).ok()
}

/// Relies on serde_json::from_slice into a serde_json::Number, written back
/// with its Display impl.
#[verifier::external_body]
pub(crate) fn decode_number(b: &[u8]) -> (r: Option<String>)
    ensures
        match r {
            Some(s) => json_number(b@) == Some(s@),
            None => json_number(b@) is None,
        },
{
    serde_json::from_slice::<serde_json::Number>(b).ok().map(|n| n.to_string())
}

/// Relies on serde_json::to_string on a str: the string as a JSON literal.
#[verifier::external_body]
pub(crate) fn quote(s: &str) -> (r: String)
    ensures
        r@ == json_quoted(s@),
{
    serde_json::to_string(s).unwrap_or_default()
}

/// Relies on uuid::Uuid::new_v4 and its hyphenated text form, which is
/// 36 characters long.
#[verifier::external_body]
pub(crate) fn new_collation_id() -> (r: String)
    ensures
        r@.len() == 36,
{
    uuid::Uuid::new_v4().to_string()
}

} // verus!
