//! The JSON edge of the service: reading request bodies and encoding
//! strings, both through serde_json behind trusted wrappers.

use vstd::prelude::*;

verus! {

/// The JSON string literal (opening quote, escaped characters, closing
/// quote) that serde_json produces for the given characters.
pub uninterp spec fn json_string(s: Seq<char>) -> Seq<char>;

/// What parsing a credentials body yields: the `username` and `password`
/// string fields of the JSON object, in that order, or nothing when the
/// body is not a JSON object carrying both as strings.
pub uninterp spec fn parsed_credentials(s: Seq<char>) -> Option<(Seq<char>, Seq<char>)>;

/// What parsing a post body yields: the `message` string field of the JSON
/// object, or nothing when the body is not a JSON object carrying it as a
/// string.
pub uninterp spec fn parsed_message(s: Seq<char>) -> Option<Seq<char>>;

/// Relies on serde_json::to_string on a string slice: the result is the
/// JSON string literal for those characters and depends on them alone.
/// Serializing a string into an in-memory buffer cannot fail, so the
/// unwrap cannot panic.
#[verifier::external_body]
pub(crate) fn json_string_exec(s: &str) -> (r: String)
    ensures
        r@ == json_string(s@),
{
    serde_json::to_string(s).unwrap()
}

/// Relies on serde_json::from_str and Value::{get, as_str}: the outcome
/// depends on the body text alone, and is the two string fields exactly
/// when the body is a JSON object holding both.
#[verifier::external_body]
pub(crate) fn parse_credentials(s: &str) -> (r: Option<(String, String)>)
    ensures
        match r {
            Some(c) => parsed_credentials(s@) == Some((c.0@, c.1@)),
            None => parsed_credentials(s@) is None,
        },
{
    let v: serde_json::Value = match serde_json::from_str(s) {
        Ok(v) => v,
        Err(_) => return None,
    };
    let u = match v.get("username").and_then(|f| f.as_str()) {
        Some(u) => u.to_owned(),
        None => return None,
    };
    let p = match v.get("password").and_then(|f| f.as_str()) {
        Some(p) => p.to_owned(),
        None => return None,
    };
    Some((u, p))
}

/// Relies on serde_json::from_str and Value::{get, as_str}: the outcome
/// depends on the body text alone, and is the `message` field exactly when
/// the body is a JSON object holding it as a string.
#[verifier::external_body]
pub(crate) fn parse_message(s: &str) -> (r: Option<String>)
    ensures
        match r {
            Some(m) => parsed_message(s@) == Some(m@),
            None => parsed_message(s@) is None,
        },
{
    let v: serde_json::Value = match serde_json::from_str(s) {
        Ok(v) => v,
        Err(_) => return None,
    };
    match v.get("message").and_then(|f| f.as_str()) {
        Some(m) => Some(m.to_owned()),
        None => None,
    }
}

} // verus!
