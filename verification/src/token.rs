//! Extraction of the download token from the first upstream response.
//! The response body is JSON; the token is the string field named
//! `token`.  Parsing is done by an outside JSON library, so the value it
//! yields for a given body is only named here, not restated.

use vstd::prelude::*;

verus! {

/// The string value of the `token` field of `s` read as a JSON object,
/// or nothing when `s` is not a JSON object with a string field of that
/// name.
pub uninterp spec fn json_token_of(s: Seq<char>) -> Option<Seq<char>>;

/// Relies on serde_json::from_str, serde_json::Value::get and
/// serde_json::Value::as_str: reading a string field out of a JSON text
/// is a function of that text alone.
#[verifier::external_body]
pub(crate) fn extract_token(body: &str) -> (r: Option<String>)
    ensures
        r is Some <==> json_token_of(body@) is Some,
        r matches Some(t) ==> json_token_of(body@) matches Some(sp) && t@ == sp,
{
    let value: serde_json::Value = match serde_json::from_str(body) {
        Ok(v) => v,
        Err(_) => return None,
    };
    value.get("token").and_then(|f| f.as_str()).map(|t| t.to_string())
}

} // verus!
