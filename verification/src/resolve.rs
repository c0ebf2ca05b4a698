//! Resolving the gateway endpoint: the bootstrap REST call returns a JSON
//! body whose `url` string field names the connection endpoint. The HTTP
//! exchange lives outside; this module decides what the body means.
use vstd::prelude::*;

use crate::DiscordErr;

verus! {

/// The `url` string field of the JSON object a body holds, when the body
/// parses as an object with a string there: a name for what the JSON
/// library reads, which depends on the text alone.
pub uninterp spec fn url_field_of(body: Seq<char>) -> Option<Seq<char>>;

/// Relies on `serde_json::from_str` and `Value::get`: parsing is
/// deterministic in the input text, and the call yields the `url` string
/// field of the top-level object exactly when the body is valid JSON whose
/// top-level object carries a string under that key.
#[verifier::external_body]
fn extract_url(body: &str) -> (r: Option<String>)
    ensures
        match r {
            Some(u) => url_field_of(body@) == Some(u@),
            None => url_field_of(body@) is None,
        },
{
    let value: serde_json::Value = match serde_json::from_str(body) {
        Ok(v) => v,
        Err(_) => {
            return None;
        },
    };
    match value.get("url") {
        Some(serde_json::Value::String(url)) => Some(url.clone()),
        _ => None,
    }
}

/// The gateway URL named in a bootstrap response body. Any body without a
/// `url` string field — non-JSON text included — is a resolution failure.
pub fn resolve_url(body: &str) -> (r: Result<String, DiscordErr>)
    ensures
        match r {
            Ok(u) => url_field_of(body@) == Some(u@),
            Err(_) => url_field_of(body@) is None,
        },
{
    match extract_url(body) {
        Some(u) => Ok(u),
        None => Err(DiscordErr),
    }
}

} // verus!
