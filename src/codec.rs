use vstd::prelude::*;

verus! {

/// The pretty-printed text of the JSON document in `body`, or `None` where
/// `body` is not a JSON document.
pub uninterp spec fn pretty_json_of(body: Seq<u8>) -> Option<Seq<char>>;

/// Relies on serde_json::from_slice, which reads the bytes into a
/// serde_json::Value, and serde_json::to_string_pretty, which writes that
/// value back as indented text. `None` where either fails. Both depend on the
/// bytes alone.
#[verifier::external_body]
fn pretty_json(body: &[u8]) -> (r: Option<String>)
    ensures
        match r {
            Some(t) => pretty_json_of(body@) == Some(t@),
            None => pretty_json_of(body@) is None,
        },
{
    match serde_json::from_slice::<serde_json::Value>(body) {
        Ok(v) => serde_json::to_string_pretty(&v).ok(),
        Err(_) => None,
    }
}

/// Reads a response body as JSON and writes it back in the canonical indented
/// form; `None` where the body is not JSON.
pub fn pretty_body(body: &Vec<u8>) -> (r: Option<String>)
    ensures
        match r {
            Some(t) => pretty_json_of(body@) == Some(t@),
            None => pretty_json_of(body@) is None,
        },
{
    pretty_json(body.as_slice())
}

} // verus!
