use crate::text::{decimal, text_views};
use vstd::prelude::*;

verus! {

/// The JSON string literal that `serde_json::to_string_pretty` writes for a text:
/// the text between double quotes, with the escapes that JSON asks for.
pub uninterp spec fn json_text(text: Seq<char>) -> Seq<char>;

/// The pretty-printed JSON array that `serde_json::to_string_pretty` writes for a list
/// of texts.
pub uninterp spec fn json_texts(texts: Seq<Seq<char>>) -> Seq<char>;

/// Calls `serde_json::to_string_pretty` on an unsigned number.
///
/// Trusted: the call cannot fail for a number written into memory, and what it writes is
/// the number's decimal numeral.
#[verifier::external_body]
pub(crate) fn pretty_number(value: u64) -> (outcome: Result<String, String>)
    ensures
        match outcome {
            Ok(written) => written@ == decimal(value as nat),
            Err(_) => false,
        },
{
    match serde_json::to_string_pretty(&value) {
        Ok(written) => Ok(written),
        Err(e) => Err(e.to_string()),
    }
}

/// Calls `serde_json::to_string_pretty` on a text.
///
/// Trusted: the call cannot fail for a text written into memory; what it writes is a
/// function of the text alone.
#[verifier::external_body]
pub(crate) fn pretty_text(value: &str) -> (outcome: Result<String, String>)
    ensures
        match outcome {
            Ok(written) => written@ == json_text(value@),
            Err(_) => false,
        },
{
    match serde_json::to_string_pretty(value) {
        Ok(written) => Ok(written),
        Err(e) => Err(e.to_string()),
    }
}

/// Calls `serde_json::to_string_pretty` on a list of texts.
///
/// Trusted: the call cannot fail for texts written into memory; what it writes is a
/// function of the texts alone.
#[verifier::external_body]
pub(crate) fn pretty_texts(values: &Vec<String>) -> (outcome: Result<String, String>)
    ensures
        match outcome {
            Ok(written) => written@ == json_texts(text_views(values@)),
            Err(_) => false,
        },
{
    match serde_json::to_string_pretty(values) {
        Ok(written) => Ok(written),
        Err(e) => Err(e.to_string()),
    }
}

} // verus!
