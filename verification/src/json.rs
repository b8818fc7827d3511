//! Lists of texts as JSON arrays of strings, written and read by `serde_json`.
//!
//! Nothing here is proved: the two functions call `serde_json`, and their
//! contracts give its results a name.

use crate::text::texts;
use vstd::prelude::*;

verus! {

#[verifier::external_type_specification]
#[verifier::external_body]
pub struct ExJsonError(serde_json::Error);

/// The JSON text that `serde_json::to_string` gives for a list of texts, or
/// `None` where it fails.
pub uninterp spec fn encoded(entries: Seq<Seq<char>>) -> Option<Seq<char>>;

/// The list of texts that `serde_json::from_str` reads from a JSON text, or
/// `None` where it refuses the text: whatever is not one JSON array of
/// strings.
pub uninterp spec fn decoded(text: Seq<char>) -> Option<Seq<Seq<char>>>;

/// Calls `serde_json::to_string` on a vector of strings.
///
/// Believed, not proved: the result depends on the entries alone, and what was
/// written is read back by `serde_json::from_str` as the same entries in the
/// same order. `serde_json` writes a vector as a JSON array and a string as a
/// JSON string, with the escapes that its reader undoes.
#[verifier::external_body]
pub(crate) fn encode(entries: &Vec<String>) -> (result: Result<String, serde_json::Error>)
    ensures
        match result {
            Ok(text) => encoded(texts(entries@)) == Some(text@) && decoded(text@) == Some(
                texts(entries@),
            ),
            Err(_) => encoded(texts(entries@)) is None,
        },
{
    serde_json::to_string(entries)
}

/// Calls `serde_json::from_str` for a vector of strings.
///
/// Believed, not proved: the result, and whether there is one, depends on the
/// text alone.
#[verifier::external_body]
pub(crate) fn decode(text: &str) -> (result: Result<Vec<String>, serde_json::Error>)
    ensures
        match result {
            Ok(entries) => decoded(text@) == Some(texts(entries@)),
            Err(_) => decoded(text@) is None,
        },
{
    serde_json::from_str::<Vec<String>>(text)
}

} // verus!
