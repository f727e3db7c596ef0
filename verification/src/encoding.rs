//! Matches and their JSON text.
//!
//! A match is evidence that a monitor's condition held in a block. Nothing
//! here reads what is inside one: a match arrives as a JSON value and leaves
//! as part of a JSON array.

use vstd::prelude::*;

verus! {

/// A JSON value of `serde_json`, opaque to the verifier.
#[verifier::external_type_specification]
#[verifier::external_body]
pub struct ExJsonValue(serde_json::Value);

/// One match, as the JSON value that stands for it.
pub type MonitorMatch = serde_json::Value;

/// The compact JSON text that `serde_json::to_string` gives for a list of
/// JSON values.
pub uninterp spec fn json_array_text(matches: Seq<serde_json::Value>) -> Seq<char>;

/// Encodes matches as one JSON array, by `serde_json::to_string`.
///
/// Believed, not proved: the result is the text that `serde_json` gives for
/// these values, and the same values always give the same text. The call
/// cannot fail here: `serde_json` reports an error only where a `Serialize`
/// impl chooses to or where a map has a key that is no string, and a JSON
/// value does neither.
#[verifier::external_body]
pub(crate) fn encode_matches(matches: &Vec<MonitorMatch>) -> (text: String)
    ensures
        text@ == json_array_text(matches@),
{
    serde_json::to_string(matches).unwrap()
}

} // verus!
