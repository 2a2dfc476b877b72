//! JSON values, which this crate carries and never looks into.

use vstd::prelude::*;

verus! {

#[verifier::external_type_specification]
#[verifier::external_body]
pub struct ExValue(serde_json::Value);

/// The value that a text denotes as JSON, where it denotes one.
pub uninterp spec fn json_value_of(text: Seq<char>) -> Option<serde_json::Value>;

/// The compact JSON text of a value.
pub uninterp spec fn json_text_of(value: serde_json::Value) -> Seq<char>;

/// `serde_json::from_str`, read as a `Value`, with its error dropped. The
/// claim is that the outcome depends on the text alone: the value that the
/// text denotes, or nothing where the text is no JSON document.
#[verifier::external_body]
pub(crate) fn json_from_str(text: &str) -> (value: Option<serde_json::Value>)
    ensures
        value == json_value_of(text@),
{
    serde_json::from_str(text).ok()
}

/// `serde_json::to_string` on a `Value`. The claim is that the text depends
/// on the value alone. The call fails only for a map whose keys are no
/// strings or a value that refuses to be written, and a `Value` is neither;
/// so the error's arm, which would give an empty text, is never taken.
#[verifier::external_body]
pub(crate) fn json_to_string(value: &serde_json::Value) -> (text: String)
    ensures
        text@ == json_text_of(*value),
{
    serde_json::to_string(value).unwrap_or_default()
}

} // verus!
