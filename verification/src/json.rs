//! The structured rendering: a pretty-printed JSON object, written by
//! `serde_json`.

use vstd::prelude::*;

verus! {

/// The error of `serde_json`. Nothing of what it holds is visible here.
#[verifier::external_type_specification]
#[verifier::external_body]
pub struct ExJsonError(serde_json::Error);

/// What `serde_json::to_string_pretty` gives for the JSON object whose
/// members are `entries`, each a key and a string value, in their order: the
/// text, or `None` where it fails.
///
/// Nothing more is stated of it here: the layout and the escaping are those
/// of `serde_json`, and so is the decision to fail.
pub uninterp spec fn pretty_object(entries: Seq<(Seq<char>, Seq<char>)>) -> Option<Seq<char>>;

/// No key occurs twice among `entries`.
pub open spec fn distinct_keys(entries: Seq<(Seq<char>, Seq<char>)>) -> bool {
    forall|i: int, j: int| 0 <= i < j < entries.len() ==> entries[i].0 != entries[j].0
}

/// Whether `result` is the structured rendering of `entries`: the text that
/// the encoder gives for them, or a failure where it gives none.
pub open spec fn renders(
    entries: Seq<(Seq<char>, Seq<char>)>,
    result: Result<String, SerializationError>,
) -> bool {
    match result {
        Ok(text) => pretty_object(entries) == Some(text@),
        Err(_) => pretty_object(entries) is None,
    }
}

/// Why a structured rendering could not be produced.
#[derive(Debug)]
pub struct SerializationError {
    /// What the encoder said of its failure.
    pub message: String,
}

/// Calls `serde_json::to_string_pretty` on the JSON object made of `entries`.
///
/// Not proved: that what comes back, text or failure, is what
/// [`pretty_object`] names, which is to say that it depends on `entries` alone.
/// The object is a `serde_json::Map` built with the feature `preserve_order`,
/// which keeps its members in the order of insertion; with keys that are all
/// different, each entry makes one member. That the call succeeds is not
/// claimed.
#[verifier::external_body]
pub(crate) fn encode_pretty(entries: &Vec<(&str, &str)>) -> (outcome: Result<
    String,
    serde_json::Error,
>)
    requires
        distinct_keys(entries.deep_view()),
    ensures
        match outcome {
            Ok(text) => pretty_object(entries.deep_view()) == Some(text@),
            Err(_) => pretty_object(entries.deep_view()) is None,
        },
{
    let mut object = serde_json::Map::new();
    for entry in entries.iter() {
        object.insert(entry.0.to_string(), serde_json::Value::String(entry.1.to_string()));
    }
    serde_json::to_string_pretty(&serde_json::Value::Object(object))
}

/// Calls the `Display` of `serde_json::Error`, through `to_string`.
///
/// Nothing is claimed of the message.
#[verifier::external_body]
fn describe(error: &serde_json::Error) -> (message: String) {
    error.to_string()
}

/// What the library returns for each outcome of the encoder: the text as it
/// is, or the failure with the encoder's message.
pub fn surface(outcome: Result<String, serde_json::Error>) -> (result: Result<
    String,
    SerializationError,
>)
    ensures
        match outcome {
            Ok(text) => result == Ok::<String, SerializationError>(text),
            Err(_) => result is Err,
        },
{
    match outcome {
        Ok(text) => Ok(text),
        Err(error) => Err(SerializationError { message: describe(&error) }),
    }
}

} // verus!
