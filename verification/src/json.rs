//! JSON text, read and written through `serde_json`.

use vstd::prelude::*;

verus! {

/// `serde_json::Value`, carried as it is: nothing inside it is read here.
#[verifier::external_type_specification]
#[verifier::external_body]
pub struct ExJsonValue(serde_json::Value);

/// What `serde_json` makes of reading a text as an optional value: `None`
/// where the text is the JSON form of null, the value where it is the JSON
/// form of another value, and otherwise the failure to read it.
pub uninterp spec fn json_parse(text: Seq<u8>) -> Result<Option<serde_json::Value>, serde_json::Error>;

/// What `serde_json` makes of writing a value as text: the text, or the
/// failure to write it.
pub uninterp spec fn json_text(value: serde_json::Value) -> Result<Seq<u8>, serde_json::Error>;

/// `serde_json::from_slice`, asked for an `Option<serde_json::Value>`. What
/// it returns depends on the text alone, the value as much as a failure, and
/// `json_parse` is the name of it.
#[verifier::external_body]
pub(crate) fn from_slice(text: &[u8]) -> (parsed: Result<
    Option<serde_json::Value>,
    serde_json::Error,
>)
    ensures
        parsed == json_parse(text@),
{
    serde_json::from_slice::<Option<serde_json::Value>>(text)
}

/// `serde_json::to_vec`, on a `serde_json::Value`. What it returns depends
/// on the value alone, the text as much as a failure, and `json_text` is the
/// name of it. Nothing is claimed of which values can be written.
#[verifier::external_body]
pub(crate) fn to_vec(value: &serde_json::Value) -> (written: Result<Vec<u8>, serde_json::Error>)
    ensures
        json_text(*value) == (match written {
            Ok(text) => Ok(text@),
            Err(failure) => Err(failure),
        }),
{
    serde_json::to_vec(value)
}

} // verus!
