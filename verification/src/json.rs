//! JSON values and their text form, as `serde_json` provides them.

use vstd::prelude::*;

verus! {

/// `serde_json::Value`, carried through this crate without being looked into.
#[verifier::external_type_specification]
#[verifier::external_body]
pub struct ExJsonValue(serde_json::Value);

/// What a JSON value holds, written as compact JSON text: the text that
/// `serde_json::to_string` gives for it. The text rests on the value alone.
pub uninterp spec fn compact_json(value: serde_json::Value) -> Seq<char>;

/// What a JSON value holds, written as indented JSON text: the text that
/// `serde_json::to_string_pretty` gives for it. The text rests on the value
/// alone.
pub uninterp spec fn pretty_json(value: serde_json::Value) -> Seq<char>;

/// Calls `serde_json::to_string` on a JSON value and drops the serializer's
/// error, if any. The text is named by `compact_json`. The serializer is
/// documented to fail where the type's own `Serialize` decides to fail or
/// where a map has keys that are no strings; a JSON value does neither, and
/// writing into memory cannot fail, so a text always comes back.
#[verifier::external_body]
pub(crate) fn compact_text(value: &serde_json::Value) -> (text: Option<String>)
    ensures
        text is Some,
        text matches Some(written) ==> written@ == compact_json(*value),
{
    serde_json::to_string(value).ok()
}

/// Calls `serde_json::to_string_pretty` on a JSON value and drops the
/// serializer's error, if any. The text is named by `pretty_json`. As with
/// the compact form, a text always comes back.
#[verifier::external_body]
pub(crate) fn pretty_text(value: &serde_json::Value) -> (text: Option<String>)
    ensures
        text is Some,
        text matches Some(written) ==> written@ == pretty_json(*value),
{
    serde_json::to_string_pretty(value).ok()
}

} // verus!
