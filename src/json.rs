//! The JSON values and errors of serde_json, carried through as opaque values,
//! and the calls into serde_json and std that the bridge makes.
use vstd::prelude::*;

verus! {

#[verifier::external_type_specification]
#[verifier::external_body]
pub struct ExJsonValue(serde_json::Value);

#[verifier::external_type_specification]
#[verifier::external_body]
pub struct ExJsonError(serde_json::Error);

/// Whether a text is one JSON document that serde_json accepts as a value.
pub uninterp spec fn is_json_document(s: Seq<char>) -> bool;

/// The text that lossy UTF-8 decoding gives for a byte sequence.
pub uninterp spec fn utf8_lossy(b: Seq<u8>) -> Seq<char>;

/// The `Debug` form of a path.
pub uninterp spec fn path_debug(p: Seq<char>) -> Seq<char>;

/// The value that serde_json parses from a JSON document.
pub uninterp spec fn json_value(s: Seq<char>) -> serde_json::Value;

/// The JSON text that serde_json writes for a value.
pub uninterp spec fn json_text(v: serde_json::Value) -> Seq<char>;

/// The JSON string holding a text.
pub uninterp spec fn json_str(s: Seq<char>) -> serde_json::Value;

/// The JSON string holding a text, or `null` for none.
pub uninterp spec fn json_opt(o: Option<Seq<char>>) -> serde_json::Value;

/// The JSON object with the given entries.
pub uninterp spec fn json_object(entries: Seq<(Seq<char>, serde_json::Value)>) -> serde_json::Value;

/// The texts of the keys of object entries, with their values.
pub open spec fn entry_views(entries: Seq<(String, serde_json::Value)>) -> Seq<(Seq<char>, serde_json::Value)> {
    entries.map_values(|e: (String, serde_json::Value)| (e.0@, e.1))
}

/// Relies on serde_json::from_str into a `Value`: it succeeds exactly on the
/// texts that hold one JSON document, which depends on the text alone.
#[verifier::external_body]
pub(crate) fn parse_json(s: &str) -> (r: Result<serde_json::Value, serde_json::Error>)
    ensures
        r is Ok <==> is_json_document(s@),
        r is Ok ==> r->Ok_0 == json_value(s@),
{
    serde_json::from_str(s)
}

/// Relies on serde_json::to_string to write a value as JSON text; on a
/// `Value` it never fails, as every object key is a string.
#[verifier::external_body]
pub(crate) fn encode_json(v: &serde_json::Value) -> (r: Result<String, serde_json::Error>)
    ensures
        r is Ok,
        r is Ok ==> r->Ok_0@ == json_text(*v),
{
    serde_json::to_string(v)
}

/// Relies on String::from_utf8_lossy: decodes the bytes, putting U+FFFD in
/// place of invalid sequences; the result depends on the bytes alone.
#[verifier::external_body]
pub(crate) fn lossy_text(b: &[u8]) -> (r: String)
    ensures
        r@ == utf8_lossy(b@),
{
    String::from_utf8_lossy(b).into_owned()
}

/// Relies on serde_json's `From<String>` for `Value`: a JSON string.
#[verifier::external_body]
pub(crate) fn string_value(s: String) -> (r: serde_json::Value)
    ensures
        r == json_str(s@),
{
    serde_json::Value::from(s)
}

/// Relies on serde_json's `From<Option<String>>` for `Value`: a JSON string,
/// or `null` for `None`.
#[verifier::external_body]
pub(crate) fn option_value(o: Option<String>) -> (r: serde_json::Value)
    ensures
        r == json_opt(crate::locator::option_view(o)),
{
    serde_json::Value::from(o)
}

/// Relies on serde_json's `Map` built from its entries, wrapped as `Value::Object`.
#[verifier::external_body]
pub(crate) fn object_value(entries: Vec<(String, serde_json::Value)>) -> (r: serde_json::Value)
    ensures
        r == json_object(entry_views(entries@)),
{
    serde_json::Value::Object(entries.into_iter().collect())
}

/// Relies on the `Debug` form of `std::path::Path`: the path in double quotes,
/// with quotes, backslashes and control characters escaped.
#[verifier::external_body]
pub(crate) fn debug_path(p: &str) -> (r: String)
    ensures
        r@ == path_debug(p@),
{
    format!("{:?}", std::path::Path::new(p))
}

} // verus!
