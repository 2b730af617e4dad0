//! Text encodings that other crates compute for the gateway.
//!
//! Each function here calls into `chrono`, `serde_yaml` or `serde_json` and
//! does nothing else. Verus does not read their bodies: what their contracts
//! say is taken from the documentation and source of those crates.

use vstd::prelude::*;

verus! {

/// The text that `chrono` writes, in RFC 3339 form, for the instant `seconds`
/// whole seconds and `nanos` nanoseconds after the Unix epoch, in UTC.
pub uninterp spec fn rfc3339_text(seconds: int, nanos: int) -> Seq<char>;

/// First second of the year 0000, counted from the Unix epoch.
pub const MIN_SECONDS: i64 = -62_167_219_200;

/// Last second of the year 9999, counted from the Unix epoch.
pub const MAX_SECONDS: i64 = 253_402_300_799;

/// The instants that RFC 3339 can write: those of the years 0000 to 9999.
/// A nanosecond count of a thousand million or more stands for a leap second,
/// which can only follow the last second of a minute.
pub open spec fn rfc3339_writable(seconds: int, nanos: int) -> bool {
    &&& MIN_SECONDS <= seconds <= MAX_SECONDS
    &&& 0 <= nanos < 2_000_000_000
    &&& (nanos >= 1_000_000_000 ==> seconds % 60 == 59)
}

/// Calls `chrono::DateTime::from_timestamp`, and on the instant it returns
/// `chrono::DateTime::to_rfc3339`.
///
/// Claimed of them: `from_timestamp` accepts every instant of the years 0000
/// to 9999 whose nanoseconds are in range (it rejects only days outside
/// chrono's own, much wider, range of years and a leap second that does not
/// follow second 59); `to_rfc3339` depends on the instant alone, since the
/// offset is fixed to UTC, and never fails.
#[verifier::external_body]
pub(crate) fn format_rfc3339(seconds: i64, nanos: u32) -> (text: Option<String>)
    ensures
        rfc3339_writable(seconds as int, nanos as int) ==> text is Some,
        text matches Some(t) ==> t@ == rfc3339_text(seconds as int, nanos as int),
{
    match chrono::DateTime::from_timestamp(seconds, nanos) {
        Some(instant) => Some(instant.to_rfc3339()),
        None => None,
    }
}

/// The JSON text of the document that `text` holds when read as YAML, the
/// structured-text format that also covers JSON; `None` where `text` is no
/// such document.
pub uninterp spec fn yaml_as_json(text: Seq<char>) -> Option<Seq<char>>;

/// What an optional string holds, as a sequence of characters.
pub open spec fn text_of(text: Option<String>) -> Option<Seq<char>> {
    match text {
        Some(t) => Some(t@),
        None => None,
    }
}

/// Calls `serde_yaml::from_str` to read `text` as a `serde_json::Value`, and
/// `serde_json::to_string` to write the value that was read as compact JSON.
///
/// Claimed of them: both depend on their argument alone, and neither panics.
/// A text that `serde_yaml` rejects gives `None`; so would a value that
/// `serde_json` could not write.
#[verifier::external_body]
pub(crate) fn parse_yaml_as_json(text: &str) -> (json: Option<String>)
    ensures
        text_of(json) == yaml_as_json(text@),
{
    match serde_yaml::from_str::<serde_json::Value>(text) {
        Ok(document) => serde_json::to_string(&document).ok(),
        Err(_) => None,
    }
}

/// The string that the JSON text `document` holds under `key`: `None` unless
/// `document` is a JSON object with a member `key` whose value is a string.
pub uninterp spec fn json_string_member(document: Seq<char>, key: Seq<char>) -> Option<Seq<char>>;

/// Calls `serde_json::from_str` to read `document` as a `serde_json::Value`,
/// and `serde_json::Value::get` to look `key` up in it.
///
/// Claimed of them: both depend on their arguments alone, and neither panics;
/// `get` with a string finds nothing in a value that is no object. A text that
/// `serde_json` rejects, a missing member and a member that is no string all
/// give `None`.
#[verifier::external_body]
pub(crate) fn read_json_string_member(document: &str, key: &str) -> (member: Option<String>)
    ensures
        text_of(member) == json_string_member(document@, key@),
{
    match serde_json::from_str::<serde_json::Value>(document) {
        Ok(value) => match value.get(key) {
            Some(serde_json::Value::String(text)) => Some(text.clone()),
            _ => None,
        },
        Err(_) => None,
    }
}

} // verus!
