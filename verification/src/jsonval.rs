//! Trusted fixed-path JSON readers over serde_json. Each reader answers one
//! question about a JSON text (is it JSON at all; the string at a fixed
//! path), and its result is pinned to an uninterpreted name of the text, so
//! that callers' contracts can say exactly which value was selected. All
//! selection logic on the values read out is verified code.

use vstd::prelude::*;

verus! {

/// Whether the text parses as JSON at all.
pub uninterp spec fn json_is_valid(raw: Seq<char>) -> bool;

/// The string at `error.message`, when the text is a JSON object whose
/// `error` member is an object with a string `message`.
pub uninterp spec fn json_error_message_of(raw: Seq<char>) -> Option<Seq<char>>;

/// The `error` member itself, when it is a string.
pub uninterp spec fn json_error_string_of(raw: Seq<char>) -> Option<Seq<char>>;

/// The top-level `message` member, when it is a string.
pub uninterp spec fn json_message_of(raw: Seq<char>) -> Option<Seq<char>>;

/// The top-level `text` member, when it is a string.
pub uninterp spec fn json_text_of(raw: Seq<char>) -> Option<Seq<char>>;

/// Relies on serde_json::from_str::<serde_json::Value>: whether the text is
/// JSON; the answer depends on the text alone.
#[verifier::external_body]
pub(crate) fn json_text_is_valid(raw: &str) -> (r: bool)
    ensures
        r == json_is_valid(raw@),
{
    serde_json::from_str::<serde_json::Value>(raw).is_ok()
}

/// Relies on serde_json's from_str, Value::get and Value::as_str: the string
/// at `error.message`, a function of the text alone.
#[verifier::external_body]
pub(crate) fn read_error_message(raw: &str) -> (r: Option<String>)
    ensures
        match r {
            Option::Some(m) => json_error_message_of(raw@) == Option::Some(m@),
            Option::None => json_error_message_of(raw@) is None,
        },
{
    let parsed: serde_json::Value = serde_json::from_str(raw).ok()?;
    Some(parsed.get("error")?.get("message")?.as_str()?.to_string())
}

/// Relies on serde_json's from_str, Value::get and Value::as_str: the
/// `error` member when it is a string, a function of the text alone.
#[verifier::external_body]
pub(crate) fn read_error_string(raw: &str) -> (r: Option<String>)
    ensures
        match r {
            Option::Some(m) => json_error_string_of(raw@) == Option::Some(m@),
            Option::None => json_error_string_of(raw@) is None,
        },
{
    let parsed: serde_json::Value = serde_json::from_str(raw).ok()?;
    Some(parsed.get("error")?.as_str()?.to_string())
}

/// Relies on serde_json's from_str, Value::get and Value::as_str: the
/// top-level `message` string, a function of the text alone.
#[verifier::external_body]
pub(crate) fn read_message(raw: &str) -> (r: Option<String>)
    ensures
        match r {
            Option::Some(m) => json_message_of(raw@) == Option::Some(m@),
            Option::None => json_message_of(raw@) is None,
        },
{
    let parsed: serde_json::Value = serde_json::from_str(raw).ok()?;
    Some(parsed.get("message")?.as_str()?.to_string())
}

/// Relies on serde_json's from_str, Value::get and Value::as_str: the
/// top-level `text` string, a function of the text alone.
#[verifier::external_body]
pub(crate) fn read_text_member(raw: &str) -> (r: Option<String>)
    ensures
        match r {
            Option::Some(m) => json_text_of(raw@) == Option::Some(m@),
            Option::None => json_text_of(raw@) is None,
        },
{
    let parsed: serde_json::Value = serde_json::from_str(raw).ok()?;
    Some(parsed.get("text")?.as_str()?.to_string())
}

} // verus!
