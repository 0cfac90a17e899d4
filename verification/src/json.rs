//! The JSON reader that the shell relies on, as far as the shell uses it.
//!
//! Parsing is done by `serde_json`. Nothing in this file is proved: each item
//! gives a name to what one `serde_json` function returns, so that the
//! verified code elsewhere can say which document it read and which member
//! it looked at.

use vstd::prelude::*;

verus! {

/// A parsed JSON value. Its inside is only reached through the functions below.
#[verifier::external_type_specification]
#[verifier::external_body]
pub struct ExJsonValue(serde_json::Value);

/// The reason why a text is not a JSON document.
#[verifier::external_type_specification]
#[verifier::external_body]
pub struct ExJsonError(serde_json::Error);

/// The value that `text` denotes as a JSON document, if it is one.
pub uninterp spec fn json_document(text: Seq<char>) -> Option<serde_json::Value>;

/// The member that `value` holds under `key`, if `value` is an object with
/// such a key.
pub uninterp spec fn json_member(value: serde_json::Value, key: Seq<char>) -> Option<
    serde_json::Value,
>;

/// The number that `value` is, if it is an integer from 0 to `u64::MAX`.
pub uninterp spec fn json_u64(value: serde_json::Value) -> Option<u64>;

/// The text that `value` is, if it is a JSON string.
pub uninterp spec fn json_text(value: serde_json::Value) -> Option<Seq<char>>;

/// The truth value that `value` is, if it is a JSON boolean.
pub uninterp spec fn json_bool(value: serde_json::Value) -> Option<bool>;

/// `serde_json::from_str` read as a `Value`: it succeeds exactly on the texts
/// that [`json_document`] knows, with that value.
#[verifier::external_body]
pub(crate) fn parse(text: &str) -> (parsed: Result<serde_json::Value, serde_json::Error>)
    ensures
        match parsed {
            Ok(value) => json_document(text@) == Some(value),
            Err(_) => json_document(text@).is_none(),
        },
{
    serde_json::from_str::<serde_json::Value>(text)
}

/// `Value::get` with a string index: the member under `key`, which
/// [`json_member`] names; `None` where `value` is no object or lacks the key.
#[verifier::external_body]
pub(crate) fn member<'a>(value: &'a serde_json::Value, key: &str) -> (found: Option<
    &'a serde_json::Value,
>)
    ensures
        match found {
            Some(m) => json_member(*value, key@) == Some(*m),
            None => json_member(*value, key@).is_none(),
        },
{
    value.get(key)
}

/// `Value::as_u64`: the number named by [`json_u64`].
#[verifier::external_body]
pub(crate) fn as_u64(value: &serde_json::Value) -> (n: Option<u64>)
    ensures
        n == json_u64(*value),
{
    value.as_u64()
}

/// `Value::as_str`: the text named by [`json_text`].
#[verifier::external_body]
pub(crate) fn as_text<'a>(value: &'a serde_json::Value) -> (text: Option<&'a str>)
    ensures
        match text {
            Some(t) => json_text(*value) == Some(t@),
            None => json_text(*value).is_none(),
        },
{
    value.as_str()
}

/// `Value::as_bool`: the truth value named by [`json_bool`].
#[verifier::external_body]
pub(crate) fn as_bool(value: &serde_json::Value) -> (b: Option<bool>)
    ensures
        b == json_bool(*value),
{
    value.as_bool()
}

} // verus!
