//! The optional trailing object of the handshake messages.
//!
//! The object is read leniently: a member that is not known is passed over,
//! and an object without the known members gives options that are all
//! `None`. A known member must be a string or `null`.

use crate::json::{member, Json, JsonValue};
use vstd::prelude::*;

verus! {

/// The options of a handshake message, as plain texts.
pub struct Options {
    pub subprotocol: Option<Seq<char>>,
    pub credentials: Option<Seq<char>>,
}

/// The text of an optional string.
pub open spec fn optional_view(s: Option<String>) -> Option<Seq<char>> {
    match s {
        Some(s) => Some(s@),
        None => None,
    }
}

/// How an object's member reads as an optional string: absent or `null` is
/// no string, a string is itself, and anything else (the outer `None`) does
/// not read at all.
pub open spec fn optional_text(members: Seq<(Seq<char>, Json)>, key: Seq<char>) -> Option<
    Option<Seq<char>>,
> {
    match member(members, key) {
        None => Some(None),
        Some(Json::Null) => Some(None),
        Some(Json::String(s)) => Some(Some(s)),
        Some(_) => None,
    }
}

/// The options that a trailing value holds: it must be an object, and its
/// members `subprotocol` and `credentials` must read as optional strings.
pub open spec fn options_of(value: Json) -> Option<Options> {
    match value {
        Json::Object(members) => match (
            optional_text(members, "subprotocol"@),
            optional_text(members, "credentials"@),
        ) {
            (Some(subprotocol), Some(credentials)) => Some(Options { subprotocol, credentials }),
            _ => None,
        },
        _ => None,
    }
}

/// Reads one member of an object as an optional string.
fn decode_optional_text(value: &JsonValue, key: &str) -> (r: Option<Option<String>>)
    requires
        value@ is Object,
    ensures
        match r {
            Some(text) => optional_text(value@->Object_0, key@) == Some(optional_view(text)),
            None => optional_text(value@->Object_0, key@) is None,
        },
{
    match value.get(key) {
        None => Some(None),
        Some(JsonValue::Null) => Some(None),
        Some(JsonValue::String(s)) => Some(Some(s.clone())),
        Some(_) => None,
    }
}

/// Reads the options that a trailing value holds, as the pair of
/// `subprotocol` and `credentials`.
pub fn decode_options(value: &JsonValue) -> (r: Option<(Option<String>, Option<String>)>)
    ensures
        match r {
            Some((subprotocol, credentials)) => options_of(value@) == Some(
                Options {
                    subprotocol: optional_view(subprotocol),
                    credentials: optional_view(credentials),
                },
            ),
            None => options_of(value@) is None,
        },
{
    match value {
        JsonValue::Object(_) => {
            match decode_optional_text(value, "subprotocol") {
                Some(subprotocol) => match decode_optional_text(value, "credentials") {
                    Some(credentials) => Some((subprotocol, credentials)),
                    None => None,
                },
                None => None,
            }
        },
        _ => None,
    }
}

} // verus!
