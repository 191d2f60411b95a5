//! `ping`: asks the other node whether it is still there.

use crate::domain::messages::error::{decoded, WrongFormatErrorMessage};
use crate::json::{views, Json, JsonValue};
use vstd::prelude::*;

verus! {

/// A `ping` message.
#[derive(Debug, Clone, Copy, PartialEq, Eq, Structural)]
pub struct PingMessage {
    /// The last checkpoint that the sender got.
    pub synced: u64,
}

impl View for PingMessage {
    type V = u64;

    open spec fn view(&self) -> u64 {
        self.synced
    }
}

/// The message of the one error that decoding a `ping` gives.
pub open spec fn invalid_ping() -> Seq<char> {
    "Invalid ping type, please refer to the documentation."@
}

/// Whether the elements are a tag and one unsigned 64-bit integer: the shape
/// of `ping`, `pong` and `synced`.
pub open spec fn is_checkpoint(items: Seq<Json>) -> bool {
    &&& items.len() == 2
    &&& items[0] is String
    &&& items[1].as_u64() is Some
}

/// The checkpoint of the `ping` that the elements of an array hold, or the
/// message of the `wrong-format` error that they earn.
pub open spec fn ping_of(items: Seq<Json>) -> Result<u64, Seq<char>> {
    if is_checkpoint(items) {
        Ok(items[1].as_u64()->0)
    } else {
        Err(invalid_ping())
    }
}

/// Reads the checkpoint of elements that are a tag and one unsigned 64-bit
/// integer.
pub fn decode_checkpoint(vec: &[JsonValue]) -> (r: Option<u64>)
    ensures
        match r {
            Some(synced) => is_checkpoint(views(vec@)) && views(vec@)[1].as_u64() == Some(synced),
            None => !is_checkpoint(views(vec@)),
        },
{
    if vec.len() != 2 || vec[0].as_string().is_none() {
        None
    } else {
        vec[1].as_u64()
    }
}

/// Decodes the elements of an array as a `ping` message.
pub fn decode_ping_message(vec: &[JsonValue]) -> (r: Result<PingMessage, WrongFormatErrorMessage>)
    ensures
        decoded(r) == ping_of(views(vec@)),
{
    match decode_checkpoint(vec) {
        Some(synced) => Ok(PingMessage { synced }),
        None => Err(
            WrongFormatErrorMessage {
                message: String::from_str("Invalid ping type, please refer to the documentation."),
            },
        ),
    }
}

/// Fewer than two elements, or a tag or a checkpoint of the wrong type, are
/// no `ping`.
pub proof fn lemma_ping_refused(items: Seq<Json>)
    requires
        items.len() < 2 || !(items[0] is String) || items[1].as_u64() is None,
    ensures
        ping_of(items) == Err::<u64, Seq<char>>(invalid_ping()),
{
}

} // verus!
