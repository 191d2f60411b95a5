//! `synced`: acknowledges the actions of a `sync`.

use crate::domain::messages::error::{decoded, WrongFormatErrorMessage};
use crate::domain::messages::ping::{decode_checkpoint, is_checkpoint};
use crate::json::{views, Json, JsonValue};
use vstd::prelude::*;

verus! {

/// A `synced` message.
#[derive(Debug, Clone, Copy, PartialEq, Eq, Structural)]
pub struct SyncedMessage {
    /// The checkpoint that is acknowledged.
    pub synced: u64,
}

impl View for SyncedMessage {
    type V = u64;

    open spec fn view(&self) -> u64 {
        self.synced
    }
}

/// The message of the one error that decoding a `synced` gives.
pub open spec fn invalid_synced() -> Seq<char> {
    "Invalid synced type, please refer to the documentation."@
}

/// The checkpoint of the `synced` that the elements of an array hold, or the
/// message of the `wrong-format` error that they earn.
pub open spec fn synced_of(items: Seq<Json>) -> Result<u64, Seq<char>> {
    if is_checkpoint(items) {
        Ok(items[1].as_u64()->0)
    } else {
        Err(invalid_synced())
    }
}

/// Decodes the elements of an array as a `synced` message.
pub fn decode_synced_message(vec: &[JsonValue]) -> (r: Result<
    SyncedMessage,
    WrongFormatErrorMessage,
>)
    ensures
        decoded(r) == synced_of(views(vec@)),
{
    match decode_checkpoint(vec) {
        Some(synced) => Ok(SyncedMessage { synced }),
        None => Err(
            WrongFormatErrorMessage {
                message: String::from_str(
                    "Invalid synced type, please refer to the documentation.",
                ),
            },
        ),
    }
}

/// Fewer than two elements, or a tag or a checkpoint of the wrong type, are
/// no `synced`.
pub proof fn lemma_synced_refused(items: Seq<Json>)
    requires
        items.len() < 2 || !(items[0] is String) || items[1].as_u64() is None,
    ensures
        synced_of(items) == Err::<u64, Seq<char>>(invalid_synced()),
{
}

} // verus!
