//! `pong`: the answer to a `ping`.

use crate::decimal::{decimal_text, u64_to_decimal};
use crate::domain::messages::error::{decoded, WrongFormatErrorMessage};
use crate::domain::messages::ping::{decode_checkpoint, is_checkpoint};
use crate::json::{views, Json, JsonValue, Num};
use vstd::prelude::*;

verus! {

/// A `pong` message.
#[derive(Debug, Clone, Copy, PartialEq, Eq, Structural)]
pub struct PongMessage {
    /// The last checkpoint that the sender got.
    pub synced: u64,
}

impl View for PongMessage {
    type V = u64;

    open spec fn view(&self) -> u64 {
        self.synced
    }
}

/// The wire text of a `pong` with the given checkpoint: `[ "pong", <synced> ]`.
pub open spec fn pong_text(synced: u64) -> Seq<char> {
    "[ \"pong\", "@ + decimal_text(synced as nat) + " ]"@
}

impl PongMessage {
    /// Writes the wire text of the message.
    pub fn encode(&self) -> (r: String)
        ensures
            r@ == pong_text(self.synced),
    {
        let mut r = String::from_str("[ \"pong\", ");
        r.append(u64_to_decimal(self.synced).as_str());
        r.append(" ]");
        r
    }
}

/// The message of the one error that decoding a `pong` gives.
pub open spec fn invalid_pong() -> Seq<char> {
    "Invalid pong type, please refer to the documentation."@
}

/// The checkpoint of the `pong` that the elements of an array hold, or the
/// message of the `wrong-format` error that they earn.
pub open spec fn pong_of(items: Seq<Json>) -> Result<u64, Seq<char>> {
    if is_checkpoint(items) {
        Ok(items[1].as_u64()->0)
    } else {
        Err(invalid_pong())
    }
}

/// Decodes the elements of an array as a `pong` message.
pub fn decode_pong_message(vec: &[JsonValue]) -> (r: Result<PongMessage, WrongFormatErrorMessage>)
    ensures
        decoded(r) == pong_of(views(vec@)),
{
    match decode_checkpoint(vec) {
        Some(synced) => Ok(PongMessage { synced }),
        None => Err(
            WrongFormatErrorMessage {
                message: String::from_str("Invalid pong type, please refer to the documentation."),
            },
        ),
    }
}

/// Fewer than two elements, or a tag or a checkpoint of the wrong type, are
/// no `pong`.
pub proof fn lemma_pong_refused(items: Seq<Json>)
    requires
        items.len() < 2 || !(items[0] is String) || items[1].as_u64() is None,
    ensures
        pong_of(items) == Err::<u64, Seq<char>>(invalid_pong()),
{
}

/// A tag and a checkpoint decode as the `pong` with that checkpoint: what
/// the encoder writes as the number is what the decoder reads back.
pub proof fn lemma_pong_of_two(tag: Seq<char>, synced: u64)
    ensures
        pong_of(seq![Json::String(tag), Json::Number(Num::Unsigned(synced))]) == Ok::<
            u64,
            Seq<char>,
        >(synced),
{
}

} // verus!
