//! The dispatcher: from the elements of an inbound array to the reply.

use crate::domain::messages::connect::{connect_of, decode_connect_message, ConnectView};
use crate::domain::messages::connected::{
    connected_of,
    connected_text,
    decode_connected_message,
    ConnectedMessage,
    ConnectedView,
    OptionnalConnectedMessage,
};
use crate::domain::messages::error::{
    error_text,
    ErrorMessageKind,
    UnkownMessageErrorMessage,
    WrongFormatErrorMessage,
};
use crate::domain::messages::messages_kind::{lemma_registry_is_a_bijection, MessageKind};
use crate::domain::messages::ping::{decode_ping_message, ping_of};
use crate::domain::messages::pong::{decode_pong_message, pong_of, pong_text, PongMessage};
use crate::domain::messages::sync::{decode_sync_message, sync_of};
use crate::domain::messages::synced::{decode_synced_message, synced_of};
use crate::json::{views, Json, JsonValue, Num};
use crate::middleware::{
    middleware_connect,
    middleware_connected,
    middleware_ping,
    middleware_pong,
    middleware_sync,
};
use vstd::prelude::*;

verus! {

/// The node id under which this server answers a `connect`.
pub open spec fn server_node_id() -> Seq<char> {
    "server:sb7VjwpO"@
}

/// The wire text of a `wrong-format` error with the given message.
pub open spec fn wrong_format_text(message: Seq<char>) -> Seq<char> {
    error_text(ErrorMessageKind::WrongFormat, seq![message])
}

/// The wire text of an `unknown-message` error for the given tag.
pub open spec fn unknown_message_text(tag: Seq<char>) -> Seq<char> {
    error_text(ErrorMessageKind::UnkownMessage, seq![tag])
}

/// The message of the error for an array without elements.
pub open spec fn empty_array() -> Seq<char> {
    "array is empty"@
}

/// The message of the error for an array whose first element is no string.
pub open spec fn incorrect_format() -> Seq<char> {
    "incorrect format, please refer to: https://github.com/logux/logux/tree/master/protocol"@
}

/// What is sent back when the peer reports an error.
pub open spec fn error_acknowledgement() -> Seq<char> {
    "[\"error\",\"wrong-format\"]"@
}

/// The `connected` message that answers a `connect`: the same protocol
/// version and options, this server's node id, and as times the millisecond
/// before the `connect` was received and the moment of the answer.
pub open spec fn answer_to(connect: ConnectView, received_at: u64, replied_at: u64)
    -> ConnectedView {
    ConnectedView {
        protocol: connect.protocol,
        node_id: server_node_id(),
        time_sync: ((received_at - 1) as u64, replied_at),
        options: connect.options,
    }
}

/// The kind that the elements of an array are tagged with.
pub open spec fn kind_of(items: Seq<Json>) -> Option<MessageKind> {
    if items.len() > 0 && items[0] is String {
        MessageKind::of_tag(items[0]->String_0)
    } else {
        None
    }
}

/// Whether the elements are a well-formed `connect`: the one message whose
/// answer holds the time of receipt.
pub open spec fn answers_connect(items: Seq<Json>) -> bool {
    kind_of(items) == Some(MessageKind::Connect) && connect_of(items) is Ok
}

/// The reply to a message that is answered only where it is malformed.
pub open spec fn complaint<T>(outcome: Result<T, Seq<char>>) -> Option<Seq<char>> {
    match outcome {
        Ok(_) => None,
        Err(message) => Some(wrong_format_text(message)),
    }
}

/// The reply to the elements of an inbound array whose tag names the given
/// kind.
pub open spec fn reply_to_kind(
    kind: MessageKind,
    items: Seq<Json>,
    received_at: u64,
    replied_at: u64,
) -> Option<Seq<char>> {
    match kind {
        MessageKind::Error => Some(error_acknowledgement()),
        MessageKind::Connect => match connect_of(items) {
            Ok(connect) => Some(connected_text(answer_to(connect, received_at, replied_at))),
            Err(message) => Some(wrong_format_text(message)),
        },
        MessageKind::Connected => complaint(connected_of(items)),
        MessageKind::Ping => match ping_of(items) {
            Ok(synced) => Some(pong_text(synced)),
            Err(message) => Some(wrong_format_text(message)),
        },
        MessageKind::Pong => complaint(pong_of(items)),
        MessageKind::Sync => complaint(sync_of(items)),
        MessageKind::Synced => complaint(synced_of(items)),
        MessageKind::Debug => None,
    }
}

/// The reply to the elements of an inbound array; `None` where nothing is
/// sent back.
pub open spec fn reply_of(items: Seq<Json>, received_at: u64, replied_at: u64) -> Option<
    Seq<char>,
> {
    if items.len() == 0 {
        Some(wrong_format_text(empty_array()))
    } else if !(items[0] is String) {
        Some(wrong_format_text(incorrect_format()))
    } else {
        match MessageKind::of_tag(items[0]->String_0) {
            Some(kind) => reply_to_kind(kind, items, received_at, replied_at),
            None => Some(unknown_message_text(items[0]->String_0)),
        }
    }
}

/// Whether the elements are a well-formed `connect`.
pub fn is_connect_to_answer(vec: &[JsonValue]) -> (r: bool)
    ensures
        r == answers_connect(views(vec@)),
{
    if vec.len() == 0 {
        return false;
    }
    match vec[0].as_string() {
        Some(tag) => match MessageKind::from_tag(tag.as_str()) {
            Some(MessageKind::Connect) => decode_connect_message(vec).is_ok(),
            _ => false,
        },
        None => false,
    }
}

fn wrong_format(message: &str) -> (r: String)
    ensures
        r@ == wrong_format_text(message@),
{
    WrongFormatErrorMessage { message: String::from_str(message) }.to_string()
}

/// Writes the `wrong-format` error for what is no tagged array.
pub(crate) fn incorrect_format_reply() -> (r: String)
    ensures
        r@ == wrong_format_text(incorrect_format()),
{
    wrong_format(
        "incorrect format, please refer to: https://github.com/logux/logux/tree/master/protocol",
    )
}

/// Routes the elements of an inbound array by their tag, decodes them, tells
/// the matching hook and returns the text to send back, if any.
///
/// `received_at` and `replied_at` are the times, in milliseconds since the
/// epoch, at which the array was received and at which the reply is made.
/// Only the answer to a `connect` holds them; it names the millisecond
/// before the receipt, so a `connect` cannot be answered at time 0.
pub fn process_action(vec: &[JsonValue], received_at: u64, replied_at: u64) -> (r: Option<String>)
    requires
        answers_connect(views(vec@)) ==> received_at >= 1,
    ensures
        match r {
            Some(text) => reply_of(views(vec@), received_at, replied_at) == Some(text@),
            None => reply_of(views(vec@), received_at, replied_at) is None,
        },
{
    if vec.len() == 0 {
        return Some(wrong_format("array is empty"));
    }
    let action_type = match vec[0].as_string() {
        Some(action_type) => action_type,
        None => {
            return Some(incorrect_format_reply());
        },
    };
    match MessageKind::from_tag(action_type.as_str()) {
        Some(MessageKind::Error) => Some(String::from_str("[\"error\",\"wrong-format\"]")),
        Some(MessageKind::Connect) => match decode_connect_message(vec) {
            Ok(val) => {
                middleware_connect(&val);
                let connected = ConnectedMessage {
                    protocol: val.protocol,
                    time_sync: [received_at - 1, replied_at],
                    node_id: String::from_str("server:sb7VjwpO"),
                    options: match val.options {
                        Some(options) => Some(
                            OptionnalConnectedMessage {
                                credentials: options.credentials,
                                subprotocol: options.subprotocol,
                            },
                        ),
                        None => None,
                    },
                };
                Some(connected.encode())
            },
            Err(e) => Some(e.to_string()),
        },
        Some(MessageKind::Connected) => match decode_connected_message(vec) {
            Ok(val) => {
                middleware_connected(&val);
                None
            },
            Err(e) => Some(e.to_string()),
        },
        Some(MessageKind::Ping) => match decode_ping_message(vec) {
            Ok(val) => {
                middleware_ping(&val);
                Some(PongMessage { synced: val.synced }.encode())
            },
            Err(e) => Some(e.to_string()),
        },
        Some(MessageKind::Pong) => match decode_pong_message(vec) {
            Ok(val) => {
                middleware_pong(&val);
                None
            },
            Err(e) => Some(e.to_string()),
        },
        Some(MessageKind::Sync) => match decode_sync_message(vec) {
            Ok(val) => {
                let _ = middleware_sync(&val);
                None
            },
            Err(e) => Some(e.to_string()),
        },
        Some(MessageKind::Synced) => match decode_synced_message(vec) {
            Ok(_) => None,
            Err(e) => Some(e.to_string()),
        },
        Some(MessageKind::Debug) => None,
        None => Some(UnkownMessageErrorMessage { message_type: action_type.clone() }.to_string()),
    }
}

/// An array without elements, or with a first element that is no string, is
/// answered with `wrong-format`, whatever else it holds.
pub proof fn lemma_untagged_is_wrong_format(items: Seq<Json>, received_at: u64, replied_at: u64)
    requires
        items.len() == 0 || !(items[0] is String),
    ensures
        reply_of(items, received_at, replied_at) == Some(
            wrong_format_text(
                if items.len() == 0 {
                    empty_array()
                } else {
                    incorrect_format()
                },
            ),
        ),
{
}

/// A tag that names no kind is answered with `unknown-message`, which
/// carries the tag, whatever follows the tag.
pub proof fn lemma_unknown_tag(items: Seq<Json>, received_at: u64, replied_at: u64)
    requires
        items.len() > 0,
        items[0] is String,
        MessageKind::of_tag(items[0]->String_0) is None,
    ensures
        reply_of(items, received_at, replied_at) == Some(
            unknown_message_text(items[0]->String_0),
        ),
{
}

/// A `ping` is answered with the `pong` of the same checkpoint.
pub proof fn lemma_ping_is_answered(synced: u64, received_at: u64, replied_at: u64)
    ensures
        reply_of(
            seq![Json::String("ping"@), Json::Number(Num::Unsigned(synced))],
            received_at,
            replied_at,
        ) == Some(pong_text(synced)),
{
    lemma_registry_is_a_bijection(MessageKind::Ping, "ping"@);
}

/// Nothing is sent back only for a tagged array whose kind is `connected`,
/// `pong`, `sync`, `synced` or `debug`: every other array gets a reply.
pub proof fn lemma_no_reply_kinds(items: Seq<Json>, received_at: u64, replied_at: u64)
    requires
        reply_of(items, received_at, replied_at) is None,
    ensures
        items.len() > 0,
        items[0] is String,
        MessageKind::of_tag(items[0]->String_0) matches Some(kind) && (kind is Connected
            || kind is Pong || kind is Sync || kind is Synced || kind is Debug),
{
}

} // verus!
