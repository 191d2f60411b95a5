//! `connected`: the answer to a `connect`, which ends the handshake.

use crate::decimal::{decimal_text, u64_to_decimal};
use crate::domain::messages::error::{decoded, WrongFormatErrorMessage};
use crate::domain::messages::options::{decode_options, optional_view, options_of, Options};
use crate::json::{views, Json, JsonValue};
use crate::json_text::{json_quote, json_string_literal, pair_text, write_pair};
use vstd::prelude::*;

verus! {

/// The optional properties of a `connected` message.
#[derive(Debug, PartialEq, Eq)]
pub struct OptionnalConnectedMessage {
    /// The application subprotocol version, in SemVer.
    pub subprotocol: Option<String>,
    /// Credentials that the receiver may check.
    pub credentials: Option<String>,
}

impl View for OptionnalConnectedMessage {
    type V = Options;

    open spec fn view(&self) -> Options {
        Options {
            subprotocol: optional_view(self.subprotocol),
            credentials: optional_view(self.credentials),
        }
    }
}

/// A `connected` message.
#[derive(Debug, PartialEq, Eq)]
pub struct ConnectedMessage {
    /// The protocol version.
    pub protocol: u64,
    /// The sender's node id, unique across the network.
    pub node_id: String,
    /// When the `connect` was received and when this answer was sent, in
    /// milliseconds since 1 January 1970 00:00:00 UTC.
    pub time_sync: [u64; 2],
    /// The optional properties.
    pub options: Option<OptionnalConnectedMessage>,
}

/// The mathematical value of a [`ConnectedMessage`].
pub struct ConnectedView {
    pub protocol: u64,
    pub node_id: Seq<char>,
    pub time_sync: (u64, u64),
    pub options: Option<Options>,
}

impl View for ConnectedMessage {
    type V = ConnectedView;

    open spec fn view(&self) -> ConnectedView {
        ConnectedView {
            protocol: self.protocol,
            node_id: self.node_id@,
            time_sync: (self.time_sync[0], self.time_sync[1]),
            options: match self.options {
                Some(options) => Some(options@),
                None => None,
            },
        }
    }
}

/// An optional string as JSON text: the string literal, or `null`.
pub open spec fn optional_literal(s: Option<Seq<char>>) -> Seq<char> {
    match s {
        Some(s) => json_string_literal(s),
        None => "null"@,
    }
}

/// The options as a JSON object: both members, in the order `subprotocol`,
/// `credentials`, without spaces.
pub open spec fn options_object_text(options: Options) -> Seq<char> {
    "{\"subprotocol\":"@ + optional_literal(options.subprotocol) + ",\"credentials\":"@
        + optional_literal(options.credentials) + "}"@
}

/// The last element of a `connected` message: the options' object, or
/// `null` where there are none.
pub open spec fn options_text(options: Option<Options>) -> Seq<char> {
    match options {
        Some(options) => options_object_text(options),
        None => "null"@,
    }
}

/// The two times as a JSON array without spaces.
pub open spec fn time_sync_text(time_sync: (u64, u64)) -> Seq<char> {
    pair_text(time_sync.0, time_sync.1)
}

/// The wire text of a `connected` message:
/// `[ "connected", <protocol>, "<node_id>", [<t0>,<t1>], <options or null> ]`,
/// with the node id as a JSON string literal.
pub open spec fn connected_text(message: ConnectedView) -> Seq<char> {
    "[ \"connected\", "@ + decimal_text(message.protocol as nat) + ", "@ + json_string_literal(
        message.node_id,
    ) + ", "@ + time_sync_text(message.time_sync) + ", "@ + options_text(message.options)
        + " ]"@
}

fn encode_optional(s: &Option<String>) -> (r: String)
    ensures
        r@ == optional_literal(optional_view(*s)),
{
    match s {
        Some(s) => json_quote(s.as_str()),
        None => String::from_str("null"),
    }
}

impl OptionnalConnectedMessage {
    /// Writes the options as a JSON object.
    pub fn encode(&self) -> (r: String)
        ensures
            r@ == options_object_text(self@),
    {
        let mut r = String::from_str("{\"subprotocol\":");
        r.append(encode_optional(&self.subprotocol).as_str());
        r.append(",\"credentials\":");
        r.append(encode_optional(&self.credentials).as_str());
        r.append("}");
        r
    }
}

impl ConnectedMessage {
    /// Writes the wire text of the message.
    pub fn encode(&self) -> (r: String)
        ensures
            r@ == connected_text(self@),
    {
        let mut r = String::from_str("[ \"connected\", ");
        r.append(u64_to_decimal(self.protocol).as_str());
        r.append(", ");
        r.append(json_quote(self.node_id.as_str()).as_str());
        r.append(", ");
        r.append(write_pair(&self.time_sync).as_str());
        r.append(", ");
        match &self.options {
            Some(options) => r.append(options.encode().as_str()),
            None => r.append("null"),
        }
        r.append(" ]");
        r
    }
}

/// The message of the error for elements that do not have the shape of a
/// `connected`.
pub open spec fn invalid_connected() -> Seq<char> {
    "Invalid connected type, please refer to the documentation."@
}

/// The message of the error for a `connected` of the right shape whose times
/// or options cannot be read.
pub open spec fn invalid_sync_time() -> Seq<char> {
    "Invalid sync time format."@
}

/// Whether the elements have the shape of a `connected`: a tag, the protocol
/// version, the node id and an array of two numbers, then at most one more
/// value.
pub open spec fn has_connected_shape(items: Seq<Json>) -> bool {
    &&& items.len() == 4 || items.len() == 5
    &&& items[0] is String
    &&& items[1].as_u64() is Some
    &&& items[2] is String
    &&& items[3] matches Json::Array(times)
    &&& times.len() == 2
    &&& times[0] is Number
    &&& times[1] is Number
}

/// Whether the times and the options of elements of the right shape can be
/// read: both times are unsigned 64-bit integers, and a fifth element holds
/// options.
pub open spec fn has_connected_payload(items: Seq<Json>) -> bool {
    &&& items[3]->Array_0[0].as_u64() is Some
    &&& items[3]->Array_0[1].as_u64() is Some
    &&& items.len() == 5 ==> options_of(items[4]) is Some
}

/// The `connected` message that the elements of an array hold, or the
/// message of the `wrong-format` error that they earn.
pub open spec fn connected_of(items: Seq<Json>) -> Result<ConnectedView, Seq<char>> {
    if !has_connected_shape(items) {
        Err(invalid_connected())
    } else if !has_connected_payload(items) {
        Err(invalid_sync_time())
    } else {
        Ok(
            ConnectedView {
                protocol: items[1].as_u64()->0,
                node_id: items[2]->String_0,
                time_sync: (items[3]->Array_0[0].as_u64()->0, items[3]->Array_0[1].as_u64()->0),
                options: if items.len() == 5 {
                    options_of(items[4])
                } else {
                    None
                },
            },
        )
    }
}

fn invalid_shape() -> (r: WrongFormatErrorMessage)
    ensures
        r.message@ == invalid_connected(),
{
    WrongFormatErrorMessage {
        message: String::from_str("Invalid connected type, please refer to the documentation."),
    }
}

fn invalid_payload() -> (r: WrongFormatErrorMessage)
    ensures
        r.message@ == invalid_sync_time(),
{
    WrongFormatErrorMessage { message: String::from_str("Invalid sync time format.") }
}

fn is_number(value: &JsonValue) -> (r: bool)
    ensures
        r == (value@ is Number),
{
    match value {
        JsonValue::Number(_) => true,
        _ => false,
    }
}

/// Decodes the elements of an array as a `connected` message.
pub fn decode_connected_message(vec: &[JsonValue]) -> (r: Result<
    ConnectedMessage,
    WrongFormatErrorMessage,
>)
    ensures
        decoded(r) == connected_of(views(vec@)),
{
    let n = vec.len();
    if n != 4 && n != 5 {
        return Err(invalid_shape());
    }
    if vec[0].as_string().is_none() {
        return Err(invalid_shape());
    }
    match (vec[1].as_u64(), vec[2].as_string(), vec[3].as_array()) {
        (Some(protocol), Some(node_id), Some(times)) => {
            if times.len() != 2 || !is_number(&times[0]) || !is_number(&times[1]) {
                return Err(invalid_shape());
            }
            let options = if n == 5 {
                match decode_options(&vec[4]) {
                    Some((subprotocol, credentials)) => Some(
                        OptionnalConnectedMessage { subprotocol, credentials },
                    ),
                    None => {
                        return Err(invalid_payload());
                    },
                }
            } else {
                None
            };
            match (times[0].as_u64(), times[1].as_u64()) {
                (Some(start), Some(end)) => Ok(
                    ConnectedMessage {
                        protocol,
                        node_id: node_id.clone(),
                        time_sync: [start, end],
                        options,
                    },
                ),
                _ => Err(invalid_payload()),
            }
        },
        _ => Err(invalid_shape()),
    }
}

/// Fewer than four elements, or a required element of the wrong type (the
/// two times included), are no `connected`.
pub proof fn lemma_connected_refused(items: Seq<Json>)
    requires
        items.len() < 4 || !(items[0] is String) || items[1].as_u64() is None || !(items[2]
            is String) || !(items[3] is Array) || items[3]->Array_0.len() != 2
            || items[3]->Array_0[0].as_u64() is None || items[3]->Array_0[1].as_u64() is None,
    ensures
        connected_of(items) is Err,
{
}

/// A `connected` message without options is written with the literal `null`
/// in their place.
pub proof fn lemma_connected_without_options(message: ConnectedView)
    requires
        message.options is None,
    ensures
        connected_text(message) == "[ \"connected\", "@ + decimal_text(message.protocol as nat)
            + ", "@ + json_string_literal(message.node_id) + ", "@ + time_sync_text(
            message.time_sync,
        ) + ", null ]"@,
{
    reveal_strlit(", ");
    reveal_strlit("null");
    reveal_strlit(" ]");
    reveal_strlit(", null ]");
    assert(", "@ + "null"@ + " ]"@ =~= ", null ]"@);
    let head = "[ \"connected\", "@ + decimal_text(message.protocol as nat) + ", "@
        + json_string_literal(message.node_id) + ", "@ + time_sync_text(message.time_sync);
    assert(head + ", "@ + "null"@ + " ]"@ =~= head + (", "@ + "null"@ + " ]"@));
}

/// Four elements that decode as a `connected` message are written back with
/// the literal `null` for the options.
pub proof fn lemma_connected_of_four_has_null(items: Seq<Json>)
    requires
        items.len() == 4,
        connected_of(items) is Ok,
    ensures
        connected_text(connected_of(items)->Ok_0) == "[ \"connected\", "@ + decimal_text(
            connected_of(items)->Ok_0.protocol as nat,
        ) + ", "@ + json_string_literal(connected_of(items)->Ok_0.node_id) + ", "@
            + time_sync_text(connected_of(items)->Ok_0.time_sync) + ", null ]"@,
{
    lemma_connected_without_options(connected_of(items)->Ok_0);
}

} // verus!
