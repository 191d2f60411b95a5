//! `connect`: the first message of the handshake, sent by the node that
//! opens the connection.

use crate::domain::messages::error::{decoded, WrongFormatErrorMessage};
use crate::domain::messages::options::{decode_options, optional_view, options_of, Options};
use crate::json::{views, Json, JsonValue, Num};
use vstd::prelude::*;

verus! {

/// The optional properties of a `connect` message.
#[derive(Debug, PartialEq, Eq)]
pub struct OptionnalConnectMessage {
    /// The application subprotocol version, in SemVer.
    pub subprotocol: Option<String>,
    /// Credentials that the receiver may check.
    pub credentials: Option<String>,
}

impl View for OptionnalConnectMessage {
    type V = Options;

    open spec fn view(&self) -> Options {
        Options {
            subprotocol: optional_view(self.subprotocol),
            credentials: optional_view(self.credentials),
        }
    }
}

/// A `connect` message.
#[derive(Debug, PartialEq, Eq)]
pub struct ConnectMessage {
    /// The protocol version.
    pub protocol: u64,
    /// The sender's node id, unique across the network.
    pub node_id: String,
    /// The last checkpoint that the sender got, 0 on a first connection.
    pub synced: u64,
    /// The optional properties.
    pub options: Option<OptionnalConnectMessage>,
}

/// The mathematical value of a [`ConnectMessage`].
pub struct ConnectView {
    pub protocol: u64,
    pub node_id: Seq<char>,
    pub synced: u64,
    pub options: Option<Options>,
}

impl View for ConnectMessage {
    type V = ConnectView;

    open spec fn view(&self) -> ConnectView {
        ConnectView {
            protocol: self.protocol,
            node_id: self.node_id@,
            synced: self.synced,
            options: match self.options {
                Some(options) => Some(options@),
                None => None,
            },
        }
    }
}

/// The message of the one error that decoding a `connect` gives.
pub open spec fn invalid_connect() -> Seq<char> {
    "Invalid connect type, please refer to the documentation."@
}

/// Whether the elements have the shape of a `connect`: a tag, the protocol
/// version, the node id and the checkpoint, then at most one value that
/// holds options.
pub open spec fn is_connect(items: Seq<Json>) -> bool {
    &&& items.len() == 4 || items.len() == 5
    &&& items[0] is String
    &&& items[1].as_u64() is Some
    &&& items[2] is String
    &&& items[3].as_u64() is Some
    &&& items.len() == 5 ==> options_of(items[4]) is Some
}

/// The `connect` message that the elements of an array hold, or the message
/// of the `wrong-format` error that they earn.
pub open spec fn connect_of(items: Seq<Json>) -> Result<ConnectView, Seq<char>> {
    if is_connect(items) {
        Ok(
            ConnectView {
                protocol: items[1].as_u64()->0,
                node_id: items[2]->String_0,
                synced: items[3].as_u64()->0,
                options: if items.len() == 5 {
                    options_of(items[4])
                } else {
                    None
                },
            },
        )
    } else {
        Err(invalid_connect())
    }
}

fn invalid() -> (r: WrongFormatErrorMessage)
    ensures
        r.message@ == invalid_connect(),
{
    WrongFormatErrorMessage {
        message: String::from_str("Invalid connect type, please refer to the documentation."),
    }
}

/// Decodes the elements of an array as a `connect` message.
pub fn decode_connect_message(vec: &[JsonValue]) -> (r: Result<
    ConnectMessage,
    WrongFormatErrorMessage,
>)
    ensures
        decoded(r) == connect_of(views(vec@)),
{
    let n = vec.len();
    if n != 4 && n != 5 {
        return Err(invalid());
    }
    if vec[0].as_string().is_none() {
        return Err(invalid());
    }
    let options = if n == 5 {
        match decode_options(&vec[4]) {
            Some((subprotocol, credentials)) => Some(
                OptionnalConnectMessage { subprotocol, credentials },
            ),
            None => {
                return Err(invalid());
            },
        }
    } else {
        None
    };
    match (vec[1].as_u64(), vec[2].as_string(), vec[3].as_u64()) {
        (Some(protocol), Some(node_id), Some(synced)) => Ok(
            ConnectMessage { protocol, node_id: node_id.clone(), synced, options },
        ),
        _ => Err(invalid()),
    }
}

/// A tag, a protocol version, a node id and a checkpoint, with nothing
/// behind them, decode as the `connect` message that holds exactly these,
/// without options.
pub proof fn lemma_connect_of_four(tag: Seq<char>, protocol: u64, node_id: Seq<char>, synced: u64)
    ensures
        connect_of(
            seq![
                Json::String(tag),
                Json::Number(Num::Unsigned(protocol)),
                Json::String(node_id),
                Json::Number(Num::Unsigned(synced)),
            ],
        ) == Ok::<ConnectView, Seq<char>>(
            ConnectView { protocol, node_id, synced, options: None },
        ),
{
}

/// Fewer than four elements, or a required element of the wrong type (a
/// number that is no unsigned 64-bit integer included), are no `connect`.
pub proof fn lemma_connect_refused(items: Seq<Json>)
    requires
        items.len() < 4 || !(items[0] is String) || items[1].as_u64() is None || !(items[2]
            is String) || items[3].as_u64() is None,
    ensures
        connect_of(items) == Err::<ConnectView, Seq<char>>(invalid_connect()),
{
}

} // verus!
