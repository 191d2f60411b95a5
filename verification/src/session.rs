//! The connection session: one per connection, fed one frame at a time.
//!
//! A session starts out awaiting the handshake. A well-formed `connect` or
//! `connected` establishes it; until then the messages that only make sense
//! on an established session are refused with `missed-auth`.

use crate::decimal::{decimal_text, u64_to_decimal};
use crate::dispatch::{
    answers_connect,
    incorrect_format,
    incorrect_format_reply,
    is_connect_to_answer,
    kind_of,
    process_action,
    reply_of,
    wrong_format_text,
};
use crate::domain::messages::connect::decode_connect_message;
use crate::domain::messages::connected::{connected_of, decode_connected_message};
use crate::domain::messages::error::{
    error_text,
    ErrorMessageKind,
    MissedAuthErrorMessage,
    TimeoutErrorMessage,
};
use crate::domain::messages::messages_kind::MessageKind;
use crate::json::{views, Json, JsonValue};
use crate::json_text::{json_of_text, parse_json};
use vstd::prelude::*;

verus! {

/// What the transport delivers.
#[derive(Debug, PartialEq, Eq)]
pub enum Inbound {
    /// A keep-alive probe of the transport, with its payload.
    Ping(Vec<u8>),
    /// A text frame.
    Text(String),
    /// Any other frame.
    Other,
    /// No frame: the connection stayed idle for this many milliseconds, and
    /// its idle timer ran out.
    Expired(u64),
}

/// What the transport is asked to do.
#[derive(Debug, PartialEq, Eq)]
pub enum Outbound {
    /// Nothing.
    Nothing,
    /// Answer the transport's probe with the same payload.
    Pong(Vec<u8>),
    /// Send a text frame.
    Text(String),
    /// Send a text frame, then close the connection.
    Close(String),
}

/// The mathematical value of an [`Outbound`].
pub enum OutboundView {
    Nothing,
    Pong(Seq<u8>),
    Text(Seq<char>),
    Close(Seq<char>),
}

impl View for Outbound {
    type V = OutboundView;

    open spec fn view(&self) -> OutboundView {
        match self {
            Outbound::Nothing => OutboundView::Nothing,
            Outbound::Pong(payload) => OutboundView::Pong(payload@),
            Outbound::Text(text) => OutboundView::Text(text@),
            Outbound::Close(text) => OutboundView::Close(text@),
        }
    }
}

/// Where a session stands in the handshake.
#[derive(Debug, Clone, Copy, PartialEq, Eq, Structural)]
pub enum SessionState {
    AwaitingHandshake,
    Established,
}

/// The session of one connection.
#[derive(Debug)]
pub struct MyWs {
    pub state: SessionState,
}

/// Whether messages of a kind are refused before the handshake.
pub open spec fn needs_handshake(kind: MessageKind) -> bool {
    kind is Sync || kind is Synced || kind is Ping || kind is Pong
}

/// Whether the elements are refused because the handshake is still awaited.
pub open spec fn is_too_early(state: SessionState, items: Seq<Json>) -> bool {
    state is AwaitingHandshake && kind_of(items) is Some && needs_handshake(kind_of(items)->0)
}

/// Whether the elements are a well-formed `connect` or `connected`.
pub open spec fn is_handshake(items: Seq<Json>) -> bool {
    ||| answers_connect(items)
    ||| kind_of(items) == Some(MessageKind::Connected) && connected_of(items) is Ok
}

/// The wire text of a `missed-auth` error for a message with the given tag.
pub open spec fn missed_auth_text(tag: Seq<char>) -> Seq<char> {
    error_text(ErrorMessageKind::MissedAuth, seq![tag])
}

/// The state of a session after the elements of an array.
pub open spec fn state_after(state: SessionState, items: Seq<Json>) -> SessionState {
    if is_handshake(items) {
        SessionState::Established
    } else {
        state
    }
}

/// The reply of a session in the given state to the elements of an array.
pub open spec fn session_reply(
    state: SessionState,
    items: Seq<Json>,
    received_at: u64,
    replied_at: u64,
) -> Option<Seq<char>> {
    if is_too_early(state, items) {
        Some(missed_auth_text(items[0]->String_0))
    } else {
        reply_of(items, received_at, replied_at)
    }
}

/// The value of what a text frame parsed as.
pub open spec fn parsed_view(parsed: Option<JsonValue>) -> Option<Json> {
    match parsed {
        Some(value) => Some(value@),
        None => None,
    }
}

/// The state of a session after a text frame that parsed as given.
pub open spec fn state_after_json(state: SessionState, parsed: Option<Json>) -> SessionState {
    match parsed {
        Some(Json::Array(items)) => state_after(state, items),
        _ => state,
    }
}

/// The reply of a session to a text frame that parsed as given: text that
/// is not JSON, or not an array, is answered with `wrong-format`.
pub open spec fn reply_to_json(
    state: SessionState,
    parsed: Option<Json>,
    received_at: u64,
    replied_at: u64,
) -> Option<Seq<char>> {
    match parsed {
        Some(Json::Array(items)) => session_reply(state, items, received_at, replied_at),
        _ => Some(wrong_format_text(incorrect_format())),
    }
}

/// Whether a text frame that parsed as given is a well-formed `connect`.
pub open spec fn json_answers_connect(parsed: Option<Json>) -> bool {
    parsed matches Some(Json::Array(items)) && answers_connect(items)
}

/// Whether a frame is the text of a well-formed `connect`: the one frame
/// whose answer holds the time of receipt.
pub open spec fn frame_answers_connect(msg: Inbound) -> bool {
    msg matches Inbound::Text(text) && json_answers_connect(json_of_text(text@))
}

/// What is sent back for a frame that is neither text nor a probe.
pub open spec fn not_an_array() -> Seq<char> {
    "[\"error\",\"wrong-format\",\"not an array\"]"@
}

/// The wire text of the `timeout` error after the given idle time in
/// milliseconds.
pub open spec fn timeout_text(idle: u64) -> Seq<char> {
    error_text(ErrorMessageKind::Timeout, seq![decimal_text(idle as nat)])
}

/// What a reply asks of the transport.
pub open spec fn sending(reply: Option<Seq<char>>) -> OutboundView {
    match reply {
        Some(text) => OutboundView::Text(text),
        None => OutboundView::Nothing,
    }
}

/// What a session in the given state asks of the transport for a frame.
pub open spec fn action_for(state: SessionState, msg: Inbound, received_at: u64, replied_at: u64)
    -> OutboundView {
    match msg {
        Inbound::Ping(payload) => OutboundView::Pong(payload@),
        Inbound::Text(text) => sending(
            reply_to_json(state, json_of_text(text@), received_at, replied_at),
        ),
        Inbound::Other => OutboundView::Text(not_an_array()),
        Inbound::Expired(idle) => OutboundView::Close(timeout_text(idle)),
    }
}

/// The state of a session after a frame: only a text frame can change it.
pub open spec fn state_after_frame(state: SessionState, msg: Inbound) -> SessionState {
    match msg {
        Inbound::Text(text) => state_after_json(state, json_of_text(text@)),
        _ => state,
    }
}

impl MyWs {
    /// A session that awaits the handshake.
    pub fn new() -> (r: MyWs)
        ensures
            r.state is AwaitingHandshake,
    {
        MyWs { state: SessionState::AwaitingHandshake }
    }

    /// Whether the handshake is done.
    pub fn is_established(&self) -> (r: bool)
        ensures
            r == (self.state is Established),
    {
        match self.state {
            SessionState::Established => true,
            SessionState::AwaitingHandshake => false,
        }
    }

    /// Takes the elements of an inbound array: refuses them where the
    /// handshake is still awaited, else dispatches them, and notes a
    /// handshake that they complete.
    pub fn on_array(&mut self, vec: &[JsonValue], received_at: u64, replied_at: u64) -> (r: Option<
        String,
    >)
        requires
            answers_connect(views(vec@)) ==> received_at >= 1,
        ensures
            final(self).state == state_after(old(self).state, views(vec@)),
            match r {
                Some(text) => session_reply(
                    old(self).state,
                    views(vec@),
                    received_at,
                    replied_at,
                ) == Some(text@),
                None => session_reply(old(self).state, views(vec@), received_at, replied_at)
                    is None,
            },
    {
        let tag = if vec.len() > 0 {
            vec[0].as_string()
        } else {
            None
        };
        if let Some(tag) = tag {
            match MessageKind::from_tag(tag.as_str()) {
                Some(MessageKind::Sync) | Some(MessageKind::Synced) | Some(MessageKind::Ping)
                | Some(MessageKind::Pong) => {
                    if !self.is_established() {
                        return Some(MissedAuthErrorMessage { message: tag.clone() }.to_string());
                    }
                },
                Some(MessageKind::Connect) => {
                    if decode_connect_message(vec).is_ok() {
                        self.state = SessionState::Established;
                    }
                },
                Some(MessageKind::Connected) => {
                    if decode_connected_message(vec).is_ok() {
                        self.state = SessionState::Established;
                    }
                },
                _ => {},
            }
        }
        process_action(vec, received_at, replied_at)
    }

    /// Takes a text frame as it parsed: an array goes to [`MyWs::on_array`],
    /// anything else is answered with `wrong-format`.
    pub fn on_json(&mut self, parsed: &Option<JsonValue>, received_at: u64, replied_at: u64) -> (r:
        Option<String>)
        requires
            json_answers_connect(parsed_view(*parsed)) ==> received_at >= 1,
        ensures
            final(self).state == state_after_json(old(self).state, parsed_view(*parsed)),
            match r {
                Some(text) => reply_to_json(
                    old(self).state,
                    parsed_view(*parsed),
                    received_at,
                    replied_at,
                ) == Some(text@),
                None => reply_to_json(
                    old(self).state,
                    parsed_view(*parsed),
                    received_at,
                    replied_at,
                ) is None,
            },
    {
        match parsed {
            Some(value) => match value.as_array() {
                Some(items) => self.on_array(items.as_slice(), received_at, replied_at),
                None => Some(incorrect_format_reply()),
            },
            None => Some(incorrect_format_reply()),
        }
    }

    /// Takes a text frame: parses it and goes on with [`MyWs::on_json`].
    pub fn on_text(&mut self, text: &str, received_at: u64, replied_at: u64) -> (r: Option<String>)
        requires
            json_answers_connect(json_of_text(text@)) ==> received_at >= 1,
        ensures
            final(self).state == state_after_json(old(self).state, json_of_text(text@)),
            match r {
                Some(reply) => reply_to_json(
                    old(self).state,
                    json_of_text(text@),
                    received_at,
                    replied_at,
                ) == Some(reply@),
                None => reply_to_json(
                    old(self).state,
                    json_of_text(text@),
                    received_at,
                    replied_at,
                ) is None,
            },
    {
        let parsed = parse_json(text);
        self.on_json(&parsed, received_at, replied_at)
    }

    /// Takes what the transport delivered and says what it is to do.
    ///
    /// `received_at` and `replied_at` are the times, in milliseconds since
    /// the epoch, at which the frame was received and at which the reply is
    /// made. The answer to a `connect` names the millisecond before the
    /// receipt, so a `connect` cannot be taken at time 0; [`MyWs::deliver`]
    /// tests that.
    pub fn handle(&mut self, msg: &Inbound, received_at: u64, replied_at: u64) -> (r: Outbound)
        requires
            frame_answers_connect(*msg) ==> received_at >= 1,
        ensures
            r@ == action_for(old(self).state, *msg, received_at, replied_at),
            final(self).state == state_after_frame(old(self).state, *msg),
    {
        match msg {
            Inbound::Ping(payload) => Outbound::Pong(payload.clone()),
            Inbound::Text(text) => match self.on_text(text.as_str(), received_at, replied_at) {
                Some(reply) => Outbound::Text(reply),
                None => Outbound::Nothing,
            },
            Inbound::Other => Outbound::Text(
                String::from_str("[\"error\",\"wrong-format\",\"not an array\"]"),
            ),
            Inbound::Expired(idle) => Outbound::Close(
                TimeoutErrorMessage { timeout_duration: u64_to_decimal(*idle) }.to_string(),
            ),
        }
    }

    /// Takes what the transport delivered, at any time: as
    /// [`MyWs::handle`] does, but for a well-formed `connect` received at
    /// time 0, which has no millisecond before it. That frame is not taken:
    /// the result is `None` and the session stays as it is.
    pub fn deliver(&mut self, msg: &Inbound, received_at: u64, replied_at: u64) -> (r: Option<
        Outbound,
    >)
        ensures
            r is None <==> frame_answers_connect(*msg) && received_at == 0,
            match r {
                Some(action) => action@ == action_for(
                    old(self).state,
                    *msg,
                    received_at,
                    replied_at,
                ) && final(self).state == state_after_frame(old(self).state, *msg),
                None => final(self).state == old(self).state,
            },
    {
        if received_at == 0 {
            if let Inbound::Text(text) = msg {
                if let Some(parsed) = parse_json(text.as_str()) {
                    if let Some(items) = parsed.as_array() {
                        if is_connect_to_answer(items.as_slice()) {
                            return None;
                        }
                    }
                }
            }
        }
        Some(self.handle(msg, received_at, replied_at))
    }
}

/// An established session stays established, whatever comes.
pub proof fn lemma_established_is_kept(items: Seq<Json>)
    ensures
        state_after(SessionState::Established, items) is Established,
{
}

/// An established session answers as the dispatcher does.
pub proof fn lemma_established_dispatches(items: Seq<Json>, received_at: u64, replied_at: u64)
    ensures
        session_reply(SessionState::Established, items, received_at, replied_at) == reply_of(
            items,
            received_at,
            replied_at,
        ),
{
}

/// Before the handshake a `ping`, `pong`, `sync` or `synced` is answered
/// with `missed-auth`, which carries its tag, and the handshake is still
/// awaited afterwards.
pub proof fn lemma_too_early_is_refused(items: Seq<Json>, received_at: u64, replied_at: u64)
    requires
        kind_of(items) is Some,
        needs_handshake(kind_of(items)->0),
    ensures
        session_reply(SessionState::AwaitingHandshake, items, received_at, replied_at) == Some(
            missed_auth_text(items[0]->String_0),
        ),
        state_after(SessionState::AwaitingHandshake, items) is AwaitingHandshake,
{
}

/// A session leaves the state of awaiting the handshake only on a
/// well-formed `connect` or `connected`.
pub proof fn lemma_only_a_handshake_establishes(items: Seq<Json>)
    requires
        state_after(SessionState::AwaitingHandshake, items) is Established,
    ensures
        is_handshake(items),
{
}

} // verus!
