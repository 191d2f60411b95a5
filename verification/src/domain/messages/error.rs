//! The protocol's errors and their wire text.
//!
//! Every error is sent as `["error", "<kind>", "<argument>", ...]`, written by
//! one formatter. Each argument is written as a JSON string literal, so that
//! the text is a JSON array whatever the arguments hold.

use crate::json_text::{is_plain_char, json_quote, json_string_literal, lemma_plain_text_is_kept};
use vstd::prelude::*;

verus! {

/// The kinds of error that the protocol knows.
#[derive(Debug, Clone, Copy, PartialEq, Eq, Structural)]
pub enum ErrorMessageKind {
    /// The peer's protocol version is not supported.
    WrongProtocol,
    /// The message is not correct JSON, is not an array or has no kind.
    WrongFormat,
    /// The message's kind is not supported.
    UnkownMessage,
    /// The credentials did not pass authentication.
    WrongCredentials,
    /// A message other than `connect`, `connected` or `error` came before
    /// the handshake.
    MissedAuth,
    /// A timeout was reached.
    Timeout,
    /// The peer's application subprotocol version is not supported.
    WrongSubprotocol,
}

impl ErrorMessageKind {
    /// The name of the kind on the wire.
    pub open spec fn tag(self) -> Seq<char> {
        match self {
            ErrorMessageKind::WrongCredentials => "wrong-credentials"@,
            ErrorMessageKind::WrongFormat => "wrong-format"@,
            ErrorMessageKind::WrongProtocol => "wrong-protocol"@,
            ErrorMessageKind::WrongSubprotocol => "wrong-subprotocol"@,
            ErrorMessageKind::UnkownMessage => "unknown-message"@,
            ErrorMessageKind::MissedAuth => "missed-auth"@,
            ErrorMessageKind::Timeout => "timeout"@,
        }
    }

    /// The name of the kind on the wire.
    pub fn as_str(&self) -> (r: &'static str)
        ensures
            r@ == self.tag(),
    {
        match self {
            ErrorMessageKind::WrongCredentials => "wrong-credentials",
            ErrorMessageKind::WrongFormat => "wrong-format",
            ErrorMessageKind::WrongProtocol => "wrong-protocol",
            ErrorMessageKind::WrongSubprotocol => "wrong-subprotocol",
            ErrorMessageKind::UnkownMessage => "unknown-message",
            ErrorMessageKind::MissedAuth => "missed-auth",
            ErrorMessageKind::Timeout => "timeout",
        }
    }

    /// The name of the kind on the wire, as an owned string.
    pub fn to_string(&self) -> (r: String)
        ensures
            r@ == self.tag(),
    {
        String::from_str(self.as_str())
    }
}

/// The arguments of an error as they follow its kind: each one behind a
/// comma and a space, as a JSON string literal.
pub open spec fn quoted_arguments(args: Seq<Seq<char>>) -> Seq<char>
    decreases args.len(),
{
    if args.len() == 0 {
        Seq::empty()
    } else {
        quoted_arguments(args.drop_last()) + ", "@ + json_string_literal(args.last())
    }
}

/// The wire text of an error of the given kind with the given arguments:
/// `["error", "<kind>"`, then each argument behind `, ` as a JSON string
/// literal, then `]`.
pub open spec fn error_text(kind: ErrorMessageKind, args: Seq<Seq<char>>) -> Seq<char> {
    "[\"error\", \""@ + kind.tag() + "\""@ + quoted_arguments(args) + "]"@
}

/// The texts of a list of strings.
pub open spec fn texts(args: Seq<String>) -> Seq<Seq<char>> {
    Seq::new(args.len(), |i: int| args[i]@)
}

/// Writes the wire text of an error, escaping each argument as JSON asks.
pub fn format_error(kind: ErrorMessageKind, args: &Vec<String>) -> (r: String)
    ensures
        r@ == error_text(kind, texts(args@)),
{
    let mut r = String::from_str("[\"error\", \"");
    r.append(kind.as_str());
    r.append("\"");
    let ghost head = r@;
    let mut i: usize = 0;
    while i < args.len()
        invariant
            i <= args.len(),
            r@ == head + quoted_arguments(texts(args@).take(i as int)),
        decreases args.len() - i,
    {
        proof {
            let all = texts(args@);
            assert(all.take(i + 1).drop_last() =~= all.take(i as int));
            assert(all.take(i + 1).last() == args[i as int]@);
        }
        r.append(", ");
        r.append(json_quote(args[i].as_str()).as_str());
        i += 1;
    }
    proof {
        assert(texts(args@).take(i as int) =~= texts(args@));
    }
    r.append("]");
    r
}

/// `wrong-protocol`: the peer speaks a protocol version that is not
/// supported.
#[derive(Debug, PartialEq, Eq)]
pub struct WrongProtocolErrorMessage {
    /// The minimum supported version.
    pub supported: String,
    /// The version that the peer used.
    pub used: String,
}

impl WrongProtocolErrorMessage {
    /// The wire text: `["error", "wrong-protocol", "<supported>", "<used>"]`.
    pub fn to_string(&self) -> (r: String)
        ensures
            r@ == error_text(ErrorMessageKind::WrongProtocol, seq![self.supported@, self.used@]),
    {
        let mut args: Vec<String> = Vec::new();
        args.push(self.supported.clone());
        args.push(self.used.clone());
        assert(texts(args@) =~= seq![self.supported@, self.used@]);
        format_error(ErrorMessageKind::WrongProtocol, &args)
    }
}

/// `wrong-format`: the message is not correct JSON, is not an array, has no
/// kind or does not have the shape of its kind.
#[derive(Debug, PartialEq, Eq)]
pub struct WrongFormatErrorMessage {
    /// What is wrong with the message.
    pub message: String,
}

impl WrongFormatErrorMessage {
    /// The wire text: `["error", "wrong-format", "<message>"]`.
    pub fn to_string(&self) -> (r: String)
        ensures
            r@ == error_text(ErrorMessageKind::WrongFormat, seq![self.message@]),
    {
        let mut args: Vec<String> = Vec::new();
        args.push(self.message.clone());
        assert(texts(args@) =~= seq![self.message@]);
        format_error(ErrorMessageKind::WrongFormat, &args)
    }
}

/// What a decoder returns, by the values of the message and of the error.
pub open spec fn decoded<T: View>(r: Result<T, WrongFormatErrorMessage>) -> Result<
    T::V,
    Seq<char>,
> {
    match r {
        Ok(message) => Ok(message@),
        Err(e) => Err(e.message@),
    }
}

/// `unknown-message`: the message's tag names no kind.
#[derive(Debug, PartialEq, Eq)]
pub struct UnkownMessageErrorMessage {
    /// The tag that the message carried.
    pub message_type: String,
}

impl UnkownMessageErrorMessage {
    /// The wire text: `["error", "unknown-message", "<tag>"]`.
    pub fn to_string(&self) -> (r: String)
        ensures
            r@ == error_text(ErrorMessageKind::UnkownMessage, seq![self.message_type@]),
    {
        let mut args: Vec<String> = Vec::new();
        args.push(self.message_type.clone());
        assert(texts(args@) =~= seq![self.message_type@]);
        format_error(ErrorMessageKind::UnkownMessage, &args)
    }
}

/// `missed-auth`: a message that needs an established session came before
/// the handshake.
#[derive(Debug, PartialEq, Eq)]
pub struct MissedAuthErrorMessage {
    /// The tag of the message that came too early.
    pub message: String,
}

impl MissedAuthErrorMessage {
    /// The wire text: `["error", "missed-auth", "<message>"]`.
    pub fn to_string(&self) -> (r: String)
        ensures
            r@ == error_text(ErrorMessageKind::MissedAuth, seq![self.message@]),
    {
        let mut args: Vec<String> = Vec::new();
        args.push(self.message.clone());
        assert(texts(args@) =~= seq![self.message@]);
        format_error(ErrorMessageKind::MissedAuth, &args)
    }
}

/// `timeout`: the connection stayed idle for too long.
#[derive(Debug, PartialEq, Eq)]
pub struct TimeoutErrorMessage {
    /// How long the connection was idle, in milliseconds, as text.
    pub timeout_duration: String,
}

impl TimeoutErrorMessage {
    /// The wire text: `["error", "timeout", "<duration>"]`.
    pub fn to_string(&self) -> (r: String)
        ensures
            r@ == error_text(ErrorMessageKind::Timeout, seq![self.timeout_duration@]),
    {
        let mut args: Vec<String> = Vec::new();
        args.push(self.timeout_duration.clone());
        assert(texts(args@) =~= seq![self.timeout_duration@]);
        format_error(ErrorMessageKind::Timeout, &args)
    }
}

/// An error with one argument is written as
/// `["error", "<kind>", <argument as a string literal>]`, and one without
/// arguments as `["error", "<kind>"]`.
pub proof fn lemma_error_text_shape(kind: ErrorMessageKind, argument: Seq<char>)
    ensures
        error_text(kind, seq![argument]) == "[\"error\", \""@ + kind.tag() + "\", "@
            + json_string_literal(argument) + "]"@,
        error_text(kind, Seq::empty()) == "[\"error\", \""@ + kind.tag() + "\"]"@,
{
    reveal_strlit("\"");
    reveal_strlit(", ");
    reveal_strlit("]");
    reveal_strlit("\", ");
    reveal_strlit("\"]");
    let head = "[\"error\", \""@ + kind.tag();
    let one = seq![argument];
    assert(one.drop_last() =~= Seq::<Seq<char>>::empty());
    assert(quoted_arguments(one) =~= ", "@ + json_string_literal(argument)) by {
        reveal_with_fuel(quoted_arguments, 2);
    }
    assert(error_text(kind, one) =~= head + "\", "@ + json_string_literal(argument) + "]"@);
    assert(error_text(kind, Seq::empty()) =~= head + "\"]"@);
}

/// An argument without double quotes, backslashes and control characters
/// stands in the text as it is: `["error", "<kind>", "<argument>"]`.
pub proof fn lemma_error_text_of_plain_argument(kind: ErrorMessageKind, argument: Seq<char>)
    requires
        forall|i: int| 0 <= i < argument.len() ==> is_plain_char(#[trigger] argument[i]),
    ensures
        error_text(kind, seq![argument]) == "[\"error\", \""@ + kind.tag() + "\", \""@
            + argument + "\"]"@,
{
    lemma_error_text_shape(kind, argument);
    lemma_plain_text_is_kept(argument);
    reveal_strlit("\", ");
    reveal_strlit("]");
    reveal_strlit("\", \"");
    reveal_strlit("\"]");
    let head = "[\"error\", \""@ + kind.tag();
    assert(head + "\", "@ + (seq!['"'] + argument + seq!['"']) + "]"@ =~= head + "\", \""@
        + argument + "\"]"@);
}

} // verus!
