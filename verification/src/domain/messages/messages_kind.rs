//! The registry of message kinds: each kind and its wire tag.

use vstd::prelude::*;

verus! {

/// The kinds of message that the protocol knows.
#[derive(Debug, Clone, Copy, PartialEq, Eq, Structural)]
pub enum MessageKind {
    Error,
    Connect,
    Connected,
    Ping,
    Pong,
    Sync,
    Synced,
    Debug,
}

impl MessageKind {
    /// The wire tag of a kind: element 0 of every message of that kind.
    pub open spec fn tag(self) -> Seq<char> {
        match self {
            MessageKind::Error => "error"@,
            MessageKind::Connect => "connect"@,
            MessageKind::Connected => "connected"@,
            MessageKind::Ping => "ping"@,
            MessageKind::Pong => "pong"@,
            MessageKind::Sync => "sync"@,
            MessageKind::Synced => "synced"@,
            MessageKind::Debug => "debug"@,
        }
    }

    /// The kind that a tag names, if any.
    pub open spec fn of_tag(tag: Seq<char>) -> Option<MessageKind> {
        if tag == "error"@ {
            Some(MessageKind::Error)
        } else if tag == "connect"@ {
            Some(MessageKind::Connect)
        } else if tag == "connected"@ {
            Some(MessageKind::Connected)
        } else if tag == "ping"@ {
            Some(MessageKind::Ping)
        } else if tag == "pong"@ {
            Some(MessageKind::Pong)
        } else if tag == "sync"@ {
            Some(MessageKind::Sync)
        } else if tag == "synced"@ {
            Some(MessageKind::Synced)
        } else if tag == "debug"@ {
            Some(MessageKind::Debug)
        } else {
            None
        }
    }

    /// The wire tag of this kind.
    pub fn as_str(&self) -> (r: &'static str)
        ensures
            r@ == self.tag(),
    {
        match self {
            MessageKind::Error => "error",
            MessageKind::Connect => "connect",
            MessageKind::Connected => "connected",
            MessageKind::Ping => "ping",
            MessageKind::Pong => "pong",
            MessageKind::Sync => "sync",
            MessageKind::Synced => "synced",
            MessageKind::Debug => "debug",
        }
    }

    /// The wire tag of this kind, as an owned string.
    pub fn to_string(&self) -> (r: String)
        ensures
            r@ == self.tag(),
    {
        String::from_str(self.as_str())
    }

    /// Looks a tag up in the registry. `None` means that no kind has this
    /// tag.
    pub fn from_tag(tag: &str) -> (r: Option<MessageKind>)
        ensures
            r == Self::of_tag(tag@),
    {
        let tag = String::from_str(tag);
        if tag == String::from_str("error") {
            Some(MessageKind::Error)
        } else if tag == String::from_str("connect") {
            Some(MessageKind::Connect)
        } else if tag == String::from_str("connected") {
            Some(MessageKind::Connected)
        } else if tag == String::from_str("ping") {
            Some(MessageKind::Ping)
        } else if tag == String::from_str("pong") {
            Some(MessageKind::Pong)
        } else if tag == String::from_str("sync") {
            Some(MessageKind::Sync)
        } else if tag == String::from_str("synced") {
            Some(MessageKind::Synced)
        } else if tag == String::from_str("debug") {
            Some(MessageKind::Debug)
        } else {
            None
        }
    }
}

/// The registry is one to one: the tag of a kind is looked up as that kind,
/// and a tag that is looked up as a kind is that kind's tag.
pub proof fn lemma_registry_is_a_bijection(kind: MessageKind, tag: Seq<char>)
    ensures
        MessageKind::of_tag(kind.tag()) == Some(kind),
        MessageKind::of_tag(tag) == Some(kind) ==> tag == kind.tag(),
{
    reveal_strlit("error");
    reveal_strlit("connect");
    reveal_strlit("connected");
    reveal_strlit("ping");
    reveal_strlit("pong");
    reveal_strlit("sync");
    reveal_strlit("synced");
    reveal_strlit("debug");
    assert("error"@.len() == 5);
    assert("connect"@.len() == 7);
    assert("connected"@.len() == 9);
    assert("ping"@[1] == 'i');
    assert("pong"@[1] == 'o');
    assert("sync"@.len() == 4);
    assert("synced"@.len() == 6);
    assert("debug"@[0] == 'd');
    assert("sync"@[0] == 's');
    assert("ping"@[0] == 'p');
    assert("error"@[0] == 'e');
}

} // verus!
