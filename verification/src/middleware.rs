//! The session hooks: what is told of each decoded message.
//!
//! The hooks of the handshake and keep-alive messages are notification
//! points that do nothing yet. The hook of `sync` pairs each action with its
//! metadata, ready for an action log.

use crate::domain::messages::connect::ConnectMessage;
use crate::domain::messages::connected::ConnectedMessage;
use crate::domain::messages::ping::PingMessage;
use crate::domain::messages::pong::PongMessage;
use crate::domain::messages::sync::SyncMessage;
use crate::json::{Json, JsonValue};
use vstd::prelude::*;

verus! {

/// The pairs of action and metadata in a list of elements: elements 0 and
/// 1, then 2 and 3, and so on. A last element without a partner is in no
/// pair.
pub open spec fn action_pairs(actions: Seq<Json>) -> Seq<(Json, Json)> {
    Seq::new((actions.len() / 2) as nat, |i: int| (actions[2 * i], actions[2 * i + 1]))
}

/// The values of a list of pairs.
pub open spec fn pair_views(pairs: Seq<(&JsonValue, &JsonValue)>) -> Seq<(Json, Json)> {
    Seq::new(pairs.len(), |i: int| (pairs[i].0@, pairs[i].1@))
}

/// Told of a decoded `connect`.
pub fn middleware_connect(_msg: &ConnectMessage) {
}

/// Told of a decoded `connected`.
pub fn middleware_connected(_msg: &ConnectedMessage) {
}

/// Told of a decoded `pong`.
pub fn middleware_pong(_msg: &PongMessage) {
}

/// Told of a decoded `ping`.
pub fn middleware_ping(_msg: &PingMessage) {
}

/// Told of a decoded `sync`: walks its actions two at a time and returns
/// each action with its metadata.
pub fn middleware_sync(msg: &SyncMessage) -> (pairs: Vec<(&JsonValue, &JsonValue)>)
    ensures
        pair_views(pairs@) == action_pairs(msg@.actions),
{
    let mut pairs: Vec<(&JsonValue, &JsonValue)> = Vec::new();
    let n = msg.actions.len();
    let mut i: usize = 0;
    while i + 1 < n
        invariant
            n == msg.actions.len(),
            i % 2 == 0,
            i <= n,
            pairs.len() == i / 2,
            forall|k: int|
                0 <= k < pairs.len() ==> pairs[k].0@ == msg.actions[2 * k]@ && pairs[k].1@
                    == msg.actions[2 * k + 1]@,
        decreases n - i,
    {
        pairs.push((&msg.actions[i], &msg.actions[i + 1]));
        i += 2;
    }
    assert(pair_views(pairs@) =~= action_pairs(msg@.actions));
    pairs
}

} // verus!
