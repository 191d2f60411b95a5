//! `sync`: carries actions and their metadata from one node's log to the
//! other's.

use crate::domain::messages::error::{decoded, WrongFormatErrorMessage};
use crate::json::{views, Json, JsonValue};
use vstd::prelude::*;

verus! {

/// A `sync` message.
#[derive(Debug, PartialEq, Eq)]
pub struct SyncMessage {
    /// The checkpoint of the last action in this message.
    pub synced: u64,
    /// The elements behind the checkpoint, as they came: an action, its
    /// metadata, the next action, and so on.
    pub actions: Vec<JsonValue>,
}

/// The mathematical value of a [`SyncMessage`].
pub struct SyncView {
    pub synced: u64,
    pub actions: Seq<Json>,
}

impl View for SyncMessage {
    type V = SyncView;

    open spec fn view(&self) -> SyncView {
        SyncView { synced: self.synced, actions: views(self.actions@) }
    }
}

/// The message of the error for elements that lack the tag or the
/// checkpoint of a `sync`.
pub open spec fn invalid_sync() -> Seq<char> {
    "Invalid sync type, please refer to the documentation."@
}

/// The message of the error for a `sync` whose checkpoint is not an
/// unsigned 64-bit integer.
pub open spec fn invalid_sync_number() -> Seq<char> {
    "Invalid synced number, please refer to the documentation."@
}

/// What to make of a `sync` whose last action has no metadata.
#[derive(Debug, Clone, Copy, PartialEq, Eq, Structural)]
pub enum OddActions {
    /// Take the message as it is: the lone action stays in `actions`.
    Accept,
    /// Refuse the message as malformed.
    Reject,
}

/// The message of the error for a `sync` that is refused because its last
/// action has no metadata.
pub open spec fn invalid_sync_pairs() -> Seq<char> {
    "Invalid sync actions, please refer to the documentation."@
}

/// The `sync` message that the elements of an array hold, or the message of
/// the `wrong-format` error that they earn. Every element behind the
/// checkpoint is an action or its metadata, whatever it is; an odd number of
/// them is an error only where the caller rejects it.
pub open spec fn sync_of_with(items: Seq<Json>, odd_actions: OddActions) -> Result<
    SyncView,
    Seq<char>,
> {
    if items.len() < 2 || !(items[0] is String) {
        Err(invalid_sync())
    } else if items[1].as_u64() is None {
        Err(invalid_sync_number())
    } else if odd_actions is Reject && items.len() % 2 == 1 {
        Err(invalid_sync_pairs())
    } else {
        Ok(SyncView { synced: items[1].as_u64()->0, actions: items.skip(2) })
    }
}

/// The `sync` message that the elements of an array hold where an odd number
/// of actions is accepted, as the dispatcher does.
pub open spec fn sync_of(items: Seq<Json>) -> Result<SyncView, Seq<char>> {
    sync_of_with(items, OddActions::Accept)
}

/// Decodes the elements of an array as a `sync` message, whatever the number
/// of its actions.
pub fn decode_sync_message(vec: &[JsonValue]) -> (r: Result<SyncMessage, WrongFormatErrorMessage>)
    ensures
        decoded(r) == sync_of(views(vec@)),
{
    decode_sync_message_with(vec, OddActions::Accept)
}

/// Decodes the elements of an array as a `sync` message, and accepts or
/// rejects an odd number of actions as the caller says.
pub fn decode_sync_message_with(vec: &[JsonValue], odd_actions: OddActions) -> (r: Result<
    SyncMessage,
    WrongFormatErrorMessage,
>)
    ensures
        decoded(r) == sync_of_with(views(vec@), odd_actions),
{
    if vec.len() < 2 || vec[0].as_string().is_none() {
        return Err(
            WrongFormatErrorMessage {
                message: String::from_str("Invalid sync type, please refer to the documentation."),
            },
        );
    }
    match vec[1].as_u64() {
        Some(synced) => {
            if vec.len() % 2 == 1 {
                match odd_actions {
                    OddActions::Reject => {
                        return Err(
                            WrongFormatErrorMessage {
                                message: String::from_str(
                                    "Invalid sync actions, please refer to the documentation.",
                                ),
                            },
                        );
                    },
                    OddActions::Accept => {},
                }
            }
            let mut actions: Vec<JsonValue> = Vec::new();
            let mut i: usize = 2;
            while i < vec.len()
                invariant
                    2 <= i <= vec.len(),
                    actions.len() == i - 2,
                    forall|k: int| 0 <= k < actions.len() ==> actions[k]@ == vec[k + 2]@,
                decreases vec.len() - i,
            {
                actions.push(vec[i].clone());
                i += 1;
            }
            assert(views(actions@) =~= views(vec@).skip(2));
            Ok(SyncMessage { synced, actions })
        },
        None => Err(
            WrongFormatErrorMessage {
                message: String::from_str(
                    "Invalid synced number, please refer to the documentation.",
                ),
            },
        ),
    }
}

/// Fewer than two elements, or a tag or a checkpoint of the wrong type, are
/// no `sync`.
pub proof fn lemma_sync_refused(items: Seq<Json>)
    requires
        items.len() < 2 || !(items[0] is String) || items[1].as_u64() is None,
    ensures
        sync_of(items) is Err,
        sync_of_with(items, OddActions::Reject) is Err,
{
}

/// A `sync` holds as actions every element behind its checkpoint, in order
/// and unchanged; where there is none, it holds no action.
pub proof fn lemma_sync_keeps_actions(items: Seq<Json>)
    requires
        sync_of(items) is Ok,
    ensures
        sync_of(items)->Ok_0.actions.len() == items.len() - 2,
        forall|i: int|
            0 <= i < items.len() - 2 ==> sync_of(items)->Ok_0.actions[i] == items[i + 2],
{
}

} // verus!
