//! The audit log of a room.

use crate::event::MessageSync;
use crate::ids::{RoomId, UserId};
use vstd::prelude::*;

verus! {

/// One entry of a room's audit log. Entries are only ever appended.
#[derive(Debug, PartialEq, Eq, Hash)]
pub struct AuditLog {
    /// Identifies the entry.
    pub id: u128,
    /// The room in which it happened.
    pub room_id: RoomId,
    /// The user who caused it.
    pub user_id: UserId,
    /// The reason that the user gave.
    pub reason: Option<String>,
    /// The event that was published.
    pub payload: Box<MessageSync>,
    /// The event before it, or `None` where the thing is new.
    pub payload_prev: Option<Box<MessageSync>>,
}

} // verus!
