//! Opaque identifiers. Every identifier is a 128-bit number; the wrapper types
//! keep identifiers of different kinds apart.

use vstd::prelude::*;

verus! {

/// Identifies a user account.
#[derive(Clone, Copy, Debug, PartialEq, Eq, Structural, Hash)]
pub struct UserId(pub u128);

/// Identifies a room.
#[derive(Clone, Copy, Debug, PartialEq, Eq, Structural, Hash)]
pub struct RoomId(pub u128);

/// Identifies a thread.
#[derive(Clone, Copy, Debug, PartialEq, Eq, Structural, Hash)]
pub struct ThreadId(pub u128);

/// Identifies a session.
#[derive(Clone, Copy, Debug, PartialEq, Eq, Structural, Hash)]
pub struct SessionId(pub u128);

/// Identifies a message.
#[derive(Clone, Copy, Debug, PartialEq, Eq, Structural, Hash)]
pub struct MessageId(pub u128);

/// Identifies a role.
#[derive(Clone, Copy, Debug, PartialEq, Eq, Structural, Hash)]
pub struct RoleId(pub u128);

/// Identifies a stored media item.
#[derive(Clone, Copy, Debug, PartialEq, Eq, Structural, Hash)]
pub struct MediaId(pub u128);

/// Identifies an application.
#[derive(Clone, Copy, Debug, PartialEq, Eq, Structural, Hash)]
pub struct ApplicationId(pub u128);

/// A point in time, in nanoseconds since the Unix epoch.
#[derive(Clone, Copy, Debug, PartialEq, Eq, Structural, Hash)]
pub struct Time(pub i128);

/// Draws a random identifier with `uuid::Uuid::new_v4` and writes it in the
/// crate's hyphenated form, which is 36 characters long. Nothing else is
/// claimed of it: it is random.
#[verifier::external_body]
pub(crate) fn random_id_string() -> (id: String)
    ensures
        id@.len() == 36,
{
    uuid::Uuid::new_v4().hyphenated().to_string()
}

} // verus!
