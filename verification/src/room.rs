//! The rules of the room service: when a change is a change, and the roles
//! that a new room starts with.

use crate::data::DbRoleCreate;
use crate::error::Error;
use crate::ids::{MediaId, RoomId};
use crate::media::Room;
use crate::permission::Permission;
use vstd::prelude::*;

verus! {

/// A request to create a room.
#[derive(Debug, PartialEq, Eq, Hash)]
pub struct RoomCreate {
    pub name: String,
    pub description: Option<String>,
    pub icon: Option<MediaId>,
}

/// A request to change a room. An outer `None` leaves a field as it is; an
/// inner `None` clears it.
#[derive(Debug, PartialEq, Eq, Hash)]
pub struct RoomPatch {
    pub name: Option<String>,
    pub description: Option<Option<String>>,
    pub icon: Option<Option<MediaId>>,
}

/// The roles that a new room starts with.
#[derive(Debug, PartialEq, Eq, Hash)]
pub struct RoomRoles {
    /// The role of the creator.
    pub admin: DbRoleCreate,
    pub moderator: DbRoleCreate,
    /// The default role.
    pub everyone: DbRoleCreate,
}

/// The text of an optional string.
pub open spec fn spec_text(s: Option<String>) -> Option<Seq<char>> {
    match s {
        Some(s) => Some(s@),
        None => None,
    }
}

/// Whether `role` is the role of `room_id` with the given name and
/// capabilities, that is or is not the default role, has no description,
/// cannot be taken by members themselves and cannot be mentioned.
pub open spec fn spec_is_role(
    role: DbRoleCreate,
    room_id: RoomId,
    name: Seq<char>,
    permissions: Seq<Permission>,
    is_default: bool,
) -> bool {
    &&& role.room_id == room_id
    &&& role.name@ == name
    &&& role.description is None
    &&& role.permissions@ == permissions
    &&& !role.is_self_applicable
    &&& !role.is_mentionable
    &&& role.is_default == is_default
}

impl RoomPatch {
    /// Whether the patch sets a field to something else than `room` has
    /// there.
    pub open spec fn spec_changes(self, room: Room) -> bool {
        ||| self.name matches Some(n) && n@ != room.name@
        ||| self.description matches Some(d) && spec_text(d) != spec_text(room.description)
        ||| self.icon matches Some(i) && i != room.icon
    }

    /// Whether the patch would change `room`.
    pub fn changes(&self, room: &Room) -> (r: bool)
        ensures
            r == self.spec_changes(*room),
    {
        let name = match &self.name {
            Some(n) => *n != room.name,
            None => false,
        };
        let description = match &self.description {
            Some(d) => match (d, &room.description) {
                (Some(a), Some(b)) => *a != *b,
                (None, None) => false,
                _ => true,
            },
            None => false,
        };
        let icon = match &self.icon {
            Some(i) => match (i, &room.icon) {
                (Some(a), Some(b)) => a.0 != b.0,
                (None, None) => false,
                _ => true,
            },
            None => false,
        };
        name || description || icon
    }
}

/// Decides a request to change the room `start`: a patch that changes
/// nothing is refused as such.
pub fn update(start: &Room, patch: &RoomPatch) -> (r: Result<(), Error>)
    ensures
        r == if patch.spec_changes(*start) {
            Ok::<(), Error>(())
        } else {
            Err::<(), Error>(Error::NotModified)
        },
{
    if !patch.changes(start) {
        return Err(Error::NotModified);
    }
    Ok(())
}

fn role(room_id: RoomId, name: &str, permissions: Vec<Permission>, is_default: bool) -> (r:
    DbRoleCreate)
    ensures
        spec_is_role(r, room_id, name@, permissions@, is_default),
{
    DbRoleCreate {
        room_id,
        name: name.to_owned(),
        description: None,
        permissions,
        is_self_applicable: false,
        is_mentionable: false,
        is_default,
    }
}

/// The roles that the new room `room_id` starts with: "admin" with `Admin`
/// alone, which its creator gets; "moderator" with the capabilities in
/// `moderator`; and "everyone" with those in `everyone`, the default role.
pub fn create(room_id: RoomId, moderator: Vec<Permission>, everyone: Vec<Permission>) -> (r:
    RoomRoles)
    ensures
        spec_is_role(r.admin, room_id, "admin"@, seq![Permission::Admin], false),
        spec_is_role(r.moderator, room_id, "moderator"@, moderator@, false),
        spec_is_role(r.everyone, room_id, "everyone"@, everyone@, true),
{
    let mut admin: Vec<Permission> = Vec::new();
    admin.push(Permission::Admin);
    proof {
        assert(admin@ =~= seq![Permission::Admin]);
    }
    RoomRoles {
        admin: role(room_id, "admin", admin, false),
        moderator: role(room_id, "moderator", moderator, false),
        everyone: role(room_id, "everyone", everyone, true),
    }
}

/// The request that creates the room of a conversation between two users.
pub fn create_dm_room() -> (r: RoomCreate)
    ensures
        r.name@ == "(dm)"@,
        r.description is None,
        r.icon is None,
{
    RoomCreate { name: "(dm)".to_owned(), description: None, icon: None }
}

/// The one role of the room `room_id` of a conversation between two users:
/// "default", the default role, with `Admin` alone, so that both may do
/// everything in it.
pub fn create_dm(room_id: RoomId) -> (r: DbRoleCreate)
    ensures
        spec_is_role(r, room_id, "default"@, seq![Permission::Admin], true),
{
    let mut admin: Vec<Permission> = Vec::new();
    admin.push(Permission::Admin);
    proof {
        assert(admin@ =~= seq![Permission::Admin]);
    }
    role(room_id, "default", admin, true)
}

} // verus!
