//! The records that the core reads: members, roles and overwrites.

use crate::ids::{RoleId, RoomId};
use crate::permission::Permission;
use vstd::prelude::*;

verus! {

/// Where a user stands with a room.
#[derive(Clone, Debug, PartialEq, Eq, Hash)]
pub enum RoomMembership {
    /// A member, with the roles assigned to it in the room.
    Join {
        override_name: Option<String>,
        override_description: Option<String>,
        roles: Vec<RoleId>,
    },
    Leave,
    Ban,
}

/// Where a user stands with a thread.
#[derive(Clone, Debug, PartialEq, Eq, Hash)]
pub enum ThreadMembership {
    Join { override_name: Option<String>, override_description: Option<String> },
    Leave,
    Ban,
}

/// A role of a room: a named bundle of capabilities.
#[derive(Clone, Debug, PartialEq, Eq, Hash)]
pub struct Role {
    pub id: RoleId,
    pub version_id: u128,
    pub room_id: RoomId,
    pub name: String,
    pub description: Option<String>,
    pub permissions: Vec<Permission>,
    pub is_self_applicable: bool,
    pub is_mentionable: bool,
    /// The default role is held by every member of the room.
    pub is_default: bool,
}

/// What an overwrite is aimed at.
#[derive(Clone, Copy, Debug, PartialEq, Eq, Structural, Hash)]
pub enum PermissionOverwriteType {
    /// One user; the overwrite's `id` is the user's.
    User,
    /// The holders of one role; the overwrite's `id` is the role's.
    Role,
}

/// Capabilities allowed and denied on one thread, for one user or role.
#[derive(Clone, Debug, PartialEq, Eq, Hash)]
pub struct PermissionOverwrite {
    pub id: u128,
    pub ty: PermissionOverwriteType,
    pub allow: Vec<Permission>,
    pub deny: Vec<Permission>,
}

} // verus!
