//! The permission resolver: what a user may do in a room and in a thread.
//!
//! The resolver computes on records that the caller has loaded: the user's
//! membership of the room, the roles of the room, and the overwrites of the
//! thread. It never turns a failed load into a denial; it is not called then.

use crate::event::MessageSync;
use crate::ids::{RoleId, RoomId, ThreadId, UserId};
use crate::permission::{Permission, Permissions};
use crate::types::{
    PermissionOverwrite, PermissionOverwriteType, Role, RoomMembership, ThreadMembership,
};
use vstd::prelude::*;

verus! {

/// Whether a member with the assigned roles `held` holds `role`: it is
/// assigned, or it is the default role, which every member holds.
pub open spec fn holds_role(role: Role, held: Seq<RoleId>) -> bool {
    role.is_default || held.contains(role.id)
}

/// The union of the capabilities of the roles in `roles` that a member with
/// the assigned roles `held` holds.
pub open spec fn spec_role_union(roles: Seq<Role>, held: Seq<RoleId>) -> Set<Permission> {
    Set::new(
        |p: Permission|
            exists|i: int|
                0 <= i < roles.len() && holds_role(#[trigger] roles[i], held)
                    && roles[i].permissions@.contains(p),
    )
}

/// The roles assigned by a membership; none unless it is `Join`.
pub open spec fn spec_assigned(membership: Option<RoomMembership>) -> Seq<RoleId> {
    match membership {
        Some(RoomMembership::Join { roles, .. }) => roles@,
        _ => Seq::empty(),
    }
}

/// Whether a membership record says that the user is in the room.
pub open spec fn spec_joined(membership: Option<RoomMembership>) -> bool {
    membership matches Some(RoomMembership::Join { .. })
}

/// What a user may do in a room. A server admin may do everything. One who
/// has not joined, has left or is banned may do nothing. A member may do
/// what its roles allow, and everything if they allow `Admin`.
pub open spec fn spec_for_room(
    membership: Option<RoomMembership>,
    roles: Seq<Role>,
    server_admin: bool,
) -> Set<Permission> {
    if server_admin {
        Permissions::spec_full()
    } else if spec_joined(membership) {
        Permissions::spec_promote(spec_role_union(roles, spec_assigned(membership)))
    } else {
        Set::empty()
    }
}

/// Whether an overwrite is aimed at `user`: at the user itself, or at a role
/// among `roles` that a member with the assigned roles `held` holds.
pub open spec fn overwrite_applies(
    overwrite: PermissionOverwrite,
    user: UserId,
    roles: Seq<Role>,
    held: Seq<RoleId>,
) -> bool {
    match overwrite.ty {
        PermissionOverwriteType::User => overwrite.id == user.0,
        PermissionOverwriteType::Role => exists|i: int|
            0 <= i < roles.len() && (#[trigger] roles[i]).id.0 == overwrite.id && holds_role(
                roles[i],
                held,
            ),
    }
}

/// The set `base` after the overwrites that are aimed at `user` were laid
/// over it one by one, in the order of the list.
pub open spec fn spec_apply_overwrites(
    base: Set<Permission>,
    overwrites: Seq<PermissionOverwrite>,
    user: UserId,
    roles: Seq<Role>,
    held: Seq<RoleId>,
) -> Set<Permission>
    decreases overwrites.len(),
{
    if overwrites.len() == 0 {
        base
    } else {
        let before = spec_apply_overwrites(base, overwrites.drop_last(), user, roles, held);
        let last = overwrites.last();
        if overwrite_applies(last, user, roles, held) {
            Permissions::spec_layer(
                before,
                Permissions::spec_of_seq(last.allow@),
                Permissions::spec_of_seq(last.deny@),
            )
        } else {
            before
        }
    }
}

/// What a user may do in a thread of a room. Whoever may do everything in the
/// room may do everything in the thread, whatever the overwrites say. One who
/// may do nothing in the room, or is banned from the thread, may do nothing.
/// For any other member the thread's overwrites are laid over what the roles
/// allow, and `Admin` in the result stands for everything.
pub open spec fn spec_for_thread(
    user: UserId,
    membership: Option<RoomMembership>,
    thread_membership: Option<ThreadMembership>,
    roles: Seq<Role>,
    overwrites: Seq<PermissionOverwrite>,
    server_admin: bool,
) -> Set<Permission> {
    let room = spec_for_room(membership, roles, server_admin);
    if room.contains(Permission::Admin) {
        Permissions::spec_full()
    } else if !spec_joined(membership) || thread_membership == Some(ThreadMembership::Ban) {
        Set::empty()
    } else {
        Permissions::spec_promote(
            spec_apply_overwrites(room, overwrites, user, roles, spec_assigned(membership)),
        )
    }
}

/// Whether two users share a room, given the rooms that each is a member of.
pub open spec fn spec_is_mutual(rooms_a: Seq<RoomId>, rooms_b: Seq<RoomId>) -> bool {
    exists|i: int, j: int|
        0 <= i < rooms_a.len() && 0 <= j < rooms_b.len() && rooms_a[i] == rooms_b[j]
}

/// Whether `id` occurs in `ids`.
fn contains_role(ids: &[RoleId], id: RoleId) -> (r: bool)
    ensures
        r == ids@.contains(id),
{
    let mut i: usize = 0;
    while i < ids.len()
        invariant
            i <= ids.len(),
            forall|k: int| 0 <= k < i ==> ids@[k] != id,
        decreases ids.len() - i,
    {
        if ids[i] == id {
            return true;
        }
        i += 1;
    }
    false
}

/// Whether a member with the assigned roles `held` holds `role`.
fn role_held(role: &Role, held: &[RoleId]) -> (r: bool)
    ensures
        r == holds_role(*role, held@),
{
    role.is_default || contains_role(held, role.id)
}

/// The union of the capabilities of the roles that the member holds.
fn role_union(roles: &[Role], held: &[RoleId]) -> (r: Permissions)
    ensures
        r@ == spec_role_union(roles@, held@),
{
    let mut acc = Permissions::empty();
    let mut i: usize = 0;
    proof {
        assert(acc@ =~= spec_role_union(roles@.take(0), held@));
    }
    while i < roles.len()
        invariant
            i <= roles.len(),
            acc@ == spec_role_union(roles@.take(i as int), held@),
        decreases roles.len() - i,
    {
        let role = &roles[i];
        let ghost before = acc@;
        if role_held(role, held) {
            let granted = Permissions::from_slice(role.permissions.as_slice());
            acc = acc.union(&granted);
        }
        proof {
            let a = roles@.take(i as int);
            let b = roles@.take(i + 1);
            assert forall|p: Permission| acc@.contains(p) == spec_role_union(b, held@).contains(
                p,
            ) by {
                if before.contains(p) {
                    let k = choose|k: int|
                        0 <= k < a.len() && holds_role(#[trigger] a[k], held@)
                            && a[k].permissions@.contains(p);
                    assert(b[k] == a[k]);
                }
                if holds_role(*role, held@) && role.permissions@.contains(p) {
                    assert(b[i as int] == *role);
                }
                if spec_role_union(b, held@).contains(p) {
                    let k = choose|k: int|
                        0 <= k < b.len() && holds_role(#[trigger] b[k], held@)
                            && b[k].permissions@.contains(p);
                    if k < i {
                        assert(a[k] == b[k]);
                    }
                }
            }
            assert(acc@ =~= spec_role_union(b, held@));
        }
        i += 1;
    }
    proof {
        assert(roles@.take(roles.len() as int) =~= roles@);
    }
    acc
}

/// What a user may do in a room, from the user's membership record, the
/// room's roles, and whether the user is a server admin.
pub fn permissions_for_room(
    membership: Option<&RoomMembership>,
    roles: &[Role],
    server_admin: bool,
) -> (r: Permissions)
    ensures
        r@ == spec_for_room(
            match membership {
                Some(m) => Some(*m),
                None => None,
            },
            roles@,
            server_admin,
        ),
        r@.contains(Permission::Admin) ==> r@ == Permissions::spec_full(),
{
    if server_admin {
        return Permissions::full();
    }
    match membership {
        Some(RoomMembership::Join { roles: held, .. }) => role_union(
            roles,
            held.as_slice(),
        ).promote(),
        _ => Permissions::empty(),
    }
}

/// Whether an overwrite is aimed at `user`.
fn applies(overwrite: &PermissionOverwrite, user: UserId, roles: &[Role], held: &[RoleId]) -> (r:
    bool)
    ensures
        r == overwrite_applies(*overwrite, user, roles@, held@),
{
    match overwrite.ty {
        PermissionOverwriteType::User => overwrite.id == user.0,
        PermissionOverwriteType::Role => {
            let mut i: usize = 0;
            while i < roles.len()
                invariant
                    i <= roles.len(),
                    overwrite.ty == PermissionOverwriteType::Role,
                    forall|k: int|
                        0 <= k < i ==> !((#[trigger] roles@[k]).id.0 == overwrite.id && holds_role(
                            roles@[k],
                            held@,
                        )),
                decreases roles.len() - i,
            {
                if roles[i].id.0 == overwrite.id && role_held(&roles[i], held) {
                    assert(roles@[i as int].id.0 == overwrite.id && holds_role(
                        roles@[i as int],
                        held@,
                    ));
                    return true;
                }
                i += 1;
            }
            false
        },
    }
}

/// What a user may do in a thread, from the user's membership of the room
/// and of the thread, the room's roles, the thread's overwrites in their
/// stored order, and whether the user is a server admin.
pub fn permissions_for_thread(
    user: UserId,
    membership: Option<&RoomMembership>,
    thread_membership: Option<&ThreadMembership>,
    roles: &[Role],
    overwrites: &[PermissionOverwrite],
    server_admin: bool,
) -> (r: Permissions)
    ensures
        r@ == spec_for_thread(
            user,
            match membership {
                Some(m) => Some(*m),
                None => None,
            },
            match thread_membership {
                Some(m) => Some(*m),
                None => None,
            },
            roles@,
            overwrites@,
            server_admin,
        ),
        r@.contains(Permission::Admin) ==> r@ == Permissions::spec_full(),
{
    let room = permissions_for_room(membership, roles, server_admin);
    if room.contains(Permission::Admin) {
        return Permissions::full();
    }
    let held = match membership {
        Some(RoomMembership::Join { roles: held, .. }) => held.as_slice(),
        _ => {
            return Permissions::empty();
        },
    };
    if let Some(ThreadMembership::Ban) = thread_membership {
        return Permissions::empty();
    }
    let mut acc = room;
    let mut i: usize = 0;
    while i < overwrites.len()
        invariant
            i <= overwrites.len(),
            acc@ == spec_apply_overwrites(room@, overwrites@.take(i as int), user, roles@, held@),
        decreases overwrites.len() - i,
    {
        let o = &overwrites[i];
        proof {
            assert(overwrites@.take(i + 1).drop_last() =~= overwrites@.take(i as int));
        }
        if applies(o, user, roles, held) {
            let allow = Permissions::from_slice(o.allow.as_slice());
            let deny = Permissions::from_slice(o.deny.as_slice());
            acc = acc.layer(&allow, &deny);
        }
        i += 1;
    }
    proof {
        assert(overwrites@.take(overwrites.len() as int) =~= overwrites@);
    }
    acc.promote()
}

/// Whether two users share a room, given the rooms that each is a member of.
pub fn is_mutual(rooms_a: &[RoomId], rooms_b: &[RoomId]) -> (r: bool)
    ensures
        r == spec_is_mutual(rooms_a@, rooms_b@),
{
    let mut i: usize = 0;
    while i < rooms_a.len()
        invariant
            i <= rooms_a.len(),
            forall|a: int, b: int|
                0 <= a < i && 0 <= b < rooms_b.len() ==> rooms_a@[a] != rooms_b@[b],
        decreases rooms_a.len() - i,
    {
        let mut j: usize = 0;
        while j < rooms_b.len()
            invariant
                i < rooms_a.len(),
                j <= rooms_b.len(),
                forall|b: int| 0 <= b < j ==> rooms_a@[i as int] != rooms_b@[b],
            decreases rooms_b.len() - j,
        {
            if rooms_a[i] == rooms_b[j] {
                return true;
            }
            j += 1;
        }
        i += 1;
    }
    false
}

/// What has to leave the caches of the resolver when something changes.
#[derive(Clone, Copy, Debug, PartialEq, Eq, Structural, Hash)]
pub enum Invalidation {
    /// What one user may do in a room and in its threads.
    Room { user_id: UserId, room_id: RoomId },
    /// What anybody may do in a room and in its threads.
    RoomEveryone { room_id: RoomId },
    /// What one user may do in a thread.
    Thread { user_id: UserId, thread_id: ThreadId },
    /// What anybody may do in a thread.
    ThreadEveryone { thread_id: ThreadId },
    /// With whom one user shares a room.
    Mutual { user_id: UserId },
}

/// The one table of what an event makes stale. A change of a role touches
/// everybody in its room. A change of a membership touches the member where
/// it changed, and the rooms that the member shares with others. A change
/// of a thread may be a change of its overwrites and touches everybody in
/// the thread. No other event touches what the resolver keeps.
pub open spec fn spec_invalidations(msg: MessageSync) -> Seq<Invalidation> {
    match msg {
        MessageSync::RoleCreate { room_id } => seq![Invalidation::RoomEveryone { room_id }],
        MessageSync::RoleUpdate { room_id } => seq![Invalidation::RoomEveryone { room_id }],
        MessageSync::RoleDelete { room_id } => seq![Invalidation::RoomEveryone { room_id }],
        MessageSync::RoomMemberUpsert { room_id, user_id } => seq![
            Invalidation::Room { user_id, room_id },
            Invalidation::Mutual { user_id },
        ],
        MessageSync::ThreadMemberUpsert { thread_id, user_id } => seq![
            Invalidation::Thread { user_id, thread_id },
            Invalidation::Mutual { user_id },
        ],
        MessageSync::ThreadUpdate { thread_id } => seq![Invalidation::ThreadEveryone { thread_id }],
        _ => Seq::empty(),
    }
}

/// What `msg` makes stale in the caches of the resolver.
pub fn invalidations(msg: &MessageSync) -> (r: Vec<Invalidation>)
    ensures
        r@ == spec_invalidations(*msg),
{
    let mut out: Vec<Invalidation> = Vec::new();
    match msg {
        MessageSync::RoleCreate { room_id } => {
            out.push(Invalidation::RoomEveryone { room_id: *room_id });
        },
        MessageSync::RoleUpdate { room_id } => {
            out.push(Invalidation::RoomEveryone { room_id: *room_id });
        },
        MessageSync::RoleDelete { room_id } => {
            out.push(Invalidation::RoomEveryone { room_id: *room_id });
        },
        MessageSync::RoomMemberUpsert { room_id, user_id } => {
            out.push(Invalidation::Room { user_id: *user_id, room_id: *room_id });
            out.push(Invalidation::Mutual { user_id: *user_id });
        },
        MessageSync::ThreadMemberUpsert { thread_id, user_id } => {
            out.push(Invalidation::Thread { user_id: *user_id, thread_id: *thread_id });
            out.push(Invalidation::Mutual { user_id: *user_id });
        },
        MessageSync::ThreadUpdate { thread_id } => {
            out.push(Invalidation::ThreadEveryone { thread_id: *thread_id });
        },
        _ => {},
    }
    proof {
        assert(out@ =~= spec_invalidations(*msg));
    }
    out
}

/// Whoever holds `Admin` in a room may do everything in the room.
pub proof fn lemma_room_admin_implies_all(
    membership: Option<RoomMembership>,
    roles: Seq<Role>,
    server_admin: bool,
    p: Permission,
)
    requires
        spec_for_room(membership, roles, server_admin).contains(Permission::Admin),
    ensures
        spec_for_room(membership, roles, server_admin).contains(p),
{
}

/// Whoever holds `Admin` in a room may do everything in each of its threads:
/// no overwrite and no ban from the thread takes anything away.
pub proof fn lemma_thread_admin_implies_all(
    user: UserId,
    membership: Option<RoomMembership>,
    thread_membership: Option<ThreadMembership>,
    roles: Seq<Role>,
    overwrites: Seq<PermissionOverwrite>,
    server_admin: bool,
    p: Permission,
)
    requires
        spec_for_room(membership, roles, server_admin).contains(Permission::Admin),
    ensures
        spec_for_thread(user, membership, thread_membership, roles, overwrites, server_admin)
            == Permissions::spec_full(),
        spec_for_thread(
            user,
            membership,
            thread_membership,
            roles,
            overwrites,
            server_admin,
        ).contains(p),
{
}

/// Where `Admin` is among what a user may do in a thread, the user may do
/// everything there.
pub proof fn lemma_thread_admin_is_full(
    user: UserId,
    membership: Option<RoomMembership>,
    thread_membership: Option<ThreadMembership>,
    roles: Seq<Role>,
    overwrites: Seq<PermissionOverwrite>,
    server_admin: bool,
    p: Permission,
)
    requires
        spec_for_thread(
            user,
            membership,
            thread_membership,
            roles,
            overwrites,
            server_admin,
        ).contains(Permission::Admin),
    ensures
        spec_for_thread(
            user,
            membership,
            thread_membership,
            roles,
            overwrites,
            server_admin,
        ).contains(p),
{
}

/// Deny wins in a thread: a capability that the last overwrite aimed at the
/// user denies is not among what the user may do there, unless the user may
/// do everything.
pub proof fn lemma_thread_deny_wins(
    user: UserId,
    membership: Option<RoomMembership>,
    thread_membership: Option<ThreadMembership>,
    roles: Seq<Role>,
    overwrites: Seq<PermissionOverwrite>,
    server_admin: bool,
    p: Permission,
)
    requires
        overwrites.len() > 0,
        overwrite_applies(overwrites.last(), user, roles, spec_assigned(membership)),
        overwrites.last().deny@.contains(p),
        !spec_for_thread(
            user,
            membership,
            thread_membership,
            roles,
            overwrites,
            server_admin,
        ).contains(Permission::Admin),
    ensures
        !spec_for_thread(
            user,
            membership,
            thread_membership,
            roles,
            overwrites,
            server_admin,
        ).contains(p),
{
    lemma_overwrite_deny_wins(
        spec_for_room(membership, roles, server_admin),
        overwrites,
        user,
        roles,
        spec_assigned(membership),
        p,
    );
}

/// Deny wins: a capability that the last overwrite aimed at the user denies
/// is absent from what its layers leave, whatever the roles and the earlier
/// overwrites allow.
pub proof fn lemma_overwrite_deny_wins(
    base: Set<Permission>,
    overwrites: Seq<PermissionOverwrite>,
    user: UserId,
    roles: Seq<Role>,
    held: Seq<RoleId>,
    p: Permission,
)
    requires
        overwrites.len() > 0,
        overwrite_applies(overwrites.last(), user, roles, held),
        overwrites.last().deny@.contains(p),
    ensures
        !spec_apply_overwrites(base, overwrites, user, roles, held).contains(p),
{
}

} // verus!
