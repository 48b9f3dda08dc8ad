//! Invites: who may manage them, what a stranger sees of them, and the codes
//! they go by.

use crate::error::{Error, Reason};
use crate::event::{InviteTargetId, MessageSync};
use crate::ids::{RoomId, ThreadId, Time, UserId};
use crate::permission::{Permission, Permissions};
use vstd::prelude::*;

verus! {

/// The number of characters of an invite code.
pub const INVITE_CODE_LEN: usize = 8;

/// An invite.
#[derive(Debug, PartialEq, Eq, Hash)]
pub struct Invite {
    pub code: String,
    pub target: InviteTargetId,
    pub creator_id: UserId,
    pub created_at: Time,
    pub expires_at: Option<Time>,
    pub description: Option<String>,
}

/// An invite with the record of its use.
#[derive(Debug, PartialEq, Eq, Hash)]
pub struct InviteWithMetadata {
    pub max_uses: Option<u64>,
    pub uses: u64,
    pub invite: Invite,
}

/// An invite as one viewer gets it: with the record of its use or without.
#[derive(Debug, PartialEq, Eq, Hash)]
pub enum InviteWithPotentialMetadata {
    Invite(Invite),
    InviteWithMetadata(InviteWithMetadata),
}

/// What was resolved about a user for the target of an invite.
#[derive(Clone, Copy, Debug, PartialEq, Eq, Structural, Hash)]
pub enum Authority {
    /// What the user may do in the room of a room invite.
    Room(Permissions),
    /// What the user may do in the thread of a thread invite.
    Thread(Permissions),
    /// Whether the user is a server admin, for a server invite.
    Server(bool),
}

/// Where an event is to be published.
#[derive(Debug, PartialEq, Eq, Hash)]
pub enum Publish {
    /// Nowhere.
    Nothing,
    /// In a room, with an entry in its audit log where the event calls for
    /// one.
    Room { room_id: RoomId, msg: MessageSync },
    /// In a thread.
    Thread { thread_id: ThreadId, msg: MessageSync },
    /// On the bus, with no audit.
    Everyone { msg: MessageSync },
}

/// What using an invite does.
#[derive(Clone, Copy, Debug, PartialEq, Eq, Structural, Hash)]
pub enum InviteUse {
    /// The user joins the room, gets its default role, and the room learns
    /// of the new member.
    JoinRoom { room_id: RoomId },
    /// The user's account becomes a full account.
    Register,
}

impl Clone for Invite {
    fn clone(&self) -> (r: Self)
        ensures
            r == *self,
    {
        Invite {
            code: self.code.clone(),
            target: self.target,
            creator_id: self.creator_id,
            created_at: self.created_at,
            expires_at: self.expires_at,
            description: match &self.description {
                Some(d) => Some(d.clone()),
                None => None,
            },
        }
    }
}

impl Clone for InviteWithMetadata {
    fn clone(&self) -> (r: Self)
        ensures
            r == *self,
    {
        InviteWithMetadata { max_uses: self.max_uses, uses: self.uses, invite: self.invite.clone() }
    }
}

impl InviteWithMetadata {
    /// The invite without the record of its use.
    pub fn strip_metadata(self) -> (r: Invite)
        ensures
            r == self.invite,
    {
        self.invite
    }
}

/// Whether `authority` lets its holder manage an invite with the target
/// `target`: `InviteManage` in the room or thread that the invite leads to,
/// or being a server admin for a server invite. An authority of another kind
/// than the target lets nobody do anything.
pub open spec fn spec_has_authority(target: InviteTargetId, authority: Authority) -> bool {
    match (target, authority) {
        (InviteTargetId::Room { .. }, Authority::Room(p)) => Permissions::spec_has(
            p@,
            Permission::InviteManage,
        ),
        (InviteTargetId::Thread { .. }, Authority::Thread(p)) => Permissions::spec_has(
            p@,
            Permission::InviteManage,
        ),
        (InviteTargetId::Server, Authority::Server(admin)) => admin,
        _ => false,
    }
}

/// Whether `user_id` may manage the invite: its creator may, and so may
/// whoever has the authority.
pub open spec fn spec_can_manage(user_id: UserId, invite: Invite, authority: Authority) -> bool {
    user_id == invite.creator_id || spec_has_authority(invite.target, authority)
}

/// Where the events of an invite go: into the room or the thread that it
/// leads to. The events of a server invite go nowhere.
pub open spec fn spec_publish(target: InviteTargetId, msg: MessageSync) -> Publish {
    match target {
        InviteTargetId::Room { room_id } => Publish::Room { room_id, msg },
        InviteTargetId::Thread { thread_id, .. } => Publish::Thread { thread_id, msg },
        InviteTargetId::Server => Publish::Nothing,
    }
}

/// Whether a character can stand in an invite code: an ASCII letter or digit.
pub open spec fn is_code_char(c: char) -> bool {
    ('a' <= c && c <= 'z') || ('A' <= c && c <= 'Z') || ('0' <= c && c <= '9')
}

/// Whether a string has the form of an invite code: eight ASCII letters or
/// digits.
pub open spec fn is_code(code: Seq<char>) -> bool {
    code.len() == INVITE_CODE_LEN && forall|i: int| 0 <= i < code.len() ==> is_code_char(code[i])
}

/// Whether `authority` lets its holder manage an invite with the target
/// `target`.
pub fn has_authority(target: &InviteTargetId, authority: &Authority) -> (r: bool)
    ensures
        r == spec_has_authority(*target, *authority),
{
    match (target, authority) {
        (InviteTargetId::Room { .. }, Authority::Room(p)) => p.has(Permission::InviteManage),
        (InviteTargetId::Thread { .. }, Authority::Thread(p)) => p.has(Permission::InviteManage),
        (InviteTargetId::Server, Authority::Server(admin)) => *admin,
        _ => false,
    }
}

/// Whether `user_id` may manage the invite.
pub fn can_manage(user_id: UserId, invite: &Invite, authority: &Authority) -> (r: bool)
    ensures
        r == spec_can_manage(user_id, *invite, *authority),
{
    user_id == invite.creator_id || has_authority(&invite.target, authority)
}

/// Where an event of an invite with the target `target` goes.
pub fn publish(target: InviteTargetId, msg: MessageSync) -> (r: Publish)
    ensures
        r == spec_publish(target, msg),
{
    match target {
        InviteTargetId::Room { room_id } => Publish::Room { room_id, msg },
        InviteTargetId::Thread { thread_id, .. } => Publish::Thread { thread_id, msg },
        InviteTargetId::Server => Publish::Nothing,
    }
}

/// Decides a request to delete an invite. Where the user may manage the
/// invite, the result is what to publish once it is deleted. Where not,
/// nothing is to be done, and the request is answered as if it had been.
pub fn invite_delete(user_id: UserId, invite: &Invite, authority: &Authority) -> (r: Option<
    Publish,
>)
    ensures
        r == if spec_can_manage(user_id, *invite, *authority) {
            Some(spec_publish(invite.target, MessageSync::InviteDelete { target: invite.target }))
        } else {
            None
        },
{
    if can_manage(user_id, invite, authority) {
        Some(publish(invite.target, MessageSync::InviteDelete { target: invite.target }))
    } else {
        None
    }
}

/// Decides what a user gets to see of an invite: the creator and whoever has
/// the authority see the record of its use, anybody else the invite alone.
pub fn invite_resolve(user_id: UserId, invite: InviteWithMetadata, authority: &Authority) -> (r:
    InviteWithPotentialMetadata)
    ensures
        r == if spec_can_manage(user_id, invite.invite, *authority) {
            InviteWithPotentialMetadata::InviteWithMetadata(invite)
        } else {
            InviteWithPotentialMetadata::Invite(invite.invite)
        },
{
    if can_manage(user_id, &invite.invite, authority) {
        InviteWithPotentialMetadata::InviteWithMetadata(invite)
    } else {
        InviteWithPotentialMetadata::Invite(invite.strip_metadata())
    }
}

/// Decides what using an invite does. A dead invite, one that is used up or
/// out of date, does not exist. An invite to a room or to a thread makes the
/// user a member of the room; a server invite makes the account a full one.
pub fn invite_use(target: &InviteTargetId, dead: bool) -> (r: Result<InviteUse, Error>)
    ensures
        r == if dead {
            Err::<InviteUse, Error>(Error::NotFound)
        } else {
            Ok::<InviteUse, Error>(
                match *target {
                    InviteTargetId::Room { room_id } => InviteUse::JoinRoom { room_id },
                    InviteTargetId::Thread { room_id, .. } => InviteUse::JoinRoom { room_id },
                    InviteTargetId::Server => InviteUse::Register,
                },
            )
        },
{
    if dead {
        return Err(Error::NotFound);
    }
    Ok(
        match target {
            InviteTargetId::Room { room_id } => InviteUse::JoinRoom { room_id: *room_id },
            InviteTargetId::Thread { room_id, .. } => InviteUse::JoinRoom { room_id: *room_id },
            InviteTargetId::Server => InviteUse::Register,
        },
    )
}

/// Decides a request to change an invite: only who may manage it may change
/// it. The result is what to publish once it is changed.
pub fn invite_patch(user_id: UserId, invite: &Invite, authority: &Authority) -> (r: Result<
    Publish,
    Error,
>)
    ensures
        r == if spec_can_manage(user_id, *invite, *authority) {
            Ok::<Publish, Error>(
                spec_publish(invite.target, MessageSync::InviteUpdate { target: invite.target }),
            )
        } else {
            Err::<Publish, Error>(Error::MissingPermissions)
        },
{
    if !can_manage(user_id, invite, authority) {
        return Err(Error::MissingPermissions);
    }
    Ok(publish(invite.target, MessageSync::InviteUpdate { target: invite.target }))
}

/// The characters that an invite code is drawn from: the 26 small letters,
/// the 26 capital letters and the ten digits.
pub open spec fn spec_invite_alphabet() -> Seq<char> {
    seq![
        'a', 'b', 'c', 'd', 'e', 'f', 'g', 'h', 'i', 'j', 'k', 'l', 'm', 'n', 'o', 'p', 'q',
        'r', 's', 't', 'u', 'v', 'w', 'x', 'y', 'z', 'A', 'B', 'C', 'D', 'E', 'F', 'G', 'H',
        'I', 'J', 'K', 'L', 'M', 'N', 'O', 'P', 'Q', 'R', 'S', 'T', 'U', 'V', 'W', 'X', 'Y',
        'Z', '0', '1', '2', '3', '4', '5', '6', '7', '8', '9',
    ]
}

/// The characters that an invite code is drawn from.
pub fn invite_alphabet() -> (r: Vec<char>)
    ensures
        r@ == spec_invite_alphabet(),
        r@.len() == 62,
        forall|i: int| 0 <= i < r@.len() ==> is_code_char(#[trigger] r@[i]),
{
    vec![
        'a', 'b', 'c', 'd', 'e', 'f', 'g', 'h', 'i', 'j', 'k', 'l', 'm', 'n', 'o', 'p', 'q',
        'r', 's', 't', 'u', 'v', 'w', 'x', 'y', 'z', 'A', 'B', 'C', 'D', 'E', 'F', 'G', 'H',
        'I', 'J', 'K', 'L', 'M', 'N', 'O', 'P', 'Q', 'R', 'S', 'T', 'U', 'V', 'W', 'X', 'Y',
        'Z', '0', '1', '2', '3', '4', '5', '6', '7', '8', '9',
    ]
}

/// Draws `size` characters from `alphabet` with `nanoid::format` and the
/// crate's default random source. The result is random; it has `size`
/// characters, each of them from the alphabet. The call does not return for
/// an empty alphabet or a size of zero, and panics for an alphabet of more
/// than 255 characters; it counts bytes, so the alphabet must be ASCII.
#[verifier::external_body]
fn random_code(alphabet: &Vec<char>, size: usize) -> (code: String)
    requires
        0 < alphabet@.len() <= 255,
        0 < size <= 0xffff,
        forall|i: int| 0 <= i < alphabet@.len() ==> (alphabet@[i] as u32) < 128,
    ensures
        code@.len() == size,
        forall|i: int| 0 <= i < code@.len() ==> alphabet@.contains(#[trigger] code@[i]),
{
    nanoid::format(nanoid::rngs::default, alphabet.as_slice(), size)
}

/// A fresh invite code: eight letters or digits, drawn at random.
pub fn invite_code() -> (r: String)
    ensures
        is_code(r@),
{
    let alphabet = invite_alphabet();
    proof {
        assert forall|i: int| 0 <= i < alphabet@.len() implies (alphabet@[i] as u32) < 128 by {
            assert(is_code_char(alphabet@[i]));
        }
    }
    let code = random_code(&alphabet, INVITE_CODE_LEN);
    proof {
        assert forall|i: int| 0 <= i < code@.len() implies is_code_char(code@[i]) by {
            assert(alphabet@.contains(code@[i]));
        }
    }
    code
}

/// Decides a request to create an invite to a room, given what the user may
/// do in the room. To one who cannot view the room it does not exist; one
/// who can needs `InviteCreate`. The result is the code of the new invite.
pub fn invite_room_create(perms: &Permissions) -> (r: Result<String, Error>)
    ensures
        !Permissions::spec_has(perms@, Permission::View) ==> r == Err::<String, Error>(
            Error::NotFound,
        ),
        Permissions::spec_has(perms@, Permission::View) && !Permissions::spec_has(
            perms@,
            Permission::InviteCreate,
        ) ==> r == Err::<String, Error>(Error::MissingPermissions),
        Permissions::spec_has(perms@, Permission::View) && Permissions::spec_has(
            perms@,
            Permission::InviteCreate,
        ) ==> r is Ok && is_code(r.unwrap()@),
{
    match perms.ensure_view() {
        Ok(()) => {},
        Err(e) => {
            return Err(e);
        },
    }
    match perms.ensure(Permission::InviteCreate) {
        Ok(()) => {},
        Err(e) => {
            return Err(e);
        },
    }
    Ok(invite_code())
}

/// What `user_id` gets to see of one invite of a room, given what the user
/// may do in the room.
pub open spec fn spec_room_item(user_id: UserId, perms: Permissions, item: InviteWithMetadata)
    -> InviteWithPotentialMetadata {
    if item.invite.creator_id != user_id && !Permissions::spec_has(
        perms@,
        Permission::InviteManage,
    ) {
        InviteWithPotentialMetadata::Invite(item.invite)
    } else {
        InviteWithPotentialMetadata::InviteWithMetadata(item)
    }
}

/// Decides what a user gets to see of the invites of a room. To one who
/// cannot view the room it does not exist. Anybody else sees every invite,
/// and the record of its use for those that the user created or may manage.
pub fn invite_room_list(user_id: UserId, perms: &Permissions, items: &Vec<InviteWithMetadata>)
    -> (r: Result<Vec<InviteWithPotentialMetadata>, Error>)
    ensures
        !Permissions::spec_has(perms@, Permission::View) ==> r == Err::<
            Vec<InviteWithPotentialMetadata>,
            Error,
        >(Error::NotFound),
        Permissions::spec_has(perms@, Permission::View) ==> r is Ok && r.unwrap()@
            == items@.map_values(|i: InviteWithMetadata| spec_room_item(user_id, *perms, i)),
{
    match perms.ensure_view() {
        Ok(()) => {},
        Err(e) => {
            return Err(e);
        },
    }
    let manages = perms.has(Permission::InviteManage);
    let mut out: Vec<InviteWithPotentialMetadata> = Vec::new();
    let mut k: usize = 0;
    while k < items.len()
        invariant
            k <= items.len(),
            manages == Permissions::spec_has(perms@, Permission::InviteManage),
            out@ == items@.take(k as int).map_values(
                |i: InviteWithMetadata| spec_room_item(user_id, *perms, i),
            ),
        decreases items.len() - k,
    {
        let item = items[k].clone();
        if item.invite.creator_id != user_id && !manages {
            out.push(InviteWithPotentialMetadata::Invite(item.strip_metadata()));
        } else {
            out.push(InviteWithPotentialMetadata::InviteWithMetadata(item));
        }
        proof {
            assert(out@ =~= items@.take(k + 1).map_values(
                |i: InviteWithMetadata| spec_room_item(user_id, *perms, i),
            ));
        }
        k += 1;
    }
    proof {
        assert(items@.take(items.len() as int) =~= items@);
    }
    Ok(out)
}

/// Decides a request to create a server invite: a guest, whose account was
/// never registered, may not. The result is the code of the new invite. No
/// event is published for a server invite.
pub fn invite_server_create(registered: bool) -> (r: Result<String, Error>)
    ensures
        !registered ==> r == Err::<String, Error>(Error::BadStatic(Reason::GuestCreateInvite)),
        registered ==> r is Ok && is_code(r.unwrap()@),
{
    if !registered {
        return Err(Error::BadStatic(Reason::GuestCreateInvite));
    }
    Ok(invite_code())
}

/// What `user_id` gets to see of one server invite.
pub open spec fn spec_server_item(user_id: UserId, admin: bool, item: InviteWithMetadata)
    -> InviteWithPotentialMetadata {
    if item.invite.creator_id != user_id && !admin {
        InviteWithPotentialMetadata::Invite(item.invite)
    } else {
        InviteWithPotentialMetadata::InviteWithMetadata(item)
    }
}

/// Decides what a user gets to see of the server's invites. A guest may not
/// list them. Anybody else sees every invite, and the record of its use for
/// those that the user created, and for all of them as a server admin.
/// `admin` is false where it could not be found out.
pub fn invite_server_list(
    user_id: UserId,
    registered: bool,
    admin: bool,
    items: &Vec<InviteWithMetadata>,
) -> (r: Result<Vec<InviteWithPotentialMetadata>, Error>)
    ensures
        !registered ==> r == Err::<Vec<InviteWithPotentialMetadata>, Error>(
            Error::BadStatic(Reason::GuestListInvites),
        ),
        registered ==> r is Ok && r.unwrap()@ == items@.map_values(
            |i: InviteWithMetadata| spec_server_item(user_id, admin, i),
        ),
{
    if !registered {
        return Err(Error::BadStatic(Reason::GuestListInvites));
    }
    let mut out: Vec<InviteWithPotentialMetadata> = Vec::new();
    let mut k: usize = 0;
    while k < items.len()
        invariant
            k <= items.len(),
            out@ == items@.take(k as int).map_values(
                |i: InviteWithMetadata| spec_server_item(user_id, admin, i),
            ),
        decreases items.len() - k,
    {
        let item = items[k].clone();
        if item.invite.creator_id != user_id && !admin {
            out.push(InviteWithPotentialMetadata::Invite(item.strip_metadata()));
        } else {
            out.push(InviteWithPotentialMetadata::InviteWithMetadata(item));
        }
        proof {
            assert(out@ =~= items@.take(k + 1).map_values(
                |i: InviteWithMetadata| spec_server_item(user_id, admin, i),
            ));
        }
        k += 1;
    }
    proof {
        assert(items@.take(items.len() as int) =~= items@);
    }
    Ok(out)
}

} // verus!
