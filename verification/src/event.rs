//! Sync events and the question that decides who may see each of them.
//!
//! An event names what changed by the identifiers that its authorization
//! needs. What the client reads of it travels beside it as an opaque body.

use crate::ids::{MessageId, RoomId, SessionId, ThreadId, UserId};
use crate::session::Session;
use vstd::prelude::*;

verus! {

/// What an invite leads to, by identifier.
#[derive(Clone, Copy, Debug, PartialEq, Eq, Structural, Hash)]
pub enum InviteTargetId {
    /// The server itself. No event is published for such an invite.
    Server,
    Room { room_id: RoomId },
    Thread { room_id: RoomId, thread_id: ThreadId },
}

/// Who owns a custom emoji.
#[derive(Clone, Copy, Debug, PartialEq, Eq, Structural, Hash)]
pub enum EmojiOwner {
    Room { room_id: RoomId },
    /// The user who created it.
    User,
}

/// The question that decides whether a connection may see an event.
#[derive(Clone, Copy, Debug, PartialEq, Eq, Structural, Hash)]
pub enum AuthCheck {
    /// Already decided.
    Custom(bool),
    /// The viewer can view the room.
    Room(RoomId),
    /// The viewer is the user, or can view the room.
    RoomOrUser(RoomId, UserId),
    /// The viewer is the user, or can view the thread.
    ThreadOrUser(ThreadId, UserId),
    /// The viewer is the user.
    User(UserId),
    /// The viewer is the user, or shares a room with the user.
    UserMutual(UserId),
    /// The viewer can view the thread.
    Thread(ThreadId),
}

/// One state change, as published on the event bus.
#[allow(inconsistent_fields)]
#[derive(Debug, PartialEq, Eq, Hash)]
pub enum MessageSync {
    /// A room was created.
    RoomCreate { room_id: RoomId },
    /// A room changed.
    RoomUpdate { room_id: RoomId },
    /// A thread was created.
    ThreadCreate { thread_id: ThreadId },
    /// A thread changed.
    ThreadUpdate { thread_id: ThreadId },
    /// A message was posted in a thread.
    MessageCreate { thread_id: ThreadId, message_id: MessageId },
    /// A message was edited.
    MessageUpdate { thread_id: ThreadId, message_id: MessageId },
    /// A message was deleted.
    MessageDelete { thread_id: ThreadId, message_id: MessageId },
    /// Several messages of one thread were deleted.
    MessageDeleteBulk { thread_id: ThreadId },
    /// One version of a message was deleted.
    MessageVersionDelete { thread_id: ThreadId, message_id: MessageId },
    /// A user was created.
    UserCreate { user_id: UserId },
    /// A user changed.
    UserUpdate { user_id: UserId },
    /// A user was deleted.
    UserDelete { id: UserId },
    /// A user's private settings changed.
    UserConfig { user_id: UserId },
    /// A user's membership of a room was set.
    RoomMemberUpsert { room_id: RoomId, user_id: UserId },
    /// A user's membership of a thread was set.
    ThreadMemberUpsert { thread_id: ThreadId, user_id: UserId },
    /// A session was created.
    SessionCreate { session: Session },
    /// A session changed.
    SessionUpdate { session: Session },
    /// A session was deleted; `user_id` is the user it was bound to.
    SessionDelete { id: SessionId, user_id: Option<UserId> },
    /// A role was created in a room.
    RoleCreate { room_id: RoomId },
    /// A role of a room changed.
    RoleUpdate { room_id: RoomId },
    /// A role of a room was deleted.
    RoleDelete { room_id: RoomId },
    /// An invite was created.
    InviteCreate { target: InviteTargetId },
    /// An invite changed.
    InviteUpdate { target: InviteTargetId },
    /// An invite was deleted.
    InviteDelete { target: InviteTargetId },
    /// A user is typing in a thread.
    ThreadTyping { thread_id: ThreadId, user_id: UserId },
    /// A thread was marked as read. No rule says who may see this.
    ThreadAck { thread_id: ThreadId },
    /// A relationship of `user_id` was set.
    RelationshipUpsert { user_id: UserId },
    /// A relationship of `user_id` was removed.
    RelationshipDelete { user_id: UserId },
    /// A reaction was added to a message.
    ReactionCreate { thread_id: ThreadId, message_id: MessageId },
    /// A reaction was taken off a message.
    ReactionDelete { thread_id: ThreadId, message_id: MessageId },
    /// All reactions were taken off a message.
    ReactionPurge { thread_id: ThreadId, message_id: MessageId },
    /// A signalling message for `user_id`; `thread_id` is the thread that its
    /// payload names, if any.
    VoiceDispatch { user_id: UserId, thread_id: Option<ThreadId> },
    /// The voice state of `user_id`; `thread_id` is the thread of the state,
    /// if a state is present.
    VoiceState { user_id: UserId, thread_id: Option<ThreadId> },
    /// A custom emoji was created.
    EmojiCreate { owner: EmojiOwner, creator_id: UserId },
    /// A custom emoji of a room was deleted.
    EmojiDelete { room_id: RoomId },
}

impl Clone for MessageSync {
    fn clone(&self) -> (r: Self)
        ensures
            r == *self,
    {
        match self {
            MessageSync::RoomCreate { room_id } => MessageSync::RoomCreate { room_id: *room_id },
            MessageSync::RoomUpdate { room_id } => MessageSync::RoomUpdate { room_id: *room_id },
            MessageSync::ThreadCreate { thread_id } => MessageSync::ThreadCreate {
                thread_id: *thread_id,
            },
            MessageSync::ThreadUpdate { thread_id } => MessageSync::ThreadUpdate {
                thread_id: *thread_id,
            },
            MessageSync::MessageCreate { thread_id, message_id } => MessageSync::MessageCreate {
                thread_id: *thread_id,
                message_id: *message_id,
            },
            MessageSync::MessageUpdate { thread_id, message_id } => MessageSync::MessageUpdate {
                thread_id: *thread_id,
                message_id: *message_id,
            },
            MessageSync::MessageDelete { thread_id, message_id } => MessageSync::MessageDelete {
                thread_id: *thread_id,
                message_id: *message_id,
            },
            MessageSync::MessageDeleteBulk { thread_id } => MessageSync::MessageDeleteBulk {
                thread_id: *thread_id,
            },
            MessageSync::MessageVersionDelete { thread_id, message_id } => {
                MessageSync::MessageVersionDelete {
                    thread_id: *thread_id,
                    message_id: *message_id,
                }
            },
            MessageSync::UserCreate { user_id } => MessageSync::UserCreate { user_id: *user_id },
            MessageSync::UserUpdate { user_id } => MessageSync::UserUpdate { user_id: *user_id },
            MessageSync::UserDelete { id } => MessageSync::UserDelete { id: *id },
            MessageSync::UserConfig { user_id } => MessageSync::UserConfig { user_id: *user_id },
            MessageSync::RoomMemberUpsert { room_id, user_id } => MessageSync::RoomMemberUpsert {
                room_id: *room_id,
                user_id: *user_id,
            },
            MessageSync::ThreadMemberUpsert { thread_id, user_id } => {
                MessageSync::ThreadMemberUpsert { thread_id: *thread_id, user_id: *user_id }
            },
            MessageSync::SessionCreate { session } => MessageSync::SessionCreate {
                session: session.clone(),
            },
            MessageSync::SessionUpdate { session } => MessageSync::SessionUpdate {
                session: session.clone(),
            },
            MessageSync::SessionDelete { id, user_id } => MessageSync::SessionDelete {
                id: *id,
                user_id: *user_id,
            },
            MessageSync::RoleCreate { room_id } => MessageSync::RoleCreate { room_id: *room_id },
            MessageSync::RoleUpdate { room_id } => MessageSync::RoleUpdate { room_id: *room_id },
            MessageSync::RoleDelete { room_id } => MessageSync::RoleDelete { room_id: *room_id },
            MessageSync::InviteCreate { target } => MessageSync::InviteCreate { target: *target },
            MessageSync::InviteUpdate { target } => MessageSync::InviteUpdate { target: *target },
            MessageSync::InviteDelete { target } => MessageSync::InviteDelete { target: *target },
            MessageSync::ThreadTyping { thread_id, user_id } => MessageSync::ThreadTyping {
                thread_id: *thread_id,
                user_id: *user_id,
            },
            MessageSync::ThreadAck { thread_id } => MessageSync::ThreadAck {
                thread_id: *thread_id,
            },
            MessageSync::RelationshipUpsert { user_id } => MessageSync::RelationshipUpsert {
                user_id: *user_id,
            },
            MessageSync::RelationshipDelete { user_id } => MessageSync::RelationshipDelete {
                user_id: *user_id,
            },
            MessageSync::ReactionCreate { thread_id, message_id } => MessageSync::ReactionCreate {
                thread_id: *thread_id,
                message_id: *message_id,
            },
            MessageSync::ReactionDelete { thread_id, message_id } => MessageSync::ReactionDelete {
                thread_id: *thread_id,
                message_id: *message_id,
            },
            MessageSync::ReactionPurge { thread_id, message_id } => MessageSync::ReactionPurge {
                thread_id: *thread_id,
                message_id: *message_id,
            },
            MessageSync::VoiceDispatch { user_id, thread_id } => MessageSync::VoiceDispatch {
                user_id: *user_id,
                thread_id: *thread_id,
            },
            MessageSync::VoiceState { user_id, thread_id } => MessageSync::VoiceState {
                user_id: *user_id,
                thread_id: *thread_id,
            },
            MessageSync::EmojiCreate { owner, creator_id } => MessageSync::EmojiCreate {
                owner: *owner,
                creator_id: *creator_id,
            },
            MessageSync::EmojiDelete { room_id } => MessageSync::EmojiDelete { room_id: *room_id },
        }
    }
}

impl InviteTargetId {
    /// An invite's events are seen by those who can view what it leads to.
    pub open spec fn spec_auth_check(self) -> AuthCheck {
        match self {
            InviteTargetId::Room { room_id } => AuthCheck::Room(room_id),
            InviteTargetId::Thread { thread_id, .. } => AuthCheck::Thread(thread_id),
            InviteTargetId::Server => AuthCheck::Custom(false),
        }
    }

    /// The question for an event of an invite with this target.
    pub fn auth_check(&self) -> (r: AuthCheck)
        requires
            !(self is Server),
        ensures
            r == self.spec_auth_check(),
    {
        match self {
            InviteTargetId::Room { room_id } => AuthCheck::Room(*room_id),
            InviteTargetId::Thread { thread_id, .. } => AuthCheck::Thread(*thread_id),
            InviteTargetId::Server => AuthCheck::Custom(false),
        }
    }
}

impl MessageSync {
    /// Whether a rule says who may see this event. None does for `ThreadAck`,
    /// nor for the events of a server invite, which are never published.
    pub open spec fn spec_has_rule(self) -> bool {
        match self {
            MessageSync::ThreadAck { .. } => false,
            MessageSync::InviteCreate { target } => !(target is Server),
            MessageSync::InviteUpdate { target } => !(target is Server),
            MessageSync::InviteDelete { target } => !(target is Server),
            _ => true,
        }
    }

    /// Whether a rule says who may see this event.
    pub fn has_rule(&self) -> (r: bool)
        ensures
            r == self.spec_has_rule(),
    {
        match self {
            MessageSync::ThreadAck { .. } => false,
            MessageSync::InviteCreate { target } => !matches!(target, InviteTargetId::Server),
            MessageSync::InviteUpdate { target } => !matches!(target, InviteTargetId::Server),
            MessageSync::InviteDelete { target } => !matches!(target, InviteTargetId::Server),
            _ => true,
        }
    }

    /// The question that decides whether the connection bound to the session
    /// `viewer` may see this event. It depends on the event alone, but for
    /// session events, which a session sees by `Session::spec_can_see`, and a
    /// session's own deletion, which it always sees.
    pub open spec fn spec_auth_check(self, viewer: Session) -> AuthCheck {
        match self {
            MessageSync::RoomCreate { room_id } => AuthCheck::Room(room_id),
            MessageSync::RoomUpdate { room_id } => AuthCheck::Room(room_id),
            MessageSync::ThreadCreate { thread_id } => AuthCheck::Thread(thread_id),
            MessageSync::ThreadUpdate { thread_id } => AuthCheck::Thread(thread_id),
            MessageSync::MessageCreate { thread_id, .. } => AuthCheck::Thread(thread_id),
            MessageSync::MessageUpdate { thread_id, .. } => AuthCheck::Thread(thread_id),
            MessageSync::MessageDelete { thread_id, .. } => AuthCheck::Thread(thread_id),
            MessageSync::MessageDeleteBulk { thread_id } => AuthCheck::Thread(thread_id),
            MessageSync::MessageVersionDelete { thread_id, .. } => AuthCheck::Thread(thread_id),
            MessageSync::UserCreate { user_id } => AuthCheck::UserMutual(user_id),
            MessageSync::UserUpdate { user_id } => AuthCheck::UserMutual(user_id),
            MessageSync::UserDelete { id } => AuthCheck::UserMutual(id),
            MessageSync::UserConfig { user_id } => AuthCheck::User(user_id),
            MessageSync::RoomMemberUpsert { room_id, user_id } => AuthCheck::RoomOrUser(
                room_id,
                user_id,
            ),
            MessageSync::ThreadMemberUpsert { thread_id, user_id } => AuthCheck::ThreadOrUser(
                thread_id,
                user_id,
            ),
            MessageSync::SessionCreate { session } => AuthCheck::Custom(
                viewer.spec_can_see(session),
            ),
            MessageSync::SessionUpdate { session } => AuthCheck::Custom(
                viewer.spec_can_see(session),
            ),
            MessageSync::SessionDelete { id, user_id } => if id == viewer.id {
                AuthCheck::Custom(true)
            } else {
                match user_id {
                    Some(user_id) => AuthCheck::User(user_id),
                    None => AuthCheck::Custom(false),
                }
            },
            MessageSync::RoleCreate { room_id } => AuthCheck::Room(room_id),
            MessageSync::RoleUpdate { room_id } => AuthCheck::Room(room_id),
            MessageSync::RoleDelete { room_id } => AuthCheck::Room(room_id),
            MessageSync::InviteCreate { target } => target.spec_auth_check(),
            MessageSync::InviteUpdate { target } => target.spec_auth_check(),
            MessageSync::InviteDelete { target } => target.spec_auth_check(),
            MessageSync::ThreadTyping { thread_id, .. } => AuthCheck::Thread(thread_id),
            MessageSync::ThreadAck { .. } => AuthCheck::Custom(false),
            MessageSync::RelationshipUpsert { user_id } => AuthCheck::User(user_id),
            MessageSync::RelationshipDelete { user_id } => AuthCheck::User(user_id),
            MessageSync::ReactionCreate { thread_id, .. } => AuthCheck::Thread(thread_id),
            MessageSync::ReactionDelete { thread_id, .. } => AuthCheck::Thread(thread_id),
            MessageSync::ReactionPurge { thread_id, .. } => AuthCheck::Thread(thread_id),
            MessageSync::VoiceDispatch { user_id, thread_id } => match thread_id {
                Some(thread_id) => AuthCheck::Thread(thread_id),
                None => AuthCheck::User(user_id),
            },
            MessageSync::VoiceState { user_id, thread_id } => match thread_id {
                Some(thread_id) => AuthCheck::Thread(thread_id),
                None => AuthCheck::User(user_id),
            },
            MessageSync::EmojiCreate { owner, creator_id } => match owner {
                EmojiOwner::Room { room_id } => AuthCheck::Room(room_id),
                EmojiOwner::User => AuthCheck::User(creator_id),
            },
            MessageSync::EmojiDelete { room_id } => AuthCheck::Room(room_id),
        }
    }

    /// The question that decides whether the connection bound to the session
    /// `viewer` may see this event.
    pub fn auth_check(&self, viewer: &Session) -> (r: AuthCheck)
        requires
            self.spec_has_rule(),
        ensures
            r == self.spec_auth_check(*viewer),
    {
        match self {
            MessageSync::RoomCreate { room_id } => AuthCheck::Room(*room_id),
            MessageSync::RoomUpdate { room_id } => AuthCheck::Room(*room_id),
            MessageSync::ThreadCreate { thread_id } => AuthCheck::Thread(*thread_id),
            MessageSync::ThreadUpdate { thread_id } => AuthCheck::Thread(*thread_id),
            MessageSync::MessageCreate { thread_id, .. } => AuthCheck::Thread(*thread_id),
            MessageSync::MessageUpdate { thread_id, .. } => AuthCheck::Thread(*thread_id),
            MessageSync::MessageDelete { thread_id, .. } => AuthCheck::Thread(*thread_id),
            MessageSync::MessageDeleteBulk { thread_id } => AuthCheck::Thread(*thread_id),
            MessageSync::MessageVersionDelete { thread_id, .. } => AuthCheck::Thread(*thread_id),
            MessageSync::UserCreate { user_id } => AuthCheck::UserMutual(*user_id),
            MessageSync::UserUpdate { user_id } => AuthCheck::UserMutual(*user_id),
            MessageSync::UserDelete { id } => AuthCheck::UserMutual(*id),
            MessageSync::UserConfig { user_id } => AuthCheck::User(*user_id),
            MessageSync::RoomMemberUpsert { room_id, user_id } => AuthCheck::RoomOrUser(
                *room_id,
                *user_id,
            ),
            MessageSync::ThreadMemberUpsert { thread_id, user_id } => AuthCheck::ThreadOrUser(
                *thread_id,
                *user_id,
            ),
            MessageSync::SessionCreate { session } => AuthCheck::Custom(viewer.can_see(session)),
            MessageSync::SessionUpdate { session } => AuthCheck::Custom(viewer.can_see(session)),
            MessageSync::SessionDelete { id, user_id } => if *id == viewer.id {
                AuthCheck::Custom(true)
            } else {
                match *user_id {
                    Some(user_id) => AuthCheck::User(user_id),
                    None => AuthCheck::Custom(false),
                }
            },
            MessageSync::RoleCreate { room_id } => AuthCheck::Room(*room_id),
            MessageSync::RoleUpdate { room_id } => AuthCheck::Room(*room_id),
            MessageSync::RoleDelete { room_id } => AuthCheck::Room(*room_id),
            MessageSync::InviteCreate { target } => target.auth_check(),
            MessageSync::InviteUpdate { target } => target.auth_check(),
            MessageSync::InviteDelete { target } => target.auth_check(),
            MessageSync::ThreadTyping { thread_id, .. } => AuthCheck::Thread(*thread_id),
            MessageSync::ThreadAck { .. } => AuthCheck::Custom(false),
            MessageSync::RelationshipUpsert { user_id } => AuthCheck::User(*user_id),
            MessageSync::RelationshipDelete { user_id } => AuthCheck::User(*user_id),
            MessageSync::ReactionCreate { thread_id, .. } => AuthCheck::Thread(*thread_id),
            MessageSync::ReactionDelete { thread_id, .. } => AuthCheck::Thread(*thread_id),
            MessageSync::ReactionPurge { thread_id, .. } => AuthCheck::Thread(*thread_id),
            MessageSync::VoiceDispatch { user_id, thread_id } => match *thread_id {
                Some(thread_id) => AuthCheck::Thread(thread_id),
                None => AuthCheck::User(*user_id),
            },
            MessageSync::VoiceState { user_id, thread_id } => match *thread_id {
                Some(thread_id) => AuthCheck::Thread(thread_id),
                None => AuthCheck::User(*user_id),
            },
            MessageSync::EmojiCreate { owner, creator_id } => match *owner {
                EmojiOwner::Room { room_id } => AuthCheck::Room(room_id),
                EmojiOwner::User => AuthCheck::User(*creator_id),
            },
            MessageSync::EmojiDelete { room_id } => AuthCheck::Room(*room_id),
        }
    }

    /// Whether this event deletes the session `viewer`.
    pub open spec fn spec_ends(self, viewer: Session) -> bool {
        self matches MessageSync::SessionDelete { id, .. } && id == viewer.id
    }

    /// The session that a connection bound to `current` is bound to once it
    /// has seen this event: the new record of its own session where the event
    /// carries one, else `current`.
    pub open spec fn spec_adopted(self, current: Session) -> Session {
        match self {
            MessageSync::SessionCreate { session } => if session.id == current.id {
                session
            } else {
                current
            },
            MessageSync::SessionUpdate { session } => if session.id == current.id {
                session
            } else {
                current
            },
            _ => current,
        }
    }
}

} // verus!
