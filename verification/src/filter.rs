//! The authorization filter: whether a connection may see an event, what
//! has to be looked up to tell, and what has to be loaded for the recipient.

use crate::event::{AuthCheck, MessageSync};
use crate::ids::{MessageId, RoomId, ThreadId, UserId};
use crate::permission::{Permission, Permissions};
use vstd::prelude::*;

verus! {

/// What has to be looked up before an event can be judged.
#[derive(Clone, Copy, Debug, PartialEq, Eq, Structural, Hash)]
pub enum Lookup {
    /// The event can be judged as it is.
    Nothing,
    /// The capabilities of `user_id` in `room_id`.
    Room { user_id: UserId, room_id: RoomId },
    /// The capabilities of `user_id` in `thread_id`.
    Thread { user_id: UserId, thread_id: ThreadId },
    /// Whether `user_id` and `other_id` share a room.
    Mutual { user_id: UserId, other_id: UserId },
}

/// What a lookup found, with the question it answers.
#[derive(Clone, Copy, Debug, PartialEq, Eq, Structural, Hash)]
pub enum Answer {
    /// Nothing was looked up.
    Nothing,
    Room { user_id: UserId, room_id: RoomId, permissions: Permissions },
    Thread { user_id: UserId, thread_id: ThreadId, permissions: Permissions },
    Mutual { user_id: UserId, other_id: UserId, mutual: bool },
}

/// What has to be loaded for the recipient before an event is queued.
#[allow(inconsistent_fields)]
#[derive(Clone, Copy, Debug, PartialEq, Eq, Structural, Hash)]
pub enum Enrichment {
    /// The event goes out as it was published.
    Nothing,
    /// The thread as `user_id` sees it.
    Thread { thread_id: ThreadId, user_id: Option<UserId> },
    /// The message as `user_id` sees it.
    Message { thread_id: ThreadId, message_id: MessageId, user_id: UserId },
}

impl Answer {
    /// Whether the answer says that `user` can view `room`.
    pub open spec fn views_room(self, user: UserId, room: RoomId) -> bool {
        self matches Answer::Room { user_id, room_id, permissions } && user_id == user && room_id
            == room && Permissions::spec_has(permissions@, Permission::View)
    }

    /// Whether the answer says that `user` can view `thread`.
    pub open spec fn views_thread(self, user: UserId, thread: ThreadId) -> bool {
        self matches Answer::Thread { user_id, thread_id, permissions } && user_id == user
            && thread_id == thread && Permissions::spec_has(permissions@, Permission::View)
    }

    /// Whether the answer says that `user` and `other` share a room.
    pub open spec fn shares_room(self, user: UserId, other: UserId) -> bool {
        self matches Answer::Mutual { user_id, other_id, mutual } && user_id == user && other_id
            == other && mutual
    }
}

/// What must be looked up to judge `check` for a connection bound to `user`.
pub open spec fn spec_lookup(user: Option<UserId>, check: AuthCheck) -> Lookup {
    match user {
        None => Lookup::Nothing,
        Some(u) => match check {
            AuthCheck::Room(room_id) => Lookup::Room { user_id: u, room_id },
            AuthCheck::RoomOrUser(room_id, v) => if u == v {
                Lookup::Nothing
            } else {
                Lookup::Room { user_id: u, room_id }
            },
            AuthCheck::Thread(thread_id) => Lookup::Thread { user_id: u, thread_id },
            AuthCheck::ThreadOrUser(thread_id, v) => if u == v {
                Lookup::Nothing
            } else {
                Lookup::Thread { user_id: u, thread_id }
            },
            AuthCheck::UserMutual(v) => if u == v {
                Lookup::Nothing
            } else {
                Lookup::Mutual { user_id: u, other_id: v }
            },
            AuthCheck::User(_) => Lookup::Nothing,
            AuthCheck::Custom(_) => Lookup::Nothing,
        },
    }
}

/// The authorization predicate: whether a connection bound to `user` may see
/// an event that asks `check`, given what was looked up. A connection bound
/// to no user sees only what was decided without a lookup.
pub open spec fn spec_authorized(user: Option<UserId>, check: AuthCheck, answer: Answer) -> bool {
    match check {
        AuthCheck::Custom(b) => b,
        _ => match user {
            None => false,
            Some(u) => match check {
                AuthCheck::Room(r) => answer.views_room(u, r),
                AuthCheck::RoomOrUser(r, v) => u == v || answer.views_room(u, r),
                AuthCheck::Thread(t) => answer.views_thread(u, t),
                AuthCheck::ThreadOrUser(t, v) => u == v || answer.views_thread(u, t),
                AuthCheck::User(v) => u == v,
                AuthCheck::UserMutual(v) => u == v || answer.shares_room(u, v),
                AuthCheck::Custom(b) => b,
            },
        },
    }
}

/// What must be loaded for a recipient bound to `user` before `msg` is queued
/// for it. Threads and messages differ by who looks at them.
pub open spec fn spec_enrichment(msg: MessageSync, user: Option<UserId>) -> Enrichment {
    match msg {
        MessageSync::ThreadCreate { thread_id } => Enrichment::Thread { thread_id, user_id: user },
        MessageSync::ThreadUpdate { thread_id } => Enrichment::Thread { thread_id, user_id: user },
        MessageSync::MessageCreate { thread_id, message_id } => match user {
            Some(user_id) => Enrichment::Message { thread_id, message_id, user_id },
            None => Enrichment::Nothing,
        },
        MessageSync::MessageUpdate { thread_id, message_id } => match user {
            Some(user_id) => Enrichment::Message { thread_id, message_id, user_id },
            None => Enrichment::Nothing,
        },
        _ => Enrichment::Nothing,
    }
}

/// What must be looked up to judge `check` for a connection bound to `user`.
pub fn lookup(user: Option<UserId>, check: AuthCheck) -> (r: Lookup)
    ensures
        r == spec_lookup(user, check),
{
    match user {
        None => Lookup::Nothing,
        Some(u) => match check {
            AuthCheck::Room(room_id) => Lookup::Room { user_id: u, room_id },
            AuthCheck::RoomOrUser(room_id, v) => if u == v {
                Lookup::Nothing
            } else {
                Lookup::Room { user_id: u, room_id }
            },
            AuthCheck::Thread(thread_id) => Lookup::Thread { user_id: u, thread_id },
            AuthCheck::ThreadOrUser(thread_id, v) => if u == v {
                Lookup::Nothing
            } else {
                Lookup::Thread { user_id: u, thread_id }
            },
            AuthCheck::UserMutual(v) => if u == v {
                Lookup::Nothing
            } else {
                Lookup::Mutual { user_id: u, other_id: v }
            },
            AuthCheck::User(_) => Lookup::Nothing,
            AuthCheck::Custom(_) => Lookup::Nothing,
        },
    }
}

/// Whether a connection bound to `user` may see an event that asks `check`,
/// given what was looked up.
pub fn authorized(user: Option<UserId>, check: AuthCheck, answer: &Answer) -> (r: bool)
    ensures
        r == spec_authorized(user, check, *answer),
{
    if let AuthCheck::Custom(b) = check {
        return b;
    }
    let u = match user {
        None => {
            return false;
        },
        Some(u) => u,
    };
    match check {
        AuthCheck::Room(r) => views_room(answer, u, r),
        AuthCheck::RoomOrUser(r, v) => u == v || views_room(answer, u, r),
        AuthCheck::Thread(t) => views_thread(answer, u, t),
        AuthCheck::ThreadOrUser(t, v) => u == v || views_thread(answer, u, t),
        AuthCheck::User(v) => u == v,
        AuthCheck::UserMutual(v) => u == v || match answer {
            Answer::Mutual { user_id, other_id, mutual } => *user_id == u && *other_id == v
                && *mutual,
            _ => false,
        },
        AuthCheck::Custom(b) => b,
    }
}

fn views_room(answer: &Answer, user: UserId, room: RoomId) -> (r: bool)
    ensures
        r == answer.views_room(user, room),
{
    match answer {
        Answer::Room { user_id, room_id, permissions } => *user_id == user && *room_id == room
            && permissions.has(Permission::View),
        _ => false,
    }
}

fn views_thread(answer: &Answer, user: UserId, thread: ThreadId) -> (r: bool)
    ensures
        r == answer.views_thread(user, thread),
{
    match answer {
        Answer::Thread { user_id, thread_id, permissions } => *user_id == user && *thread_id
            == thread && permissions.has(Permission::View),
        _ => false,
    }
}

/// What must be loaded for a recipient bound to `user` before `msg` is queued
/// for it.
pub fn enrichment(msg: &MessageSync, user: Option<UserId>) -> (r: Enrichment)
    ensures
        r == spec_enrichment(*msg, user),
{
    match msg {
        MessageSync::ThreadCreate { thread_id } => Enrichment::Thread {
            thread_id: *thread_id,
            user_id: user,
        },
        MessageSync::ThreadUpdate { thread_id } => Enrichment::Thread {
            thread_id: *thread_id,
            user_id: user,
        },
        MessageSync::MessageCreate { thread_id, message_id } => match user {
            Some(user_id) => Enrichment::Message {
                thread_id: *thread_id,
                message_id: *message_id,
                user_id,
            },
            None => Enrichment::Nothing,
        },
        MessageSync::MessageUpdate { thread_id, message_id } => match user {
            Some(user_id) => Enrichment::Message {
                thread_id: *thread_id,
                message_id: *message_id,
                user_id,
            },
            None => Enrichment::Nothing,
        },
        _ => Enrichment::Nothing,
    }
}

/// A connection that is bound to no user sees nothing but what was decided
/// without a lookup.
pub proof fn lemma_no_user_sees_only_decided(check: AuthCheck, answer: Answer)
    requires
        !(check is Custom),
    ensures
        !spec_authorized(None, check, answer),
{
}

/// A user sees what is about itself, whatever was looked up: its own
/// memberships, settings and relationships, and changes to its own account.
pub proof fn lemma_user_sees_its_own(user: UserId, check: AuthCheck, answer: Answer)
    requires
        match check {
            AuthCheck::RoomOrUser(_, v) => v == user,
            AuthCheck::ThreadOrUser(_, v) => v == user,
            AuthCheck::User(v) => v == user,
            AuthCheck::UserMutual(v) => v == user,
            _ => false,
        },
    ensures
        spec_authorized(Some(user), check, answer),
        spec_lookup(Some(user), check) == Lookup::Nothing,
{
}

/// Where a lookup is needed, only an answer to that very lookup which grants
/// the view lets the event through.
pub proof fn lemma_only_the_asked_answer_counts(
    user: Option<UserId>,
    check: AuthCheck,
    answer: Answer,
)
    requires
        spec_lookup(user, check) != Lookup::Nothing,
        spec_authorized(user, check, answer),
    ensures
        match spec_lookup(user, check) {
            Lookup::Room { user_id, room_id } => answer.views_room(user_id, room_id),
            Lookup::Thread { user_id, thread_id } => answer.views_thread(user_id, thread_id),
            Lookup::Mutual { user_id, other_id } => answer.shares_room(user_id, other_id),
            Lookup::Nothing => false,
        },
{
}

} // verus!
