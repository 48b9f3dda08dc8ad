//! Sessions: the credentials that a connection is bound to.

use crate::ids::{SessionId, Time, UserId};
use vstd::prelude::*;

verus! {

/// How far a session has been authenticated.
#[derive(Clone, Copy, Debug, PartialEq, Eq, Structural, Hash)]
pub enum SessionStatus {
    /// Bound to no user.
    Unauthorized,
    /// Bound to a user.
    Authorized { user_id: UserId },
    /// Bound to a user, with raised privileges until `expires_at`.
    Sudo { user_id: UserId, expires_at: Time },
}

/// A session as the core sees it.
#[derive(Debug, PartialEq, Eq, Hash)]
pub struct Session {
    pub id: SessionId,
    pub status: SessionStatus,
    pub name: Option<String>,
}

impl Clone for Session {
    fn clone(&self) -> (r: Self)
        ensures
            r == *self,
    {
        let name = match &self.name {
            Some(n) => Some(n.clone()),
            None => None,
        };
        Session { id: self.id, status: self.status, name }
    }
}

impl SessionStatus {
    /// The user that a session of this status is bound to.
    pub open spec fn spec_user_id(self) -> Option<UserId> {
        match self {
            SessionStatus::Unauthorized => None,
            SessionStatus::Authorized { user_id } => Some(user_id),
            SessionStatus::Sudo { user_id, .. } => Some(user_id),
        }
    }
}

impl Session {
    /// The user that the session is bound to, if any.
    pub open spec fn spec_user_id(self) -> Option<UserId> {
        self.status.spec_user_id()
    }

    /// A session sees itself, and every session of the user it is bound to.
    pub open spec fn spec_can_see(self, other: Session) -> bool {
        self.id == other.id || (self.spec_user_id() is Some && self.spec_user_id()
            == other.spec_user_id())
    }

    /// The user that the session is bound to, if any.
    pub fn user_id(&self) -> (r: Option<UserId>)
        ensures
            r == self.spec_user_id(),
    {
        match self.status {
            SessionStatus::Unauthorized => None,
            SessionStatus::Authorized { user_id } => Some(user_id),
            SessionStatus::Sudo { user_id, .. } => Some(user_id),
        }
    }

    /// Whether this session may learn of `other`.
    pub fn can_see(&self, other: &Session) -> (r: bool)
        ensures
            r == self.spec_can_see(*other),
    {
        if self.id == other.id {
            return true;
        }
        match (self.user_id(), other.user_id()) {
            (Some(a), Some(b)) => a == b,
            _ => false,
        }
    }
}

} // verus!
