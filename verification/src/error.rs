//! The failures that the core reports to its callers.

use vstd::prelude::*;

verus! {

/// The fixed reasons with which a client's request is turned away.
#[derive(Clone, Copy, Debug, PartialEq, Eq, Structural, Hash)]
pub enum Reason {
    /// A resume asked for envelopes that the replay buffer no longer holds.
    TooOld,
    /// A resume named no known connection, or one of another session.
    BadReconnect,
    /// A disconnected connection fell too far behind and was given up.
    ExpiredSession,
    /// A binary frame arrived on a text protocol.
    Binary,
    /// A text frame did not hold a client message.
    BadFrame,
    /// `Hello` arrived on a connection that is past its handshake.
    AlreadyAuthenticated,
    /// A guest account asked to create a server invite.
    GuestCreateInvite,
    /// A guest account asked to list the server's invites.
    GuestListInvites,
    /// An application that is no bridge asked for a puppet.
    NotABridge,
}

/// Why an operation was refused.
#[derive(Clone, Copy, Debug, PartialEq, Eq, Structural, Hash)]
pub enum Error {
    /// No credentials, or credentials that resolve to no session.
    MissingAuth,
    /// The session is not bound to a user.
    UnauthSession,
    /// A capability check failed.
    MissingPermissions,
    /// The target does not exist, or the caller may not know that it does.
    NotFound,
    /// The request would change nothing.
    NotModified,
    /// The client broke the protocol.
    BadStatic(Reason),
    /// The request holds a value that is not allowed.
    Validation,
    /// The operation is not provided.
    Unimplemented,
    /// The data provider or the network failed.
    Transport,
    /// The server is at fault.
    Internal,
}

impl Reason {
    /// The text sent to the client.
    pub open spec fn spec_text(self) -> &'static str {
        match self {
            Reason::TooOld => "too old",
            Reason::BadReconnect => "bad or expired reconnection info",
            Reason::ExpiredSession => "expired session",
            Reason::Binary => "doesn't support binary sorry",
            Reason::BadFrame => "bad message",
            Reason::AlreadyAuthenticated => "already authenticated",
            Reason::GuestCreateInvite => "Guest users cannot create server invites",
            Reason::GuestListInvites => "Guest users cannot list server invites",
            Reason::NotABridge => "can't create that user",
        }
    }

    /// The text sent to the client.
    pub fn text(self) -> (r: &'static str)
        ensures
            r == self.spec_text(),
    {
        match self {
            Reason::TooOld => "too old",
            Reason::BadReconnect => "bad or expired reconnection info",
            Reason::ExpiredSession => "expired session",
            Reason::Binary => "doesn't support binary sorry",
            Reason::BadFrame => "bad message",
            Reason::AlreadyAuthenticated => "already authenticated",
            Reason::GuestCreateInvite => "Guest users cannot create server invites",
            Reason::GuestListInvites => "Guest users cannot list server invites",
            Reason::NotABridge => "can't create that user",
        }
    }
}

impl Error {
    /// A fatal error ends the connection for good; after any other error the
    /// connection is kept, disconnected, for a later resume.
    pub open spec fn spec_is_fatal(self) -> bool {
        self == Error::BadStatic(Reason::BadReconnect) || self == Error::BadStatic(
            Reason::ExpiredSession,
        )
    }

    /// Whether the connection that met this error must end for good.
    pub fn is_fatal(self) -> (r: bool)
        ensures
            r == self.spec_is_fatal(),
    {
        match self {
            Error::BadStatic(Reason::BadReconnect) => true,
            Error::BadStatic(Reason::ExpiredSession) => true,
            _ => false,
        }
    }
}

} // verus!
