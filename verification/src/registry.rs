//! The resume registry: the connections that lost their transport and wait
//! to be taken up again, by identifier.
//!
//! The registry is shared by the tasks of all connections. What it holds at
//! any moment depends on what the others do, so nothing is promised of what
//! a call finds in it; what is done with what was found is verified.

use crate::error::{Error, Reason};
use crate::session::Session;
use crate::sync::{
    Connection, ConnectionState, ConnectionView, MessageEnvelope, MessagePayload, Resume,
};
use dashmap::DashMap;
use vstd::prelude::*;

verus! {

/// The concurrent map of the `dashmap` crate.
#[verifier::external_type_specification]
#[verifier::external_body]
#[verifier::reject_recursive_types(K)]
#[verifier::reject_recursive_types(V)]
#[verifier::reject_recursive_types(S)]
pub struct ExDashMap<K, V, S>(DashMap<K, V, S>);

/// Takes the connection stored under `id` out of the registry with
/// `dashmap::DashMap::remove`. Nothing is claimed of the result: other tasks
/// fill and empty the registry at any time. The call can block for ever
/// while the caller holds a reference into the map; this library never
/// takes one.
#[verifier::external_body]
fn take(syncers: &DashMap<String, Connection>, id: &str) -> (r: Option<Connection>) {
    syncers.remove(id).map(|(_, conn)| conn)
}

/// Stores `conn` under `id` with `dashmap::DashMap::insert`, in place of
/// whatever was stored there.
#[verifier::external_body]
fn put(syncers: &DashMap<String, Connection>, id: String, conn: Connection) {
    syncers.insert(id, conn);
}

/// Handles the resume request of a `Hello` on the fresh connection `conn`
/// whose token resolved to `session`: takes the connection that the request
/// names out of the registry and takes it up. The connection taken out does
/// not go back, whatever comes of the request.
///
/// On success `conn` has become the earlier connection, bound to `session`
/// and set back to the sequence number of the request, and the result is
/// the `Resumed` control to send at once. On failure `conn` is as it was;
/// the reason is "already authenticated" where `conn` is past its handshake,
/// in which case the registry is not touched, and else "bad or expired
/// reconnection info" or "too old".
pub fn resume_from(
    conn: &mut Connection,
    syncers: &DashMap<String, Connection>,
    session: &Session,
    resume: &Resume,
) -> (r: Result<MessageEnvelope, Error>)
    ensures
        final(conn)@.wf(),
        match r {
            Ok(e) => e == (MessageEnvelope { payload: MessagePayload::Resumed }) && old(
                conn,
            )@.state is Unauthed && exists|prior: ConnectionView|
                prior.wf() && prior.resumable_by(*session) && prior.can_rewind(resume.seq)
                    && final(conn)@ == #[trigger] prior.resumed(*session, resume.seq),
            Err(e) => final(conn)@ == old(conn)@ && if old(conn)@.state is Unauthed {
                e == Error::BadStatic(Reason::BadReconnect) || e == Error::BadStatic(
                    Reason::TooOld,
                )
            } else {
                e == Error::BadStatic(Reason::AlreadyAuthenticated)
            },
        },
{
    match conn.state() {
        ConnectionState::Unauthed => {},
        _ => {
            return conn.resume(session, None, resume.seq);
        },
    }
    let prior = take(syncers, resume.conn.as_str());
    let ghost found = prior;
    let r = conn.resume(session, prior, resume.seq);
    proof {
        if r is Ok {
            let c = found.unwrap()@;
            assert(c.wf() && conn@ == c.resumed(*session, resume.seq));
        }
    }
    r
}

/// Ends the life of a connection on its transport. A connection that was
/// authenticated is marked as disconnected and stored in the registry under
/// its identifier, to be taken up again; the result is `None`. Any other
/// connection is handed back unchanged.
pub fn park(conn: Connection, syncers: &DashMap<String, Connection>) -> (r: Option<Connection>)
    ensures
        r is Some == (conn@.state is Unauthed),
        r matches Some(c) ==> c@ == conn@,
{
    let mut conn = conn;
    conn.disconnect();
    match conn.state() {
        ConnectionState::Unauthed => Some(conn),
        _ => {
            let id = conn.get_id().to_owned();
            put(syncers, id, conn);
            None
        },
    }
}

} // verus!
