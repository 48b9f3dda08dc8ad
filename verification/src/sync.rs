//! The per-connection delivery state machine.
//!
//! A connection assigns sequence numbers to the events it may see, keeps the
//! latest of them for replay, and hands out what its client has not received
//! yet. It decides; the caller performs the transport and the lookups and
//! reports back what came of them.

use crate::error::{Error, Reason};
use crate::event::{AuthCheck, MessageSync};
use crate::filter::{
    authorized, enrichment, lookup, spec_authorized, spec_enrichment, spec_lookup, Answer,
    Enrichment, Lookup,
};
use crate::ids::{random_id_string, UserId};
use crate::seq_lemmas::{
    lemma_filter_commutes, lemma_filter_embeds, lemma_filter_first, lemma_filter_idempotent,
    lemma_filter_keeps, lemma_filter_last, lemma_filter_none, lemma_filter_prefix,
    lemma_filter_reverse,
};
use crate::session::Session;
use std::collections::VecDeque;
use vstd::prelude::*;

verus! {

/// The most envelopes that a connection keeps.
pub const MAX_QUEUE_LEN: usize = 256;

/// Milliseconds between the last sign of life and the next ping.
pub const HEARTBEAT_TIME: u64 = 30_000;

/// Milliseconds that a ping may stay unanswered before the transport is closed.
pub const CLOSE_TIME: u64 = 10_000;

/// What a published frame carries.
#[derive(Debug, PartialEq, Eq, Hash)]
pub enum MessagePayload {
    /// The handshake succeeded. `user` is the user's record as the client
    /// reads it.
    Ready { user: Option<String>, session: Session, conn: String, seq: u64 },
    /// A resume succeeded; the missed envelopes follow.
    Resumed,
    /// The server asks for a sign of life.
    Ping,
    /// One event, numbered. `body` is the event as the client reads it.
    Sync { seq: u64, data: MessageSync, body: String },
}

/// A published frame.
#[derive(Debug, PartialEq, Eq, Hash)]
pub struct MessageEnvelope {
    pub payload: MessagePayload,
}

impl Clone for MessagePayload {
    fn clone(&self) -> (r: Self)
        ensures
            r == *self,
    {
        match self {
            MessagePayload::Ready { user, session, conn, seq } => {
                let user = match user {
                    Some(u) => Some(u.clone()),
                    None => None,
                };
                MessagePayload::Ready {
                    user,
                    session: session.clone(),
                    conn: conn.clone(),
                    seq: *seq,
                }
            },
            MessagePayload::Resumed => MessagePayload::Resumed,
            MessagePayload::Ping => MessagePayload::Ping,
            MessagePayload::Sync { seq, data, body } => MessagePayload::Sync {
                seq: *seq,
                data: data.clone(),
                body: body.clone(),
            },
        }
    }
}

impl Clone for MessageEnvelope {
    fn clone(&self) -> (r: Self)
        ensures
            r == *self,
    {
        MessageEnvelope { payload: self.payload.clone() }
    }
}

impl MessageEnvelope {
    /// The sequence number of a sequenced envelope. Controls have none.
    pub open spec fn spec_seq(self) -> Option<u64> {
        match self.payload {
            MessagePayload::Sync { seq, .. } => Some(seq),
            _ => None,
        }
    }

    /// The sequence number of a sequenced envelope. Controls have none.
    pub fn seq(&self) -> (r: Option<u64>)
        ensures
            r == self.spec_seq(),
    {
        match &self.payload {
            MessagePayload::Sync { seq, .. } => Some(*seq),
            _ => None,
        }
    }
}

/// Where a connection stands in its life.
#[derive(Debug, PartialEq, Eq, Hash)]
pub enum ConnectionState {
    /// The transport is open and no session is bound.
    Unauthed,
    /// Bound to a session.
    Authenticated { session: Session },
    /// The transport is gone; the connection is kept for a resume.
    Disconnected { session: Session },
}

impl Clone for ConnectionState {
    fn clone(&self) -> (r: Self)
        ensures
            r == *self,
    {
        match self {
            ConnectionState::Unauthed => ConnectionState::Unauthed,
            ConnectionState::Authenticated { session } => ConnectionState::Authenticated {
                session: session.clone(),
            },
            ConnectionState::Disconnected { session } => ConnectionState::Disconnected {
                session: session.clone(),
            },
        }
    }
}

impl ConnectionState {
    /// The session that the connection is bound to.
    pub open spec fn spec_session(self) -> Option<Session> {
        match self {
            ConnectionState::Unauthed => None,
            ConnectionState::Authenticated { session } => Some(session),
            ConnectionState::Disconnected { session } => Some(session),
        }
    }

    /// The session that the connection is bound to.
    pub fn session(&self) -> (r: Option<&Session>)
        ensures
            r == match self.spec_session() {
                Some(s) => Some(&s),
                None => None,
            },
    {
        match self {
            ConnectionState::Unauthed => None,
            ConnectionState::Authenticated { session } => Some(session),
            ConnectionState::Disconnected { session } => Some(session),
        }
    }
}

/// Whether an envelope carries a sequence number.
pub open spec fn is_sequenced() -> spec_fn(MessageEnvelope) -> bool {
    |e: MessageEnvelope| e.spec_seq() is Some
}

/// Whether an envelope is owed to a client that has received everything up to
/// `seq_client`: controls always, events with a higher number, and every
/// event where the client has received none.
pub open spec fn is_due(seq_client: Option<u64>) -> spec_fn(MessageEnvelope) -> bool {
    |e: MessageEnvelope|
        match (e.spec_seq(), seq_client) {
            (Some(s), Some(c)) => s > c,
            _ => true,
        }
}

/// A connection as a mathematical value.
#[verifier::ext_equal]
pub struct ConnectionView {
    pub state: ConnectionState,
    /// The kept envelopes, newest first.
    pub queue: Seq<MessageEnvelope>,
    /// The number that the next sequenced envelope gets.
    pub seq_server: nat,
    /// The highest number that the client is known to have, or `None` where
    /// it has received no event.
    pub seq_client: Option<u64>,
    pub id: Seq<char>,
}

impl ConnectionView {
    /// The sequenced envelopes that are kept, newest first.
    pub open spec fn sequenced(self) -> Seq<MessageEnvelope> {
        self.queue.filter(is_sequenced())
    }

    /// What holds of a connection at all times: it keeps at most 256
    /// envelopes, and the sequence numbers it keeps run down from the last one
    /// assigned without a gap.
    pub open spec fn wf(self) -> bool {
        &&& self.queue.len() <= MAX_QUEUE_LEN
        &&& self.seq_server <= u64::MAX
        &&& forall|i: int|
            0 <= i < self.sequenced().len() ==> (#[trigger] self.sequenced()[i]).spec_seq()
                == Some((self.seq_server - 1 - i) as u64) && self.seq_server - 1 - i >= 0
    }

    /// The session that the connection is bound to.
    pub open spec fn session(self) -> Option<Session> {
        self.state.spec_session()
    }

    /// The connection after its transport was lost: an authenticated
    /// connection is kept, with its session, for a resume; any other is as
    /// it was.
    pub open spec fn disconnected(self) -> ConnectionView {
        ConnectionView {
            state: match self.state {
                ConnectionState::Authenticated { session } => ConnectionState::Disconnected {
                    session,
                },
                s => s,
            },
            ..self
        }
    }

    /// A fresh connection with the identifier `id`.
    pub open spec fn fresh(id: Seq<char>) -> ConnectionView {
        ConnectionView {
            state: ConnectionState::Unauthed,
            queue: Seq::empty(),
            seq_server: 0,
            seq_client: None,
            id,
        }
    }

    /// The queue with `envelope` put in front and cut to its bound, so that
    /// the oldest envelope leaves when there is no room.
    pub open spec fn pushed(self, envelope: MessageEnvelope) -> ConnectionView {
        let q = seq![envelope] + self.queue;
        ConnectionView {
            queue: if q.len() > MAX_QUEUE_LEN {
                q.subrange(0, MAX_QUEUE_LEN as int)
            } else {
                q
            },
            ..self
        }
    }

    /// The envelope that carries `data` under the next sequence number.
    pub open spec fn next_envelope(self, data: MessageSync, body: String) -> MessageEnvelope {
        MessageEnvelope {
            payload: MessagePayload::Sync { seq: self.seq_server as u64, data, body },
        }
    }

    /// The connection after `data` was given the next sequence number and
    /// queued.
    pub open spec fn queued(self, data: MessageSync, body: String) -> ConnectionView {
        ConnectionView {
            seq_server: self.seq_server + 1,
            ..self.pushed(self.next_envelope(data, body))
        }
    }

    /// What the client is owed, oldest first.
    pub open spec fn pending(self) -> Seq<MessageEnvelope> {
        self.queue.reverse().filter(is_due(self.seq_client))
    }

    /// The highest sequence number among what the client is owed, or what it
    /// had already where it is owed no event.
    pub open spec fn high_water(self) -> Option<u64> {
        let s = self.sequenced();
        if s.len() > 0 && is_due(self.seq_client)(s[0]) {
            s[0].spec_seq()
        } else {
            self.seq_client
        }
    }

    /// The connection after everything owed was sent: the client has all of
    /// it, controls are dropped, events are kept for a later resume.
    pub open spec fn drained(self) -> ConnectionView {
        ConnectionView {
            queue: self.sequenced(),
            seq_client: self.high_water(),
            ..self
        }
    }

    /// The lowest sequence number that is still kept.
    pub open spec fn oldest(self) -> Option<u64> {
        if self.sequenced().len() > 0 {
            self.sequenced().last().spec_seq()
        } else {
            None
        }
    }

    /// Whether a client that has everything up to `seq` can be served from
    /// what is kept: something is kept, and `seq` is not below its oldest.
    pub open spec fn can_rewind(self, seq: u64) -> bool {
        self.oldest() matches Some(o) && o <= seq
    }

    /// The connection that takes up this one for a client that has
    /// everything up to `seq`: bound to `session` again, with this one's
    /// identifier, queue and counter.
    pub open spec fn resumed(self, session: Session, seq: u64) -> ConnectionView {
        ConnectionView {
            state: ConnectionState::Authenticated { session },
            seq_client: Some(seq),
            ..self
        }
    }

    /// Whether this connection can be taken up under `session`: it is bound
    /// to that very session.
    pub open spec fn resumable_by(self, session: Session) -> bool {
        self.session() matches Some(s) && s.id == session.id
    }

    /// Whether the connection looks at events at all: it is bound to a
    /// session and has not expired.
    pub open spec fn admits(self) -> bool {
        self.session() is Some && !self.expired()
    }

    /// The session by which `msg` is judged: the connection's own, in its new
    /// form where `msg` brings one.
    pub open spec fn viewer(self, msg: MessageSync) -> Session {
        msg.spec_adopted(self.session().unwrap())
    }

    /// The question that `msg` asks of this connection.
    pub open spec fn check(self, msg: MessageSync) -> AuthCheck {
        msg.spec_auth_check(self.viewer(msg))
    }

    /// Whether `msg` is queued for this connection, given what was looked up:
    /// the connection looks at events, and the authorization predicate holds
    /// of the event, the bound user and the answer.
    pub open spec fn delivers(self, msg: MessageSync, answer: Answer) -> bool {
        self.admits() && spec_authorized(
            self.viewer(msg).spec_user_id(),
            self.check(msg),
            answer,
        )
    }

    /// The connection after it has taken note of `msg`: the deletion of its
    /// session unbinds it, a new record of its session replaces the old one
    /// in place, and nothing else touches it.
    pub open spec fn observed(self, msg: MessageSync) -> ConnectionView {
        ConnectionView {
            state: match self.state {
                ConnectionState::Unauthed => ConnectionState::Unauthed,
                ConnectionState::Authenticated { session } => if msg.spec_ends(session) {
                    ConnectionState::Unauthed
                } else {
                    ConnectionState::Authenticated { session: msg.spec_adopted(session) }
                },
                ConnectionState::Disconnected { session } => if msg.spec_ends(session) {
                    ConnectionState::Unauthed
                } else {
                    ConnectionState::Disconnected { session: msg.spec_adopted(session) }
                },
            },
            ..self
        }
    }

    /// The highest number that the client is known to have, and -1 where it
    /// has received no event.
    pub open spec fn received(self) -> int {
        match self.seq_client {
            Some(c) => c as int,
            None => -1,
        }
    }

    /// Whether the connection lost its transport and then fell more than a
    /// full queue behind.
    pub open spec fn expired(self) -> bool {
        self.state is Disconnected && self.seq_server > self.received() + MAX_QUEUE_LEN
    }
}

/// The deadline that the driver of a connection waits for, in milliseconds
/// on the driver's monotonic clock.
#[derive(Clone, Copy, Debug, PartialEq, Eq, Structural, Hash)]
pub enum Timeout {
    /// When to ask the client for a sign of life.
    Ping(u64),
    /// When to give up on an unanswered ping.
    Close(u64),
}

/// What the driver does when it looks at the clock.
#[derive(Clone, Copy, Debug, PartialEq, Eq, Structural, Hash)]
pub enum TimeoutAction {
    /// The deadline has not come.
    Wait,
    /// Send a `Ping` control.
    SendPing,
    /// Close the transport and keep the connection for a resume.
    Close,
}

/// What the driver does about an error.
#[derive(Clone, Copy, Debug, PartialEq, Eq, Structural, Hash)]
pub enum ErrorAction {
    /// Tell the client; the connection stays open.
    Report,
    /// Close the transport with the reason; the connection is kept for a
    /// resume.
    Close,
    /// Close the transport with the reason, for good.
    Terminate,
}

/// A request to take up an earlier connection.
#[derive(Debug, PartialEq, Eq, Hash)]
pub struct Resume {
    /// The identifier of the earlier connection.
    pub conn: String,
    /// The highest sequence number that the client has received.
    pub seq: u64,
}

/// A message from the client. `status` and `payload` are carried as the
/// client wrote them.
#[allow(inconsistent_fields)]
#[derive(Debug, PartialEq, Eq, Hash)]
pub enum MessageClient {
    Hello { token: String, resume: Option<Resume>, status: Option<String> },
    Status { status: String },
    Pong,
    VoiceDispatch { user_id: UserId, payload: String },
}

/// One frame from the transport.
#[derive(Debug, PartialEq, Eq, Hash)]
pub enum Frame {
    /// A text frame: the message it holds, or `None` where it holds none.
    Text(Option<MessageClient>),
    Binary,
    /// Any other frame.
    Other,
}

/// What the driver has to do for a client's message.
#[allow(inconsistent_fields)]
#[derive(Debug, PartialEq, Eq, Hash)]
pub enum ClientAction {
    /// Resolve `token` to a session and go on with the handshake.
    Hello { token: String, resume: Option<Resume>, status: Option<String> },
    /// Apply `status` to the presence of `user_id`.
    SetStatus { user_id: UserId, status: String },
    /// Keep the presence of `user_id` alive, then set the timer to the next
    /// ping.
    Pong { user_id: UserId },
    /// Forward `payload` to the media unit in the name of `user_id`.
    VoiceDispatch { user_id: UserId, payload: String },
}

/// The presence that a user gets at the handshake.
#[derive(Debug, PartialEq, Eq, Hash)]
pub enum Presence {
    /// The client asked for nothing: the user is online.
    Online,
    /// What the client asked for, applied to an offline presence.
    FromOffline(String),
}

impl Timeout {
    /// The timer after a sign of life at `now`: a ping is due 30 s later.
    pub fn for_ping(now: u64) -> (r: Timeout)
        requires
            now + HEARTBEAT_TIME <= u64::MAX,
        ensures
            r == Timeout::Ping((now + HEARTBEAT_TIME) as u64),
    {
        Timeout::Ping(now + HEARTBEAT_TIME)
    }

    /// The timer after a ping at `now`: the transport is closed 10 s later
    /// unless the client answers.
    pub fn for_close(now: u64) -> (r: Timeout)
        requires
            now + CLOSE_TIME <= u64::MAX,
        ensures
            r == Timeout::Close((now + CLOSE_TIME) as u64),
    {
        Timeout::Close(now + CLOSE_TIME)
    }

    /// The deadline.
    pub open spec fn spec_instant(self) -> u64 {
        match self {
            Timeout::Ping(instant) => instant,
            Timeout::Close(instant) => instant,
        }
    }

    /// The deadline.
    pub fn get_instant(&self) -> (r: u64)
        ensures
            r == self.spec_instant(),
    {
        match self {
            Timeout::Ping(instant) => *instant,
            Timeout::Close(instant) => *instant,
        }
    }
}

/// The session that a handshake goes on with, given what the lookup of the
/// token came to. A token that resolves to nothing is a failed
/// authentication; any other failure is passed on.
pub fn hello_session(found: Result<Session, Error>) -> (r: Result<Session, Error>)
    ensures
        r == match found {
            Err(Error::NotFound) => Err::<Session, Error>(Error::MissingAuth),
            other => other,
        },
{
    match found {
        Err(Error::NotFound) => Err(Error::MissingAuth),
        other => other,
    }
}

/// The presence that a user gets at the handshake.
pub fn hello_presence(status: Option<String>) -> (r: Presence)
    ensures
        r == match status {
            Some(s) => Presence::FromOffline(s),
            None => Presence::Online,
        },
{
    match status {
        Some(s) => Presence::FromOffline(s),
        None => Presence::Online,
    }
}

/// What an answer of the media unit with the HTTP status `status` means: any
/// status from 200 to 299 is success, any other a failure of the transport.
pub fn voice_dispatch_result(status: u16) -> (r: Result<(), Error>)
    ensures
        r == if 200 <= status < 300 {
            Ok::<(), Error>(())
        } else {
            Err::<(), Error>(Error::Transport)
        },
{
    if 200 <= status && status < 300 {
        Ok(())
    } else {
        Err(Error::Transport)
    }
}

/// Putting a control in front of the queue keeps a connection well formed.
proof fn lemma_pushed_control_wf(c: ConnectionView, e: MessageEnvelope)
    requires
        c.wf(),
        e.spec_seq() is None,
    ensures
        c.pushed(e).wf(),
{
    let q1 = seq![e] + c.queue;
    c.queue.lemma_filter_prepend(e, is_sequenced());
    assert(q1.filter(is_sequenced()) =~= c.sequenced());
    let q2 = c.pushed(e).queue;
    if q1.len() > MAX_QUEUE_LEN {
        lemma_filter_prefix(q1, MAX_QUEUE_LEN as int, is_sequenced());
    }
    assert forall|i: int| 0 <= i < c.pushed(e).sequenced().len() implies (
    #[trigger] c.pushed(e).sequenced()[i]).spec_seq() == Some((c.seq_server - 1 - i) as u64)
        && c.seq_server - 1 - i >= 0 by {
        assert(c.pushed(e).sequenced()[i] == c.sequenced()[i]);
    }
}

/// Queueing an event under the next sequence number keeps a connection well
/// formed: the numbers kept still run down from the last one assigned
/// without a gap.
proof fn lemma_queued_wf(c: ConnectionView, data: MessageSync, body: String)
    requires
        c.wf(),
        c.seq_server < u64::MAX,
    ensures
        c.queued(data, body).wf(),
{
    let e = c.next_envelope(data, body);
    let q1 = seq![e] + c.queue;
    c.queue.lemma_filter_prepend(e, is_sequenced());
    assert(q1.filter(is_sequenced()) =~= seq![e] + c.sequenced());
    let n = c.queued(data, body);
    if q1.len() > MAX_QUEUE_LEN {
        lemma_filter_prefix(q1, MAX_QUEUE_LEN as int, is_sequenced());
    }
    assert forall|i: int| 0 <= i < n.sequenced().len() implies (
    #[trigger] n.sequenced()[i]).spec_seq() == Some((n.seq_server - 1 - i) as u64)
        && n.seq_server - 1 - i >= 0 by {
        assert(n.sequenced()[i] == (seq![e] + c.sequenced())[i]);
        if i > 0 {
            assert((seq![e] + c.sequenced())[i] == c.sequenced()[i - 1]);
        }
    }
}

/// Dropping the controls keeps a connection well formed.
proof fn lemma_drained_wf(c: ConnectionView)
    requires
        c.wf(),
    ensures
        c.drained().wf(),
{
    lemma_filter_idempotent(c.queue, is_sequenced());
    c.queue.lemma_filter_len(is_sequenced());
    let s = c.sequenced();
    if s.len() > 0 {
        assert(s[0].spec_seq() == Some((c.seq_server - 1) as u64));
    }
}

/// The sequence numbers that a connection keeps form a run without gaps:
/// from each sequenced envelope to the next older one the number falls by
/// exactly one, and the newest carries the number assigned last.
pub proof fn lemma_sequence_contiguous(c: ConnectionView, i: int, j: int)
    requires
        c.wf(),
        0 <= i <= j < c.sequenced().len(),
    ensures
        c.sequenced()[0].spec_seq() == Some((c.seq_server - 1) as u64),
        c.sequenced()[i].spec_seq().unwrap() == c.sequenced()[j].spec_seq().unwrap() + (j - i),
{
    assert(c.sequenced()[0].spec_seq() == Some((c.seq_server - 1) as u64));
    assert(c.sequenced()[i].spec_seq() == Some((c.seq_server - 1 - i) as u64));
    assert(c.sequenced()[j].spec_seq() == Some((c.seq_server - 1 - j) as u64));
}

/// Of two sequenced envelopes in the queue, the one nearer the front carries
/// the higher number.
pub proof fn lemma_queue_falls(c: ConnectionView, a: int, b: int)
    requires
        c.wf(),
        0 <= a < b < c.queue.len(),
        c.queue[a].spec_seq() is Some,
        c.queue[b].spec_seq() is Some,
    ensures
        c.queue[a].spec_seq().unwrap() > c.queue[b].spec_seq().unwrap(),
{
    lemma_filter_keeps(c.queue, is_sequenced(), a, b);
    let (i, j) = choose|i: int, j: int|
        0 <= i < j < c.sequenced().len() && c.queue[a] == c.sequenced()[i] && c.queue[b]
            == c.sequenced()[j];
    lemma_sequence_contiguous(c, i, j);
}

/// A client that comes back with `seq = k` is owed exactly what is kept and
/// due above `k`: every event in the queue with a number above `k`, no event
/// with a lower one, in rising order of their numbers, so that none comes
/// twice.
pub proof fn lemma_resume_replays(c: ConnectionView, session: Session, k: u64)
    requires
        c.wf(),
    ensures
        forall|e: MessageEnvelope| #[trigger]
            c.resumed(session, k).pending().contains(e) <==> c.queue.contains(e) && is_due(
                Some(k),
            )(e),
        forall|i: int, j: int|
            #![trigger c.resumed(session, k).pending()[i], c.resumed(session, k).pending()[j]]
            0 <= i < j < c.resumed(session, k).pending().len() && c.resumed(
                session,
                k,
            ).pending()[i].spec_seq() is Some && c.resumed(session, k).pending()[j].spec_seq()
                is Some ==> c.resumed(session, k).pending()[i].spec_seq().unwrap() < c.resumed(
                session,
                k,
            ).pending()[j].spec_seq().unwrap(),
{
    let due = is_due(Some(k));
    let r = c.queue.reverse();
    let out = c.resumed(session, k).pending();
    assert(out == r.filter(due));
    assert forall|e: MessageEnvelope| #[trigger] out.contains(e) <==> c.queue.contains(e) && due(
        e,
    ) by {
        if out.contains(e) {
            r.lemma_filter_contains_rev(due, e);
            let m = choose|m: int| 0 <= m < out.len() && out[m] == e;
            r.lemma_filter_pred(due, m);
            let n = choose|n: int| 0 <= n < r.len() && r[n] == e;
            assert(c.queue[c.queue.len() - 1 - n] == e);
        }
        if c.queue.contains(e) && due(e) {
            let n = choose|n: int| 0 <= n < c.queue.len() && c.queue[n] == e;
            assert(r[c.queue.len() - 1 - n] == e);
            r.lemma_filter_contains(due, c.queue.len() - 1 - n);
        }
    }
    assert forall|i: int, j: int|
        0 <= i < j < out.len() && out[i].spec_seq() is Some && out[j].spec_seq()
            is Some implies out[i].spec_seq().unwrap() < out[j].spec_seq().unwrap() by {
        lemma_filter_embeds(r, due, i, j);
        let (a, b) = choose|a: int, b: int|
            0 <= a < b < r.len() && r[a] == out[i] && r[b] == out[j];
        lemma_queue_falls(c, c.queue.len() - 1 - b, c.queue.len() - 1 - a);
    }
}

/// No event brings a disconnected connection back: it stays disconnected, or
/// loses its session; only a resume binds it to a transport again. And no
/// event binds a connection that is bound to nothing.
pub proof fn lemma_events_never_reconnect(c: ConnectionView, msg: MessageSync)
    ensures
        c.state is Disconnected ==> !(c.observed(msg).state is Authenticated),
        c.state is Unauthed ==> c.observed(msg) == c,
        c.observed(msg).queue == c.queue,
        c.observed(msg).seq_server == c.seq_server,
        c.observed(msg).seq_client == c.seq_client,
{
}

/// Nothing is sent twice: once everything owed was handed out, nothing is
/// owed.
pub proof fn lemma_drained_owes_nothing(c: ConnectionView)
    requires
        c.wf(),
    ensures
        c.drained().pending().len() == 0,
{
    let d = c.drained();
    let due = is_due(d.seq_client);
    lemma_drained_wf(c);
    lemma_filter_idempotent(c.queue, is_sequenced());
    assert forall|j: int| 0 <= j < d.queue.reverse().len() implies !due(
        #[trigger] d.queue.reverse()[j],
    ) by {
        let n = d.queue.len();
        let e = d.queue[n - 1 - j];
        c.queue.lemma_filter_pred(is_sequenced(), n - 1 - j);
        assert(d.sequenced() == d.queue);
        assert(d.sequenced()[n - 1 - j].spec_seq() == Some((d.seq_server - 1 - (n - 1 - j)) as u64));
        assert(c.sequenced()[0].spec_seq() == Some((c.seq_server - 1) as u64));
    }
    lemma_filter_none(d.queue.reverse(), due);
}

/// Resume is idempotent: once everything owed was handed out, a client that
/// comes back with the same `seq = k` is owed the same events again, and no
/// control.
pub proof fn lemma_resume_idempotent(c: ConnectionView, session: Session, k: u64)
    requires
        c.wf(),
    ensures
        c.resumed(session, k).drained().resumed(session, k).pending() == c.resumed(
            session,
            k,
        ).pending().filter(is_sequenced()),
        c.resumed(session, k).drained().resumed(session, k).pending().filter(is_sequenced())
            == c.resumed(session, k).drained().resumed(session, k).pending(),
{
    let due = is_due(Some(k));
    lemma_filter_reverse(c.queue, is_sequenced());
    lemma_filter_commutes(c.queue.reverse(), is_sequenced(), due);
    lemma_filter_idempotent(c.queue.reverse().filter(due), is_sequenced());
}

/// One client's connection.
pub struct Connection {
    state: ConnectionState,
    queue: VecDeque<MessageEnvelope>,
    seq_server: u64,
    seq_client: Option<u64>,
    id: String,
}

impl View for Connection {
    type V = ConnectionView;

    closed spec fn view(&self) -> ConnectionView {
        ConnectionView {
            state: self.state,
            queue: self.queue@,
            seq_server: self.seq_server as nat,
            seq_client: self.seq_client,
            id: self.id@,
        }
    }
}

impl Connection {
    /// Every connection is well formed, at all times.
    #[verifier::type_invariant]
    closed spec fn inv(&self) -> bool {
        self@.wf()
    }

    /// A connection with a fresh random identifier, bound to no session, with
    /// nothing queued and both counters at zero.
    pub fn new() -> (r: Connection)
        ensures
            r@ == ConnectionView::fresh(r@.id),
            r@.id.len() == 36,
            r@.wf(),
    {
        let queue: VecDeque<MessageEnvelope> = VecDeque::new();
        proof {
            assert(queue@.filter(is_sequenced()) =~= Seq::<MessageEnvelope>::empty()) by {
                reveal(Seq::filter);
            }
        }
        Connection {
            state: ConnectionState::Unauthed,
            queue,
            seq_server: 0,
            seq_client: None,
            id: random_id_string(),
        }
    }

    /// The identifier under which the connection can be resumed.
    pub fn get_id(&self) -> (r: &str)
        ensures
            r@ == self@.id,
    {
        self.id.as_str()
    }

    /// Where the connection stands.
    pub fn state(&self) -> (r: &ConnectionState)
        ensures
            *r == self@.state,
    {
        &self.state
    }

    /// The number that the next sequenced envelope gets.
    pub fn seq_server(&self) -> (r: u64)
        ensures
            r == self@.seq_server,
    {
        self.seq_server
    }

    /// The highest number that the client is known to have, or `None` where
    /// it has received no event.
    pub fn seq_client(&self) -> (r: Option<u64>)
        ensures
            r == self@.seq_client,
    {
        self.seq_client
    }

    /// How many envelopes are kept: never more than 256.
    pub fn queue_len(&self) -> (r: usize)
        ensures
            r == self@.queue.len(),
            r <= MAX_QUEUE_LEN,
            self@.wf(),
    {
        proof {
            use_type_invariant(self);
        }
        self.queue.len()
    }

    /// Marks the transport as lost. An authenticated connection is kept, with
    /// its session, for a resume; any other is left as it is.
    pub fn disconnect(&mut self)
        ensures
            final(self)@ == old(self)@.disconnected(),
            final(self)@.wf(),
    {
        proof {
            use_type_invariant(&*self);
        }
        let next = match &self.state {
            ConnectionState::Authenticated { session } => ConnectionState::Disconnected {
                session: session.clone(),
            },
            s => s.clone(),
        };
        self.state = next;
    }

    /// Whether the connection lost its transport and then fell more than a
    /// full queue behind. Such a connection is given up.
    pub fn is_expired(&self) -> (r: bool)
        ensures
            r == self@.expired(),
    {
        match &self.state {
            ConnectionState::Disconnected { .. } => match self.seq_client {
                Some(c) => self.seq_server > c && self.seq_server - c > MAX_QUEUE_LEN as u64,
                None => self.seq_server >= MAX_QUEUE_LEN as u64,
            },
            _ => false,
        }
    }

    /// Takes the queue out of the connection, which is left with an empty
    /// one, to work on it.
    fn take_queue(&mut self) -> (queue: VecDeque<MessageEnvelope>)
        ensures
            queue@ == old(self)@.queue,
            final(self)@ == (ConnectionView { queue: Seq::empty(), ..old(self)@ }),
    {
        proof {
            use_type_invariant(&*self);
        }
        let mut queue: VecDeque<MessageEnvelope> = VecDeque::new();
        proof {
            assert(queue@.filter(is_sequenced()) =~= Seq::<MessageEnvelope>::empty()) by {
                reveal(Seq::filter);
            }
        }
        std::mem::swap(&mut self.queue, &mut queue);
        queue
    }

    /// Puts `msg` in front of `queue`; the oldest envelope leaves where the
    /// queue is full.
    fn push(queue: &mut VecDeque<MessageEnvelope>, msg: MessageEnvelope)
        requires
            old(queue)@.len() <= MAX_QUEUE_LEN,
        ensures
            final(queue)@ == if old(queue)@.len() + 1 > MAX_QUEUE_LEN {
                (seq![msg] + old(queue)@).subrange(0, MAX_QUEUE_LEN as int)
            } else {
                seq![msg] + old(queue)@
            },
    {
        queue.push_front(msg);
        queue.truncate(MAX_QUEUE_LEN);
        proof {
            if old(queue)@.len() + 1 <= MAX_QUEUE_LEN {
                assert(queue@ =~= seq![msg] + old(queue)@);
            }
        }
    }

    /// Gives `data` the next sequence number and queues it. The counter moves
    /// on whether or not the envelope ever reaches the transport.
    fn push_sync(&mut self, data: MessageSync, body: String)
        requires
            old(self)@.seq_server < u64::MAX,
        ensures
            final(self)@ == old(self)@.queued(data, body),
            final(self)@.wf(),
    {
        proof {
            use_type_invariant(&*self);
            lemma_queued_wf(old(self)@, data, body);
        }
        let seq = self.seq_server;
        let msg = MessageEnvelope { payload: MessagePayload::Sync { seq, data, body } };
        let mut queue = self.take_queue();
        Self::push(&mut queue, msg);
        self.seq_server = self.seq_server + 1;
        proof {
            assert(queue@ =~= old(self)@.queued(data, body).queue);
        }
        std::mem::swap(&mut self.queue, &mut queue);
    }

    /// Queues a control envelope. Controls carry no sequence number and do
    /// not move the counter.
    pub fn push_control(&mut self, msg: MessageEnvelope)
        requires
            msg.spec_seq() is None,
        ensures
            final(self)@ == old(self)@.pushed(msg),
            final(self)@.wf(),
    {
        proof {
            use_type_invariant(&*self);
            lemma_pushed_control_wf(old(self)@, msg);
        }
        let mut queue = self.take_queue();
        Self::push(&mut queue, msg);
        proof {
            assert(queue@ =~= old(self)@.pushed(msg).queue);
        }
        std::mem::swap(&mut self.queue, &mut queue);
    }

    /// How the connection judges `msg`: the session it judges by, the
    /// question asked, and whether `msg` deletes that session. `None` where
    /// the connection does not look at events.
    fn judge(&self, msg: &MessageSync) -> (r: Option<(Session, AuthCheck, bool)>)
        requires
            self@.admits() ==> msg.spec_has_rule(),
        ensures
            r is Some == self@.admits(),
            r matches Some((viewer, check, ends)) ==> viewer == self@.viewer(*msg) && check
                == self@.check(*msg) && ends == msg.spec_ends(self@.session().unwrap()),
    {
        let session = match &self.state {
            ConnectionState::Authenticated { session } => session,
            ConnectionState::Disconnected { session } => session,
            ConnectionState::Unauthed => {
                return None;
            },
        };
        if self.is_expired() {
            return None;
        }
        let ends = match msg {
            MessageSync::SessionDelete { id, .. } => *id == session.id,
            _ => false,
        };
        let viewer = match msg {
            MessageSync::SessionCreate { session: upserted } => if upserted.id == session.id {
                upserted.clone()
            } else {
                session.clone()
            },
            MessageSync::SessionUpdate { session: upserted } => if upserted.id == session.id {
                upserted.clone()
            } else {
                session.clone()
            },
            _ => session.clone(),
        };
        let check = msg.auth_check(&viewer);
        Some((viewer, check, ends))
    }

    /// What must be looked up before `msg` can be queued: nothing where the
    /// connection does not look at events or the question needs no lookup.
    pub fn lookup_for(&self, msg: &MessageSync) -> (r: Lookup)
        requires
            self@.admits() ==> msg.spec_has_rule(),
        ensures
            r == if self@.admits() {
                spec_lookup(self@.viewer(*msg).spec_user_id(), self@.check(*msg))
            } else {
                Lookup::Nothing
            },
    {
        match self.judge(msg) {
            Some((viewer, check, _)) => lookup(viewer.user_id(), check),
            None => Lookup::Nothing,
        }
    }

    /// What must be loaded for the recipient before `msg` is queued: nothing
    /// where `msg` will not be queued.
    pub fn enrichment_for(&self, msg: &MessageSync, answer: &Answer) -> (r: Enrichment)
        requires
            self@.admits() ==> msg.spec_has_rule(),
        ensures
            r == if self@.delivers(*msg, *answer) {
                spec_enrichment(*msg, self@.viewer(*msg).spec_user_id())
            } else {
                Enrichment::Nothing
            },
    {
        match self.judge(msg) {
            Some((viewer, check, _)) => {
                let user = viewer.user_id();
                if authorized(user, check, answer) {
                    enrichment(msg, user)
                } else {
                    Enrichment::Nothing
                }
            },
            None => Enrichment::Nothing,
        }
    }

    /// Takes one published event. A connection bound to no session ignores
    /// it. A disconnected connection that fell more than a full queue behind
    /// is given up: the call fails and changes nothing. Otherwise the
    /// connection takes note of the event, and queues it under the next
    /// sequence number exactly if the authorization predicate holds of it;
    /// the result says whether it was queued. `body` is the event as this
    /// recipient reads it, `answer` what `lookup_for` asked for.
    pub fn queue_message(&mut self, msg: MessageSync, body: String, answer: &Answer) -> (r: Result<
        bool,
        Error,
    >)
        requires
            old(self)@.admits() ==> msg.spec_has_rule(),
            old(self)@.seq_server < u64::MAX,
        ensures
            final(self)@.wf(),
            old(self)@.expired() ==> r == Err::<bool, Error>(
                Error::BadStatic(Reason::ExpiredSession),
            ) && final(self)@ == old(self)@,
            !old(self)@.expired() ==> r == Ok::<bool, Error>(old(self)@.delivers(msg, *answer)),
            !old(self)@.expired() ==> final(self)@ == if old(self)@.delivers(msg, *answer) {
                old(self)@.observed(msg).queued(msg, body)
            } else {
                old(self)@.observed(msg)
            },
    {
        proof {
            use_type_invariant(&*self);
        }
        if self.is_expired() {
            return Err(Error::BadStatic(Reason::ExpiredSession));
        }
        let (viewer, check, ends) = match self.judge(&msg) {
            Some(j) => j,
            None => {
                return Ok(false);
            },
        };
        let send = authorized(viewer.user_id(), check, answer);
        let next = if ends {
            ConnectionState::Unauthed
        } else {
            match &self.state {
                ConnectionState::Disconnected { .. } => ConnectionState::Disconnected {
                    session: viewer,
                },
                _ => ConnectionState::Authenticated { session: viewer },
            }
        };
        self.state = next;
        assert(self@ == old(self)@.observed(msg));
        if send {
            self.push_sync(msg, body);
        }
        Ok(send)
    }

    /// The position of the newest sequenced envelope.
    fn newest_sequenced(&self) -> (r: Option<usize>)
        ensures
            match r {
                Some(k) => k < self@.queue.len() && self@.sequenced().len() > 0
                    && self@.sequenced()[0] == self@.queue[k as int]
                    && self@.queue[k as int].spec_seq() is Some,
                None => self@.sequenced().len() == 0,
            },
    {
        let n = self.queue.len();
        let mut k: usize = 0;
        while k < n
            invariant
                n == self.queue@.len(),
                k <= n,
                forall|j: int| 0 <= j < k ==> !is_sequenced()(#[trigger] self.queue@[j]),
            decreases n - k,
        {
            if self.queue[k].seq().is_some() {
                proof {
                    lemma_filter_first(self.queue@, is_sequenced(), k as int);
                }
                return Some(k);
            }
            k += 1;
        }
        proof {
            lemma_filter_none(self.queue@, is_sequenced());
        }
        None
    }

    /// The position of the oldest sequenced envelope.
    fn oldest_sequenced(&self) -> (r: Option<usize>)
        ensures
            match r {
                Some(k) => k < self@.queue.len() && self@.sequenced().len() > 0
                    && self@.sequenced().last() == self@.queue[k as int]
                    && self@.queue[k as int].spec_seq() is Some,
                None => self@.sequenced().len() == 0,
            },
    {
        let n = self.queue.len();
        let mut k: usize = n;
        while k > 0
            invariant
                n == self.queue@.len(),
                k <= n,
                forall|j: int| k <= j < n ==> !is_sequenced()(#[trigger] self.queue@[j]),
            decreases k,
        {
            k -= 1;
            if self.queue[k].seq().is_some() {
                proof {
                    lemma_filter_last(self.queue@, is_sequenced(), k as int);
                }
                return Some(k);
            }
        }
        proof {
            lemma_filter_none(self.queue@, is_sequenced());
        }
        None
    }

    /// What the client is owed, oldest first: every control, and every event
    /// with a number above the highest that the client has. Nothing changes;
    /// `drain` records that it was sent.
    pub fn pending(&self) -> (out: Vec<MessageEnvelope>)
        ensures
            out@ == self@.pending(),
    {
        let mut out: Vec<MessageEnvelope> = Vec::new();
        let n = self.queue.len();
        let ghost r = self.queue@.reverse();
        let ghost due = is_due(self.seq_client);
        let mut j: usize = 0;
        proof {
            reveal(Seq::filter);
            assert(r.take(0).filter(due) =~= Seq::<MessageEnvelope>::empty());
        }
        while j < n
            invariant
                n == self.queue@.len(),
                j <= n,
                r == self.queue@.reverse(),
                due == is_due(self.seq_client),
                out@ == r.take(j as int).filter(due),
            decreases n - j,
        {
            let e = &self.queue[n - 1 - j];
            let owed = match (e.seq(), self.seq_client) {
                (Some(s), Some(c)) => s > c,
                _ => true,
            };
            proof {
                assert(r[j as int] == self.queue@[n - 1 - j]);
                assert(r.take(j + 1) =~= r.take(j as int).push(r[j as int]));
                r.take(j as int).lemma_filter_push(r[j as int], due);
                assert(owed == due(r[j as int]));
            }
            if owed {
                out.push(e.clone());
            }
            j += 1;
        }
        proof {
            assert(r.take(n as int) =~= r);
        }
        out
    }

    /// Hands out what the client is owed, oldest first, and records it as
    /// sent: the client now has the highest number handed out, the controls
    /// leave the queue, and the events stay for a later resume.
    pub fn drain(&mut self) -> (out: Vec<MessageEnvelope>)
        ensures
            out@ == old(self)@.pending(),
            final(self)@ == old(self)@.drained(),
            final(self)@.wf(),
    {
        let out = self.pending();
        let high_water_mark = match self.newest_sequenced() {
            Some(k) => {
                let s = self.queue[k].seq().unwrap();
                match self.seq_client {
                    Some(c) => if s > c {
                        Some(s)
                    } else {
                        Some(c)
                    },
                    None => Some(s),
                }
            },
            None => self.seq_client,
        };
        proof {
            use_type_invariant(&*self);
            lemma_drained_wf(old(self)@);
        }
        let mut queue = self.take_queue();
        let mut kept: VecDeque<MessageEnvelope> = VecDeque::new();
        let ghost orig = queue@;
        let ghost mut i: int = 0;
        proof {
            reveal(Seq::filter);
            assert(orig.take(0).filter(is_sequenced()) =~= Seq::<MessageEnvelope>::empty());
            assert(orig.skip(0) =~= orig);
        }
        loop
            invariant
                0 <= i <= orig.len(),
                queue@ == orig.skip(i),
                kept@ == orig.take(i).filter(is_sequenced()),
            ensures
                kept@ == orig.filter(is_sequenced()),
            decreases orig.len() - i,
        {
            match queue.pop_front() {
                Some(e) => {
                    proof {
                        assert(e == orig[i]);
                        assert(orig.take(i + 1) =~= orig.take(i).push(orig[i]));
                        orig.take(i).lemma_filter_push(orig[i], is_sequenced());
                        assert(orig.skip(i).subrange(1, orig.skip(i).len() as int) =~= orig.skip(
                            i + 1,
                        ));
                    }
                    if e.seq().is_some() {
                        kept.push_back(e);
                    }
                    proof {
                        i = i + 1;
                    }
                },
                None => {
                    proof {
                        assert(orig.take(i) =~= orig);
                    }
                    break ;
                },
            }
        }
        self.seq_client = high_water_mark;
        std::mem::swap(&mut self.queue, &mut kept);
        proof {
            assert(self@ =~= old(self)@.drained());
        }
        out
    }

    /// Sets the connection back for a client that has everything up to
    /// `seq`. It fails with "too old", and changes nothing, where nothing is
    /// kept or `seq` lies below the oldest number kept.
    pub fn rewind(&mut self, seq: u64) -> (r: Result<(), Error>)
        ensures
            final(self)@.wf(),
            old(self)@.can_rewind(seq) ==> r == Ok::<(), Error>(()) && final(self)@ == (
            ConnectionView { seq_client: Some(seq), ..old(self)@ }),
            !old(self)@.can_rewind(seq) ==> r == Err::<(), Error>(
                Error::BadStatic(Reason::TooOld),
            ) && final(self)@ == old(self)@,
    {
        let is_still_valid = match self.oldest_sequenced() {
            Some(k) => match self.queue[k].seq() {
                Some(oldest) => oldest <= seq,
                None => false,
            },
            None => false,
        };
        proof {
            use_type_invariant(&*self);
        }
        if is_still_valid {
            self.seq_client = Some(seq);
            Ok(())
        } else {
            Err(Error::BadStatic(Reason::TooOld))
        }
    }

    /// Takes up the earlier connection `prior`, which the caller took from
    /// the resume registry, for a client that has everything up to `seq`.
    /// On success this connection becomes the earlier one, bound to
    /// `session`, and the result is the `Resumed` control to send at once;
    /// what the client missed is then handed out by `drain`.
    ///
    /// It fails, and leaves this connection as it is, with
    /// "already authenticated" where this connection is past its handshake,
    /// with "bad or expired reconnection info" where there is no earlier
    /// connection or it belongs to another session, and with "too old" where
    /// the earlier connection cannot be set back to `seq`.
    pub fn resume(&mut self, session: &Session, prior: Option<Connection>, seq: u64) -> (r: Result<
        MessageEnvelope,
        Error,
    >)
        ensures
            final(self)@.wf(),
            r matches Ok(e) ==> e == (MessageEnvelope { payload: MessagePayload::Resumed }),
            r is Err ==> final(self)@ == old(self)@,
            !(old(self)@.state is Unauthed) ==> r == Err::<MessageEnvelope, Error>(
                Error::BadStatic(Reason::AlreadyAuthenticated),
            ),
            old(self)@.state is Unauthed ==> match prior {
                Some(c) => if !c@.resumable_by(*session) {
                    r == Err::<MessageEnvelope, Error>(Error::BadStatic(Reason::BadReconnect))
                } else if !c@.can_rewind(seq) {
                    r == Err::<MessageEnvelope, Error>(Error::BadStatic(Reason::TooOld))
                } else {
                    r is Ok && final(self)@ == c@.resumed(*session, seq)
                },
                None => r == Err::<MessageEnvelope, Error>(Error::BadStatic(Reason::BadReconnect)),
            },
    {
        proof {
            use_type_invariant(&*self);
        }
        match &self.state {
            ConnectionState::Unauthed => {},
            _ => {
                return Err(Error::BadStatic(Reason::AlreadyAuthenticated));
            },
        }
        let mut conn = match prior {
            Some(c) => c,
            None => {
                return Err(Error::BadStatic(Reason::BadReconnect));
            },
        };
        let matches = match conn.state.session() {
            Some(recon_session) => session.id == recon_session.id,
            None => false,
        };
        if !matches {
            return Err(Error::BadStatic(Reason::BadReconnect));
        }
        match conn.rewind(seq) {
            Ok(()) => {},
            Err(e) => {
                return Err(e);
            },
        }
        conn.state = ConnectionState::Authenticated { session: session.clone() };
        *self = conn;
        Ok(MessageEnvelope { payload: MessagePayload::Resumed })
    }

    /// The `Ready` control that answers a successful handshake: the user's
    /// record, the session, this connection's identifier and the number 0.
    pub fn ready(&self, session: &Session, user: Option<String>) -> (r: MessageEnvelope)
        ensures
            r.payload matches MessagePayload::Ready { user: u, session: s, conn, seq } && u == user
                && s == *session && conn@ == self@.id && seq == 0,
            r.spec_seq() is None,
    {
        MessageEnvelope {
            payload: MessagePayload::Ready {
                user,
                session: session.clone(),
                conn: self.id.clone(),
                seq: 0,
            },
        }
    }

    /// Binds the connection to `session` once `Ready` was sent. Only a
    /// connection that is bound to nothing can be bound; any other is left
    /// as it is. No sequence number is used up.
    pub fn authenticate(&mut self, session: Session) -> (r: Result<(), Error>)
        ensures
            final(self)@.wf(),
            old(self)@.state is Unauthed ==> r == Ok::<(), Error>(()) && final(self)@ == (
            ConnectionView { state: ConnectionState::Authenticated { session }, ..old(self)@ }),
            !(old(self)@.state is Unauthed) ==> r == Err::<(), Error>(
                Error::BadStatic(Reason::AlreadyAuthenticated),
            ) && final(self)@ == old(self)@,
    {
        proof {
            use_type_invariant(&*self);
        }
        match &self.state {
            ConnectionState::Unauthed => {
                self.state = ConnectionState::Authenticated { session };
                Ok(())
            },
            _ => Err(Error::BadStatic(Reason::AlreadyAuthenticated)),
        }
    }

    /// What a client's message asks of the driver in the connection's
    /// present state.
    pub open spec fn spec_client_action(self, msg: MessageClient) -> Result<ClientAction, Error> {
        match msg {
            MessageClient::Hello { token, resume, status } => if self@.state is Unauthed {
                Ok(ClientAction::Hello { token, resume, status })
            } else {
                Err(Error::BadStatic(Reason::AlreadyAuthenticated))
            },
            MessageClient::Status { status } => match self@.session() {
                None => Err(Error::MissingAuth),
                Some(session) => match session.spec_user_id() {
                    None => Err(Error::UnauthSession),
                    Some(user_id) => Ok(ClientAction::SetStatus { user_id, status }),
                },
            },
            MessageClient::Pong => match self@.session() {
                None => Err(Error::MissingAuth),
                Some(session) => match session.spec_user_id() {
                    None => Err(Error::UnauthSession),
                    Some(user_id) => Ok(ClientAction::Pong { user_id }),
                },
            },
            MessageClient::VoiceDispatch { user_id, payload } => Ok(
                ClientAction::VoiceDispatch { user_id, payload },
            ),
        }
    }

    /// Decides what a client's message asks for. `Hello` is taken only by a
    /// connection that is bound to nothing. `Status` and `Pong` need a
    /// session that is bound to a user. Nothing changes: the driver performs
    /// the action and reports back through `resume`, `authenticate` or
    /// `Timeout::for_ping`.
    pub fn handle_message_client(&self, msg: MessageClient) -> (r: Result<ClientAction, Error>)
        requires
            (msg is Status || msg is Pong) ==> !(self@.state is Disconnected),
        ensures
            r == self.spec_client_action(msg),
    {
        match msg {
            MessageClient::Hello { token, resume, status } => match &self.state {
                ConnectionState::Unauthed => Ok(ClientAction::Hello { token, resume, status }),
                _ => Err(Error::BadStatic(Reason::AlreadyAuthenticated)),
            },
            MessageClient::Status { status } => {
                let session = match &self.state {
                    ConnectionState::Unauthed => {
                        return Err(Error::MissingAuth);
                    },
                    ConnectionState::Authenticated { session } => session,
                    ConnectionState::Disconnected { session } => session,
                };
                match session.user_id() {
                    Some(user_id) => Ok(ClientAction::SetStatus { user_id, status }),
                    None => Err(Error::UnauthSession),
                }
            },
            MessageClient::Pong => {
                let session = match &self.state {
                    ConnectionState::Unauthed => {
                        return Err(Error::MissingAuth);
                    },
                    ConnectionState::Authenticated { session } => session,
                    ConnectionState::Disconnected { session } => session,
                };
                match session.user_id() {
                    Some(user_id) => Ok(ClientAction::Pong { user_id }),
                    None => Err(Error::UnauthSession),
                }
            },
            MessageClient::VoiceDispatch { user_id, payload } => Ok(
                ClientAction::VoiceDispatch { user_id, payload },
            ),
        }
    }

    /// Decides what a frame from the transport asks for. A text frame is
    /// handled as the message it holds, and refused where it holds none; a
    /// binary frame is refused; any other frame asks for nothing.
    pub fn handle_message(&self, ws_msg: Frame) -> (r: Result<Option<ClientAction>, Error>)
        requires
            ws_msg matches Frame::Text(Some(msg)) ==> ((msg is Status || msg is Pong) ==> !(
            self@.state is Disconnected)),
        ensures
            r == match ws_msg {
                Frame::Text(Some(msg)) => match self.spec_client_action(msg) {
                    Ok(action) => Ok::<Option<ClientAction>, Error>(Some(action)),
                    Err(e) => Err::<Option<ClientAction>, Error>(e),
                },
                Frame::Text(None) => Err::<Option<ClientAction>, Error>(
                    Error::BadStatic(Reason::BadFrame),
                ),
                Frame::Binary => Err::<Option<ClientAction>, Error>(
                    Error::BadStatic(Reason::Binary),
                ),
                Frame::Other => Ok::<Option<ClientAction>, Error>(None),
            },
    {
        match ws_msg {
            Frame::Text(Some(msg)) => match self.handle_message_client(msg) {
                Ok(action) => Ok(Some(action)),
                Err(e) => Err(e),
            },
            Frame::Text(None) => Err(Error::BadStatic(Reason::BadFrame)),
            Frame::Binary => Err(Error::BadStatic(Reason::Binary)),
            Frame::Other => Ok(None),
        }
    }

    /// Decides what is done about an error. A fatal error ends the
    /// connection for good. Any other breach of the protocol closes the
    /// transport, and the connection is marked as disconnected and kept for
    /// a resume. Any other error is reported and changes nothing.
    pub fn handle_error(&mut self, error: Error) -> (r: ErrorAction)
        ensures
            final(self)@.wf(),
            r == if error.spec_is_fatal() {
                ErrorAction::Terminate
            } else if error is BadStatic {
                ErrorAction::Close
            } else {
                ErrorAction::Report
            },
            final(self)@ == if r == ErrorAction::Close {
                old(self)@.disconnected()
            } else {
                old(self)@
            },
    {
        proof {
            use_type_invariant(&*self);
        }
        if error.is_fatal() {
            return ErrorAction::Terminate;
        }
        match error {
            Error::BadStatic(_) => {
                self.disconnect();
                ErrorAction::Close
            },
            _ => ErrorAction::Report,
        }
    }

    /// Looks at the clock. Before the deadline nothing happens. When a ping
    /// is due, the driver is told to send one and the timer is set to close
    /// 10 s from `now`. When a ping went unanswered to the deadline, the
    /// connection is marked as disconnected and the driver is told to close
    /// the transport.
    pub fn handle_timeout(&mut self, timeout: &mut Timeout, now: u64) -> (r: TimeoutAction)
        requires
            now + CLOSE_TIME <= u64::MAX,
        ensures
            final(self)@.wf(),
            now < old(timeout).spec_instant() ==> r == TimeoutAction::Wait && *final(timeout)
                == *old(timeout) && final(self)@ == old(self)@,
            now >= old(timeout).spec_instant() ==> match *old(timeout) {
                Timeout::Ping(_) => r == TimeoutAction::SendPing && *final(timeout)
                    == Timeout::Close((now + CLOSE_TIME) as u64) && final(self)@ == old(self)@,
                Timeout::Close(_) => r == TimeoutAction::Close && *final(timeout) == *old(timeout)
                    && final(self)@ == old(self)@.disconnected(),
            },
    {
        proof {
            use_type_invariant(&*self);
        }
        if now < timeout.get_instant() {
            return TimeoutAction::Wait;
        }
        match *timeout {
            Timeout::Ping(_) => {
                *timeout = Timeout::for_close(now);
                TimeoutAction::SendPing
            },
            Timeout::Close(_) => {
                self.disconnect();
                TimeoutAction::Close
            },
        }
    }
}

} // verus!
