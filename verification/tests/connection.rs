use chat_sync::error::{Error, Reason};
use chat_sync::event::{EmojiOwner, InviteTargetId, MessageSync};
use chat_sync::ids::{MessageId, RoomId, SessionId, ThreadId, Time, UserId};
use chat_sync::permission::{Permission, Permissions};
use chat_sync::registry::{park, resume_from};
use chat_sync::session::{Session, SessionStatus};
use chat_sync::filter::{authorized, enrichment, lookup, Answer, Enrichment, Lookup};
use chat_sync::sync::{
    hello_presence, hello_session, voice_dispatch_result, ClientAction, Connection,
    ConnectionState, ErrorAction, Frame, MessageClient, MessageEnvelope, MessagePayload, Presence,
    Resume, Timeout, TimeoutAction, CLOSE_TIME, HEARTBEAT_TIME, MAX_QUEUE_LEN,
};
use chat_sync::event::AuthCheck;
use dashmap::DashMap;

fn session(id: u128, user: u128) -> Session {
    Session {
        id: SessionId(id),
        status: SessionStatus::Authorized { user_id: UserId(user) },
        name: None,
    }
}

fn guest_session(id: u128) -> Session {
    Session { id: SessionId(id), status: SessionStatus::Unauthorized, name: None }
}

fn view() -> Permissions {
    let mut p = Permissions::empty();
    p.add(Permission::View);
    p
}

fn sees_thread(user: u128, thread: u128) -> Answer {
    Answer::Thread { user_id: UserId(user), thread_id: ThreadId(thread), permissions: view() }
}

fn sees_room(user: u128, room: u128) -> Answer {
    Answer::Room { user_id: UserId(user), room_id: RoomId(room), permissions: view() }
}

fn typing(thread: u128) -> MessageSync {
    MessageSync::ThreadTyping { thread_id: ThreadId(thread), user_id: UserId(99) }
}

fn authed(id: u128, user: u128) -> Connection {
    let mut conn = Connection::new();
    assert_eq!(conn.authenticate(session(id, user)), Ok(()));
    conn
}

fn seqs(out: &[MessageEnvelope]) -> Vec<Option<u64>> {
    out.iter().map(|e| e.seq()).collect()
}

/// Queues `n` typing events of thread 3 for user 7 and expects each to be taken.
fn feed(conn: &mut Connection, n: usize) {
    let answer = sees_thread(7, 3);
    for _ in 0..n {
        assert_eq!(conn.queue_message(typing(3), String::new(), &answer), Ok(true));
    }
}

#[test]
fn new_connection_is_unauthed_and_empty() {
    let conn = Connection::new();
    assert!(matches!(conn.state(), ConnectionState::Unauthed));
    assert_eq!(conn.seq_server(), 0);
    assert_eq!(conn.seq_client(), None);
    assert_eq!(conn.queue_len(), 0);
    assert_eq!(conn.get_id().chars().count(), 36);
    assert_eq!(conn.pending().len(), 0);
}

#[test]
fn connection_ids_are_fresh() {
    let a = Connection::new();
    let b = Connection::new();
    assert_ne!(a.get_id(), b.get_id());
    assert_eq!(a.get_id().matches('-').count(), 4);
}

#[test]
fn handshake_then_first_event_has_seq_zero() {
    let mut conn = Connection::new();
    let s = session(1, 7);
    let ready = conn.ready(&s, Some("{\"id\":7}".to_string()));
    match &ready.payload {
        MessagePayload::Ready { user, session, conn: id, seq } => {
            assert_eq!(user.as_deref(), Some("{\"id\":7}"));
            assert_eq!(session.id, SessionId(1));
            assert_eq!(id.as_str(), conn.get_id());
            assert_eq!(*seq, 0);
        }
        other => panic!("expected Ready, got {:?}", other),
    }
    assert_eq!(ready.seq(), None);
    assert_eq!(conn.authenticate(s), Ok(()));
    assert!(matches!(conn.state(), ConnectionState::Authenticated { .. }));
    assert_eq!(conn.seq_server(), 0);

    let msg = MessageSync::MessageCreate { thread_id: ThreadId(3), message_id: MessageId(9) };
    let answer = sees_thread(7, 3);
    assert_eq!(
        conn.lookup_for(&msg),
        Lookup::Thread { user_id: UserId(7), thread_id: ThreadId(3) }
    );
    assert_eq!(
        conn.enrichment_for(&msg, &answer),
        Enrichment::Message { thread_id: ThreadId(3), message_id: MessageId(9), user_id: UserId(7) }
    );
    assert_eq!(conn.queue_message(msg.clone(), "m".to_string(), &answer), Ok(true));
    assert_eq!(conn.seq_server(), 1);
    let out = conn.drain();
    assert_eq!(out.len(), 1);
    assert_eq!(
        out[0].payload,
        MessagePayload::Sync { seq: 0, data: msg, body: "m".to_string() }
    );
    assert_eq!(conn.seq_client(), Some(0));
}

#[test]
fn authenticate_twice_is_refused() {
    let mut conn = authed(1, 7);
    assert_eq!(
        conn.authenticate(session(2, 8)),
        Err(Error::BadStatic(Reason::AlreadyAuthenticated))
    );
    assert_eq!(conn.state().session().map(|s| s.id), Some(SessionId(1)));
}

#[test]
fn authorization_filter_member_and_stranger() {
    let mut a = authed(1, 10);
    let mut b = authed(2, 20);
    let msg = MessageSync::RoomUpdate { room_id: RoomId(5) };
    assert_eq!(a.lookup_for(&msg), Lookup::Room { user_id: UserId(10), room_id: RoomId(5) });
    assert_eq!(b.lookup_for(&msg), Lookup::Room { user_id: UserId(20), room_id: RoomId(5) });
    let member = sees_room(10, 5);
    let stranger =
        Answer::Room { user_id: UserId(20), room_id: RoomId(5), permissions: Permissions::empty() };
    assert_eq!(a.queue_message(msg.clone(), "r".to_string(), &member), Ok(true));
    assert_eq!(b.queue_message(msg.clone(), "r".to_string(), &stranger), Ok(false));
    assert_eq!(a.drain().len(), 1);
    assert_eq!(b.drain().len(), 0);
    assert_eq!(b.queue_len(), 0);
    assert_eq!(b.seq_server(), 0);
}

#[test]
fn answer_for_another_question_grants_nothing() {
    let mut conn = authed(1, 10);
    let msg = MessageSync::RoomUpdate { room_id: RoomId(5) };
    assert_eq!(conn.queue_message(msg.clone(), String::new(), &sees_room(10, 6)), Ok(false));
    assert_eq!(conn.queue_message(msg.clone(), String::new(), &sees_room(11, 5)), Ok(false));
    assert_eq!(conn.queue_message(msg.clone(), String::new(), &sees_thread(10, 5)), Ok(false));
    assert_eq!(conn.queue_message(msg.clone(), String::new(), &Answer::Nothing), Ok(false));
    assert_eq!(conn.queue_message(msg, String::new(), &sees_room(10, 5)), Ok(true));
    assert_eq!(conn.queue_len(), 1);
}

#[test]
fn admin_answer_grants_view() {
    let mut conn = authed(1, 10);
    let mut p = Permissions::empty();
    p.add(Permission::Admin);
    let answer = Answer::Room { user_id: UserId(10), room_id: RoomId(5), permissions: p };
    let msg = MessageSync::RoleCreate { room_id: RoomId(5) };
    assert_eq!(conn.queue_message(msg, String::new(), &answer), Ok(true));
}

#[test]
fn unauthed_connection_ignores_events() {
    let mut conn = Connection::new();
    let msg = MessageSync::RoomUpdate { room_id: RoomId(5) };
    assert_eq!(conn.lookup_for(&msg), Lookup::Nothing);
    assert_eq!(conn.queue_message(msg, String::new(), &sees_room(10, 5)), Ok(false));
    assert_eq!(conn.queue_len(), 0);
    assert!(matches!(conn.state(), ConnectionState::Unauthed));
}

#[test]
fn session_without_user_sees_only_decided_events() {
    let mut conn = Connection::new();
    assert_eq!(conn.authenticate(guest_session(1)), Ok(()));
    let room = MessageSync::RoomUpdate { room_id: RoomId(5) };
    assert_eq!(conn.lookup_for(&room), Lookup::Nothing);
    assert_eq!(conn.queue_message(room, String::new(), &sees_room(10, 5)), Ok(false));
    let own = MessageSync::SessionUpdate { session: guest_session(1) };
    assert_eq!(conn.queue_message(own, String::new(), &Answer::Nothing), Ok(true));
    let other = MessageSync::SessionUpdate { session: guest_session(2) };
    assert_eq!(conn.queue_message(other, String::new(), &Answer::Nothing), Ok(false));
}

#[test]
fn sequence_numbers_run_without_gaps() {
    let mut conn = authed(1, 7);
    let yes = sees_thread(7, 3);
    let no = Answer::Nothing;
    let mut expected = 0u64;
    for i in 0..40 {
        let answer = if i % 3 == 0 { &no } else { &yes };
        let taken = conn.queue_message(typing(3), String::new(), answer).unwrap();
        assert_eq!(taken, i % 3 != 0);
        if taken {
            expected += 1;
        }
        assert_eq!(conn.seq_server(), expected);
    }
    let out = conn.drain();
    let got = seqs(&out);
    let want: Vec<Option<u64>> = (0..expected).map(Some).collect();
    assert_eq!(got, want);
}

#[test]
fn queue_never_exceeds_bound() {
    let mut conn = authed(1, 7);
    let answer = sees_thread(7, 3);
    for i in 0..600usize {
        assert_eq!(conn.queue_message(typing(3), String::new(), &answer), Ok(true));
        assert_eq!(conn.queue_len(), (i + 1).min(MAX_QUEUE_LEN));
        assert!(conn.queue_len() <= 256);
    }
    let out = conn.drain();
    assert_eq!(out.len(), 256);
    assert_eq!(out[0].seq(), Some(344));
    assert_eq!(out[255].seq(), Some(599));
    assert_eq!(conn.queue_len(), 256);
}

#[test]
fn drain_sends_each_event_once() {
    let mut conn = authed(1, 7);
    feed(&mut conn, 3);
    assert_eq!(seqs(&conn.pending()), vec![Some(0), Some(1), Some(2)]);
    assert_eq!(conn.seq_client(), None);
    assert_eq!(seqs(&conn.drain()), vec![Some(0), Some(1), Some(2)]);
    assert_eq!(conn.seq_client(), Some(2));
    assert_eq!(conn.drain().len(), 0);
    assert_eq!(conn.queue_len(), 3);
    feed(&mut conn, 2);
    assert_eq!(seqs(&conn.drain()), vec![Some(3), Some(4)]);
    assert_eq!(conn.seq_client(), Some(4));
    assert_eq!(conn.queue_len(), 5);
}

#[test]
fn pending_changes_nothing() {
    let mut conn = authed(1, 7);
    feed(&mut conn, 2);
    assert_eq!(conn.pending().len(), 2);
    assert_eq!(conn.pending().len(), 2);
    assert_eq!(conn.seq_client(), None);
    assert_eq!(conn.queue_len(), 2);
}

#[test]
fn controls_are_sent_in_place_and_then_dropped() {
    let mut conn = authed(1, 7);
    feed(&mut conn, 1);
    conn.push_control(MessageEnvelope { payload: MessagePayload::Ping });
    feed(&mut conn, 1);
    assert_eq!(conn.seq_server(), 2);
    assert_eq!(conn.queue_len(), 3);
    let out = conn.drain();
    assert_eq!(seqs(&out), vec![Some(0), None, Some(1)]);
    assert_eq!(out[1].payload, MessagePayload::Ping);
    assert_eq!(conn.queue_len(), 2);
    assert_eq!(conn.drain().len(), 0);
    conn.push_control(MessageEnvelope { payload: MessagePayload::Resumed });
    let out = conn.drain();
    assert_eq!(seqs(&out), vec![None]);
    assert_eq!(conn.seq_client(), Some(1));
}

#[test]
fn rewind_replays_from_the_given_number() {
    let mut conn = authed(1, 7);
    feed(&mut conn, 6);
    assert_eq!(conn.drain().len(), 6);
    assert_eq!(conn.rewind(3), Ok(()));
    assert_eq!(conn.seq_client(), Some(3));
    assert_eq!(seqs(&conn.drain()), vec![Some(4), Some(5)]);
    assert_eq!(conn.rewind(0), Ok(()));
    assert_eq!(seqs(&conn.drain()), vec![Some(1), Some(2), Some(3), Some(4), Some(5)]);
    assert_eq!(conn.rewind(5), Ok(()));
    assert_eq!(conn.drain().len(), 0);
}

#[test]
fn rewind_with_nothing_kept_is_too_old() {
    let mut conn = authed(1, 7);
    assert_eq!(conn.rewind(0), Err(Error::BadStatic(Reason::TooOld)));
    assert_eq!(conn.seq_client(), None);
}

#[test]
fn rewind_below_oldest_is_too_old() {
    let mut conn = authed(1, 7);
    feed(&mut conn, 300);
    assert_eq!(conn.drain().len(), 256);
    assert_eq!(conn.rewind(43), Err(Error::BadStatic(Reason::TooOld)));
    assert_eq!(conn.seq_client(), Some(299));
    assert_eq!(conn.rewind(44), Ok(()));
    assert_eq!(conn.drain().len(), 255);
}

#[test]
fn resume_replays_missed_events_in_order() {
    let s = session(1, 7);
    let mut old = authed(1, 7);
    feed(&mut old, 6);
    let sent = old.drain();
    assert_eq!(sent.last().and_then(|e| e.seq()), Some(5));
    old.disconnect();
    assert!(matches!(old.state(), ConnectionState::Disconnected { .. }));
    let old_id = old.get_id().to_string();

    let mut fresh = Connection::new();
    let resumed = fresh.resume(&s, Some(old), 3).unwrap();
    assert_eq!(resumed.payload, MessagePayload::Resumed);
    assert_eq!(fresh.get_id(), old_id);
    assert!(matches!(fresh.state(), ConnectionState::Authenticated { .. }));
    assert_eq!(seqs(&fresh.drain()), vec![Some(4), Some(5)]);
    assert_eq!(fresh.seq_server(), 6);
    feed(&mut fresh, 1);
    assert_eq!(seqs(&fresh.drain()), vec![Some(6)]);
}

#[test]
fn resume_is_idempotent() {
    let s = session(1, 7);
    let mut old = authed(1, 7);
    feed(&mut old, 6);
    old.drain();
    old.disconnect();
    let mut first = Connection::new();
    first.resume(&s, Some(old), 2).unwrap();
    let a = first.drain();
    first.disconnect();
    let mut second = Connection::new();
    second.resume(&s, Some(first), 2).unwrap();
    let b = second.drain();
    assert_eq!(seqs(&a), vec![Some(3), Some(4), Some(5)]);
    assert_eq!(a, b);
}

#[test]
fn stale_resume_is_too_old() {
    let s = session(1, 7);
    let mut old = authed(1, 7);
    feed(&mut old, 6);
    assert_eq!(old.drain().len(), 6);
    old.disconnect();
    let answer = sees_thread(7, 3);
    let mut accepted = 0;
    let mut refused = 0;
    for _ in 0..300 {
        match old.queue_message(typing(3), String::new(), &answer) {
            Ok(true) => accepted += 1,
            Err(Error::BadStatic(Reason::ExpiredSession)) => refused += 1,
            other => panic!("unexpected {:?}", other),
        }
    }
    assert_eq!(accepted, 256);
    assert_eq!(refused, 44);
    assert!(old.is_expired());
    assert_eq!(old.queue_len(), 256);
    let mut fresh = Connection::new();
    let before = fresh.get_id().to_string();
    assert_eq!(fresh.resume(&s, Some(old), 3), Err(Error::BadStatic(Reason::TooOld)));
    assert_eq!(fresh.get_id(), before);
    assert!(matches!(fresh.state(), ConnectionState::Unauthed));
    assert_eq!(fresh.authenticate(s), Ok(()));
}

#[test]
fn resume_of_unknown_or_foreign_connection_is_refused() {
    let s = session(1, 7);
    let mut fresh = Connection::new();
    assert_eq!(fresh.resume(&s, None, 0), Err(Error::BadStatic(Reason::BadReconnect)));
    let mut other = authed(2, 7);
    feed(&mut other, 2);
    other.disconnect();
    assert_eq!(fresh.resume(&s, Some(other), 0), Err(Error::BadStatic(Reason::BadReconnect)));
    let unauthed = Connection::new();
    assert_eq!(fresh.resume(&s, Some(unauthed), 0), Err(Error::BadStatic(Reason::BadReconnect)));
    assert!(matches!(fresh.state(), ConnectionState::Unauthed));
}

#[test]
fn resume_on_authenticated_connection_is_refused() {
    let s = session(1, 7);
    let mut old = authed(1, 7);
    feed(&mut old, 2);
    old.disconnect();
    let mut busy = authed(1, 7);
    assert_eq!(
        busy.resume(&s, Some(old), 0),
        Err(Error::BadStatic(Reason::AlreadyAuthenticated))
    );
    assert_eq!(busy.seq_server(), 0);
}

#[test]
fn disconnected_connection_still_receives() {
    let mut conn = authed(1, 7);
    feed(&mut conn, 2);
    conn.drain();
    conn.disconnect();
    feed(&mut conn, 3);
    assert_eq!(conn.seq_server(), 5);
    assert!(matches!(conn.state(), ConnectionState::Disconnected { .. }));
    assert!(!conn.is_expired());
}

#[test]
fn disconnect_leaves_unauthed_alone() {
    let mut conn = Connection::new();
    conn.disconnect();
    assert!(matches!(conn.state(), ConnectionState::Unauthed));
    let mut conn = authed(1, 7);
    conn.disconnect();
    conn.disconnect();
    assert!(matches!(conn.state(), ConnectionState::Disconnected { .. }));
}

#[test]
fn expiry_without_any_delivery() {
    let mut conn = authed(1, 7);
    conn.disconnect();
    feed(&mut conn, 256);
    assert!(conn.is_expired());
    assert_eq!(
        conn.queue_message(typing(3), String::new(), &sees_thread(7, 3)),
        Err(Error::BadStatic(Reason::ExpiredSession))
    );
    assert_eq!(conn.seq_server(), 256);
    assert!(Error::BadStatic(Reason::ExpiredSession).is_fatal());
}

#[test]
fn authenticated_connection_never_expires() {
    let mut conn = authed(1, 7);
    feed(&mut conn, 600);
    assert!(!conn.is_expired());
}

#[test]
fn session_update_is_adopted_in_place() {
    let mut conn = Connection::new();
    assert_eq!(conn.authenticate(guest_session(1)), Ok(()));
    let room = MessageSync::RoomUpdate { room_id: RoomId(5) };
    assert_eq!(conn.queue_message(room.clone(), String::new(), &sees_room(7, 5)), Ok(false));
    let upgraded = MessageSync::SessionUpdate { session: session(1, 7) };
    assert_eq!(conn.lookup_for(&upgraded), Lookup::Nothing);
    assert_eq!(conn.queue_message(upgraded, String::new(), &Answer::Nothing), Ok(true));
    assert_eq!(
        conn.state().session().map(|s| s.status),
        Some(SessionStatus::Authorized { user_id: UserId(7) })
    );
    assert!(matches!(conn.state(), ConnectionState::Authenticated { .. }));
    assert_eq!(conn.queue_message(room, String::new(), &sees_room(7, 5)), Ok(true));
}

#[test]
fn session_update_keeps_a_disconnected_connection_disconnected() {
    let mut conn = authed(1, 7);
    conn.disconnect();
    let renamed = Session { name: Some("phone".to_string()), ..session(1, 7) };
    let msg = MessageSync::SessionCreate { session: renamed.clone() };
    assert_eq!(conn.queue_message(msg, String::new(), &Answer::Nothing), Ok(true));
    match conn.state() {
        ConnectionState::Disconnected { session } => assert_eq!(*session, renamed),
        other => panic!("expected Disconnected, got {:?}", other),
    }
}

#[test]
fn sibling_session_of_same_user_is_seen_but_not_adopted() {
    let mut conn = authed(1, 7);
    let sibling = MessageSync::SessionCreate { session: session(2, 7) };
    assert_eq!(conn.queue_message(sibling, String::new(), &Answer::Nothing), Ok(true));
    assert_eq!(conn.state().session().map(|s| s.id), Some(SessionId(1)));
    let foreign = MessageSync::SessionCreate { session: session(3, 8) };
    assert_eq!(conn.queue_message(foreign, String::new(), &Answer::Nothing), Ok(false));
}

#[test]
fn own_session_delete_is_delivered_and_unbinds() {
    let mut conn = authed(1, 7);
    let msg = MessageSync::SessionDelete { id: SessionId(1), user_id: Some(UserId(7)) };
    assert_eq!(conn.queue_message(msg.clone(), "bye".to_string(), &Answer::Nothing), Ok(true));
    assert!(matches!(conn.state(), ConnectionState::Unauthed));
    let out = conn.drain();
    assert_eq!(out.len(), 1);
    assert_eq!(out[0].payload, MessagePayload::Sync { seq: 0, data: msg, body: "bye".to_string() });
    assert_eq!(conn.queue_message(typing(3), String::new(), &sees_thread(7, 3)), Ok(false));
}

#[test]
fn other_session_delete_goes_to_its_user_only() {
    let mut conn = authed(1, 7);
    let mine = MessageSync::SessionDelete { id: SessionId(2), user_id: Some(UserId(7)) };
    let theirs = MessageSync::SessionDelete { id: SessionId(3), user_id: Some(UserId(8)) };
    let nobody = MessageSync::SessionDelete { id: SessionId(4), user_id: None };
    assert_eq!(conn.queue_message(mine, String::new(), &Answer::Nothing), Ok(true));
    assert_eq!(conn.queue_message(theirs, String::new(), &Answer::Nothing), Ok(false));
    assert_eq!(conn.queue_message(nobody, String::new(), &Answer::Nothing), Ok(false));
    assert!(matches!(conn.state(), ConnectionState::Authenticated { .. }));
}

#[test]
fn scope_of_each_event_kind() {
    let v = session(1, 7);
    let t = ThreadId(3);
    let r = RoomId(5);
    let u = UserId(8);
    let m = MessageId(9);
    let cases: Vec<(MessageSync, AuthCheck)> = vec![
        (MessageSync::RoomCreate { room_id: r }, AuthCheck::Room(r)),
        (MessageSync::RoomUpdate { room_id: r }, AuthCheck::Room(r)),
        (MessageSync::RoleCreate { room_id: r }, AuthCheck::Room(r)),
        (MessageSync::RoleUpdate { room_id: r }, AuthCheck::Room(r)),
        (MessageSync::RoleDelete { room_id: r }, AuthCheck::Room(r)),
        (MessageSync::EmojiDelete { room_id: r }, AuthCheck::Room(r)),
        (
            MessageSync::EmojiCreate { owner: EmojiOwner::Room { room_id: r }, creator_id: u },
            AuthCheck::Room(r),
        ),
        (MessageSync::EmojiCreate { owner: EmojiOwner::User, creator_id: u }, AuthCheck::User(u)),
        (MessageSync::ThreadCreate { thread_id: t }, AuthCheck::Thread(t)),
        (MessageSync::ThreadUpdate { thread_id: t }, AuthCheck::Thread(t)),
        (MessageSync::MessageCreate { thread_id: t, message_id: m }, AuthCheck::Thread(t)),
        (MessageSync::MessageUpdate { thread_id: t, message_id: m }, AuthCheck::Thread(t)),
        (MessageSync::MessageDelete { thread_id: t, message_id: m }, AuthCheck::Thread(t)),
        (MessageSync::MessageDeleteBulk { thread_id: t }, AuthCheck::Thread(t)),
        (MessageSync::MessageVersionDelete { thread_id: t, message_id: m }, AuthCheck::Thread(t)),
        (MessageSync::ThreadTyping { thread_id: t, user_id: u }, AuthCheck::Thread(t)),
        (MessageSync::ReactionCreate { thread_id: t, message_id: m }, AuthCheck::Thread(t)),
        (MessageSync::ReactionDelete { thread_id: t, message_id: m }, AuthCheck::Thread(t)),
        (MessageSync::ReactionPurge { thread_id: t, message_id: m }, AuthCheck::Thread(t)),
        (MessageSync::RoomMemberUpsert { room_id: r, user_id: u }, AuthCheck::RoomOrUser(r, u)),
        (
            MessageSync::ThreadMemberUpsert { thread_id: t, user_id: u },
            AuthCheck::ThreadOrUser(t, u),
        ),
        (MessageSync::UserConfig { user_id: u }, AuthCheck::User(u)),
        (MessageSync::RelationshipUpsert { user_id: u }, AuthCheck::User(u)),
        (MessageSync::RelationshipDelete { user_id: u }, AuthCheck::User(u)),
        (MessageSync::UserCreate { user_id: u }, AuthCheck::UserMutual(u)),
        (MessageSync::UserUpdate { user_id: u }, AuthCheck::UserMutual(u)),
        (MessageSync::UserDelete { id: u }, AuthCheck::UserMutual(u)),
        (
            MessageSync::InviteCreate { target: InviteTargetId::Room { room_id: r } },
            AuthCheck::Room(r),
        ),
        (
            MessageSync::InviteUpdate {
                target: InviteTargetId::Thread { room_id: r, thread_id: t },
            },
            AuthCheck::Thread(t),
        ),
        (
            MessageSync::InviteDelete { target: InviteTargetId::Room { room_id: r } },
            AuthCheck::Room(r),
        ),
        (MessageSync::VoiceDispatch { user_id: u, thread_id: Some(t) }, AuthCheck::Thread(t)),
        (MessageSync::VoiceDispatch { user_id: u, thread_id: None }, AuthCheck::User(u)),
        (MessageSync::VoiceState { user_id: u, thread_id: Some(t) }, AuthCheck::Thread(t)),
        (MessageSync::VoiceState { user_id: u, thread_id: None }, AuthCheck::User(u)),
        (MessageSync::SessionCreate { session: session(1, 7) }, AuthCheck::Custom(true)),
        (MessageSync::SessionUpdate { session: session(2, 7) }, AuthCheck::Custom(true)),
        (MessageSync::SessionUpdate { session: session(2, 8) }, AuthCheck::Custom(false)),
        (
            MessageSync::SessionDelete { id: SessionId(1), user_id: None },
            AuthCheck::Custom(true),
        ),
        (
            MessageSync::SessionDelete { id: SessionId(2), user_id: Some(u) },
            AuthCheck::User(u),
        ),
        (
            MessageSync::SessionDelete { id: SessionId(2), user_id: None },
            AuthCheck::Custom(false),
        ),
    ];
    for (msg, want) in cases {
        assert!(msg.has_rule(), "{:?}", msg);
        assert_eq!(msg.auth_check(&v), want, "{:?}", msg);
    }
}

#[test]
fn events_without_a_rule() {
    assert!(!MessageSync::ThreadAck { thread_id: ThreadId(3) }.has_rule());
    assert!(!MessageSync::InviteCreate { target: InviteTargetId::Server }.has_rule());
    assert!(!MessageSync::InviteUpdate { target: InviteTargetId::Server }.has_rule());
    assert!(!MessageSync::InviteDelete { target: InviteTargetId::Server }.has_rule());
    assert!(MessageSync::InviteDelete { target: InviteTargetId::Room { room_id: RoomId(1) } }
        .has_rule());
}

#[test]
fn decision_rules() {
    let me = Some(UserId(7));
    let r = RoomId(5);
    let t = ThreadId(3);
    let yes_room = sees_room(7, 5);
    let yes_thread = sees_thread(7, 3);
    let mutual = Answer::Mutual { user_id: UserId(7), other_id: UserId(8), mutual: true };
    let not_mutual = Answer::Mutual { user_id: UserId(7), other_id: UserId(8), mutual: false };
    let none = Answer::Nothing;

    assert!(authorized(me, AuthCheck::Room(r), &yes_room));
    assert!(!authorized(me, AuthCheck::Room(r), &none));
    assert!(!authorized(me, AuthCheck::Room(r), &yes_thread));
    assert!(authorized(me, AuthCheck::Thread(t), &yes_thread));
    assert!(!authorized(me, AuthCheck::Thread(t), &yes_room));
    assert!(authorized(me, AuthCheck::RoomOrUser(r, UserId(7)), &none));
    assert!(authorized(me, AuthCheck::RoomOrUser(r, UserId(8)), &yes_room));
    assert!(!authorized(me, AuthCheck::RoomOrUser(r, UserId(8)), &none));
    assert!(authorized(me, AuthCheck::ThreadOrUser(t, UserId(7)), &none));
    assert!(authorized(me, AuthCheck::ThreadOrUser(t, UserId(8)), &yes_thread));
    assert!(!authorized(me, AuthCheck::ThreadOrUser(t, UserId(8)), &none));
    assert!(authorized(me, AuthCheck::User(UserId(7)), &none));
    assert!(!authorized(me, AuthCheck::User(UserId(8)), &yes_room));
    assert!(authorized(me, AuthCheck::UserMutual(UserId(7)), &none));
    assert!(authorized(me, AuthCheck::UserMutual(UserId(8)), &mutual));
    assert!(!authorized(me, AuthCheck::UserMutual(UserId(8)), &not_mutual));
    assert!(!authorized(me, AuthCheck::UserMutual(UserId(9)), &mutual));
    assert!(authorized(me, AuthCheck::Custom(true), &none));
    assert!(!authorized(me, AuthCheck::Custom(false), &yes_room));

    assert!(authorized(None, AuthCheck::Custom(true), &none));
    assert!(!authorized(None, AuthCheck::Room(r), &yes_room));
    assert!(!authorized(None, AuthCheck::User(UserId(7)), &none));
    assert!(!authorized(None, AuthCheck::UserMutual(UserId(7)), &mutual));
}

#[test]
fn lookups_needed() {
    let me = Some(UserId(7));
    assert_eq!(
        lookup(me, AuthCheck::Room(RoomId(5))),
        Lookup::Room { user_id: UserId(7), room_id: RoomId(5) }
    );
    assert_eq!(lookup(me, AuthCheck::RoomOrUser(RoomId(5), UserId(7))), Lookup::Nothing);
    assert_eq!(
        lookup(me, AuthCheck::RoomOrUser(RoomId(5), UserId(8))),
        Lookup::Room { user_id: UserId(7), room_id: RoomId(5) }
    );
    assert_eq!(
        lookup(me, AuthCheck::ThreadOrUser(ThreadId(3), UserId(8))),
        Lookup::Thread { user_id: UserId(7), thread_id: ThreadId(3) }
    );
    assert_eq!(lookup(me, AuthCheck::ThreadOrUser(ThreadId(3), UserId(7))), Lookup::Nothing);
    assert_eq!(
        lookup(me, AuthCheck::UserMutual(UserId(8))),
        Lookup::Mutual { user_id: UserId(7), other_id: UserId(8) }
    );
    assert_eq!(lookup(me, AuthCheck::UserMutual(UserId(7))), Lookup::Nothing);
    assert_eq!(lookup(me, AuthCheck::User(UserId(8))), Lookup::Nothing);
    assert_eq!(lookup(me, AuthCheck::Custom(true)), Lookup::Nothing);
    assert_eq!(lookup(None, AuthCheck::Room(RoomId(5))), Lookup::Nothing);
}

#[test]
fn enrichment_per_event_kind() {
    let me = Some(UserId(7));
    assert_eq!(
        enrichment(&MessageSync::ThreadCreate { thread_id: ThreadId(3) }, me),
        Enrichment::Thread { thread_id: ThreadId(3), user_id: me }
    );
    assert_eq!(
        enrichment(&MessageSync::ThreadUpdate { thread_id: ThreadId(3) }, None),
        Enrichment::Thread { thread_id: ThreadId(3), user_id: None }
    );
    assert_eq!(
        enrichment(
            &MessageSync::MessageUpdate { thread_id: ThreadId(3), message_id: MessageId(9) },
            me
        ),
        Enrichment::Message { thread_id: ThreadId(3), message_id: MessageId(9), user_id: UserId(7) }
    );
    assert_eq!(enrichment(&MessageSync::RoomUpdate { room_id: RoomId(5) }, me), Enrichment::Nothing);
    let conn = authed(1, 7);
    let msg = MessageSync::ThreadUpdate { thread_id: ThreadId(3) };
    assert_eq!(conn.enrichment_for(&msg, &Answer::Nothing), Enrichment::Nothing);
    assert_eq!(
        conn.enrichment_for(&msg, &sees_thread(7, 3)),
        Enrichment::Thread { thread_id: ThreadId(3), user_id: me }
    );
}

#[test]
fn client_messages_by_state() {
    let hello = || MessageClient::Hello {
        token: "tok".to_string(),
        resume: Some(Resume { conn: "c".to_string(), seq: 4 }),
        status: None,
    };
    let fresh = Connection::new();
    assert_eq!(
        fresh.handle_message_client(hello()),
        Ok(ClientAction::Hello {
            token: "tok".to_string(),
            resume: Some(Resume { conn: "c".to_string(), seq: 4 }),
            status: None
        })
    );
    assert_eq!(fresh.handle_message_client(MessageClient::Pong), Err(Error::MissingAuth));
    assert_eq!(
        fresh.handle_message_client(MessageClient::Status { status: "s".to_string() }),
        Err(Error::MissingAuth)
    );

    let conn = authed(1, 7);
    assert_eq!(
        conn.handle_message_client(hello()),
        Err(Error::BadStatic(Reason::AlreadyAuthenticated))
    );
    assert_eq!(
        conn.handle_message_client(MessageClient::Pong),
        Ok(ClientAction::Pong { user_id: UserId(7) })
    );
    assert_eq!(
        conn.handle_message_client(MessageClient::Status { status: "away".to_string() }),
        Ok(ClientAction::SetStatus { user_id: UserId(7), status: "away".to_string() })
    );
    assert_eq!(
        conn.handle_message_client(MessageClient::VoiceDispatch {
            user_id: UserId(7),
            payload: "{}".to_string()
        }),
        Ok(ClientAction::VoiceDispatch { user_id: UserId(7), payload: "{}".to_string() })
    );

    let mut guest = Connection::new();
    assert_eq!(guest.authenticate(guest_session(1)), Ok(()));
    assert_eq!(guest.handle_message_client(MessageClient::Pong), Err(Error::UnauthSession));
    assert_eq!(
        guest.handle_message_client(MessageClient::Status { status: "s".to_string() }),
        Err(Error::UnauthSession)
    );
}

#[test]
fn frames() {
    let conn = authed(1, 7);
    assert_eq!(conn.handle_message(Frame::Binary), Err(Error::BadStatic(Reason::Binary)));
    assert_eq!(conn.handle_message(Frame::Text(None)), Err(Error::BadStatic(Reason::BadFrame)));
    assert_eq!(conn.handle_message(Frame::Other), Ok(None));
    assert_eq!(
        conn.handle_message(Frame::Text(Some(MessageClient::Pong))),
        Ok(Some(ClientAction::Pong { user_id: UserId(7) }))
    );
    assert_eq!(Reason::Binary.text(), "doesn't support binary sorry");
    assert!(!Error::BadStatic(Reason::Binary).is_fatal());
}

#[test]
fn hello_helpers() {
    assert_eq!(hello_session(Err(Error::NotFound)), Err(Error::MissingAuth));
    assert_eq!(hello_session(Err(Error::Transport)), Err(Error::Transport));
    assert_eq!(hello_session(Ok(session(1, 7))), Ok(session(1, 7)));
    assert_eq!(hello_presence(None), Presence::Online);
    assert_eq!(hello_presence(Some("dnd".to_string())), Presence::FromOffline("dnd".to_string()));
}

#[test]
fn voice_dispatch_status() {
    assert_eq!(voice_dispatch_result(200), Ok(()));
    assert_eq!(voice_dispatch_result(299), Ok(()));
    assert_eq!(voice_dispatch_result(199), Err(Error::Transport));
    assert_eq!(voice_dispatch_result(300), Err(Error::Transport));
    assert_eq!(voice_dispatch_result(500), Err(Error::Transport));
}

#[test]
fn timers() {
    assert_eq!(HEARTBEAT_TIME, 30_000);
    assert_eq!(CLOSE_TIME, 10_000);
    assert_eq!(Timeout::for_ping(1_000), Timeout::Ping(31_000));
    assert_eq!(Timeout::for_close(1_000), Timeout::Close(11_000));
    assert_eq!(Timeout::Ping(5).get_instant(), 5);
    assert_eq!(Timeout::Close(6).get_instant(), 6);
}

#[test]
fn heartbeat_timeout_disconnects() {
    let mut conn = authed(1, 7);
    let mut timeout = Timeout::for_ping(0);
    assert_eq!(conn.handle_timeout(&mut timeout, 29_999), TimeoutAction::Wait);
    assert_eq!(timeout, Timeout::Ping(30_000));
    assert_eq!(conn.handle_timeout(&mut timeout, 30_000), TimeoutAction::SendPing);
    assert_eq!(timeout, Timeout::Close(40_000));
    assert_eq!(conn.handle_timeout(&mut timeout, 39_999), TimeoutAction::Wait);
    assert!(matches!(conn.state(), ConnectionState::Authenticated { .. }));
    assert_eq!(conn.handle_timeout(&mut timeout, 70_000), TimeoutAction::Close);
    assert!(matches!(conn.state(), ConnectionState::Disconnected { .. }));

    let id = conn.get_id().to_string();
    let syncers: DashMap<String, Connection> = DashMap::new();
    assert!(park(conn, &syncers).is_none());
    assert!(syncers.contains_key(&id));
}

#[test]
fn pong_resets_the_timer() {
    let mut conn = authed(1, 7);
    let mut timeout = Timeout::for_ping(0);
    assert_eq!(conn.handle_timeout(&mut timeout, 30_000), TimeoutAction::SendPing);
    assert_eq!(
        conn.handle_message_client(MessageClient::Pong),
        Ok(ClientAction::Pong { user_id: UserId(7) })
    );
    timeout = Timeout::for_ping(35_000);
    assert_eq!(timeout, Timeout::Ping(65_000));
    assert_eq!(conn.handle_timeout(&mut timeout, 40_000), TimeoutAction::Wait);
    assert!(matches!(conn.state(), ConnectionState::Authenticated { .. }));
}

#[test]
fn park_hands_back_an_unauthed_connection() {
    let syncers: DashMap<String, Connection> = DashMap::new();
    let conn = Connection::new();
    let id = conn.get_id().to_string();
    let back = park(conn, &syncers).expect("not parked");
    assert_eq!(back.get_id(), id);
    assert_eq!(syncers.len(), 0);
}

#[test]
fn resume_through_the_registry() {
    let s = session(1, 7);
    let syncers: DashMap<String, Connection> = DashMap::new();
    let mut old = authed(1, 7);
    feed(&mut old, 6);
    old.drain();
    let id = old.get_id().to_string();
    assert!(park(old, &syncers).is_none());
    assert_eq!(syncers.len(), 1);

    let mut fresh = Connection::new();
    let request = Resume { conn: id.clone(), seq: 3 };
    let resumed = resume_from(&mut fresh, &syncers, &s, &request).unwrap();
    assert_eq!(resumed.payload, MessagePayload::Resumed);
    assert_eq!(syncers.len(), 0);
    assert_eq!(fresh.get_id(), id);
    assert_eq!(seqs(&fresh.drain()), vec![Some(4), Some(5)]);

    let mut again = Connection::new();
    assert_eq!(
        resume_from(&mut again, &syncers, &s, &request),
        Err(Error::BadStatic(Reason::BadReconnect))
    );
}

#[test]
fn registry_is_untouched_by_an_authenticated_hello() {
    let s = session(1, 7);
    let syncers: DashMap<String, Connection> = DashMap::new();
    let mut old = authed(1, 7);
    feed(&mut old, 1);
    let id = old.get_id().to_string();
    park(old, &syncers);
    let mut busy = authed(1, 7);
    assert_eq!(
        resume_from(&mut busy, &syncers, &s, &Resume { conn: id.clone(), seq: 0 }),
        Err(Error::BadStatic(Reason::AlreadyAuthenticated))
    );
    assert!(syncers.contains_key(&id));
}

#[test]
fn foreign_session_loses_the_parked_connection() {
    let syncers: DashMap<String, Connection> = DashMap::new();
    let mut old = authed(1, 7);
    feed(&mut old, 1);
    let id = old.get_id().to_string();
    park(old, &syncers);
    let mut fresh = Connection::new();
    assert_eq!(
        resume_from(&mut fresh, &syncers, &session(2, 7), &Resume { conn: id, seq: 0 }),
        Err(Error::BadStatic(Reason::BadReconnect))
    );
    assert_eq!(syncers.len(), 0);
}

#[test]
fn session_visibility() {
    let a = session(1, 7);
    assert!(a.can_see(&session(1, 7)));
    assert!(a.can_see(&session(2, 7)));
    assert!(!a.can_see(&session(2, 8)));
    assert!(!a.can_see(&guest_session(2)));
    let g = guest_session(3);
    assert!(g.can_see(&guest_session(3)));
    assert!(!g.can_see(&guest_session(4)));
    assert!(!g.can_see(&session(4, 7)));
    assert_eq!(a.user_id(), Some(UserId(7)));
    assert_eq!(g.user_id(), None);
    let sudo = Session {
        id: SessionId(5),
        status: SessionStatus::Sudo { user_id: UserId(7), expires_at: Time(1) },
        name: None,
    };
    assert_eq!(sudo.user_id(), Some(UserId(7)));
    assert!(sudo.can_see(&a));
}

#[test]
fn error_texts_and_fatality() {
    assert_eq!(Reason::TooOld.text(), "too old");
    assert_eq!(Reason::BadReconnect.text(), "bad or expired reconnection info");
    assert_eq!(Reason::ExpiredSession.text(), "expired session");
    assert!(Error::BadStatic(Reason::BadReconnect).is_fatal());
    assert!(Error::BadStatic(Reason::ExpiredSession).is_fatal());
    assert!(!Error::BadStatic(Reason::TooOld).is_fatal());
    assert!(!Error::MissingAuth.is_fatal());
    assert!(!Error::Transport.is_fatal());
}

#[test]
fn errors_close_disconnect_or_report() {
    let mut conn = authed(1, 7);
    assert_eq!(conn.handle_error(Error::Transport), ErrorAction::Report);
    assert_eq!(conn.handle_error(Error::MissingAuth), ErrorAction::Report);
    assert!(matches!(conn.state(), ConnectionState::Authenticated { .. }));
    assert_eq!(conn.handle_error(Error::BadStatic(Reason::ExpiredSession)), ErrorAction::Terminate);
    assert_eq!(conn.handle_error(Error::BadStatic(Reason::BadReconnect)), ErrorAction::Terminate);
    assert!(matches!(conn.state(), ConnectionState::Authenticated { .. }));
    assert_eq!(conn.handle_error(Error::BadStatic(Reason::Binary)), ErrorAction::Close);
    assert!(matches!(conn.state(), ConnectionState::Disconnected { .. }));
    let mut fresh = Connection::new();
    assert_eq!(fresh.handle_error(Error::BadStatic(Reason::BadFrame)), ErrorAction::Close);
    assert!(matches!(fresh.state(), ConnectionState::Unauthed));
}
