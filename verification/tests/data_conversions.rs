use chat_sync::data::{
    DbMembership, DbMessageCreate, DbPermission, DbRole, DbRoom, DbSession, DbSessionStatus,
    DbThread, DbThreadPrivate, DbThreadType,
};
use chat_sync::ids::{MediaId, MessageId, RoleId, RoomId, SessionId, ThreadId, Time, UserId};
use chat_sync::media::{
    MessageDefaultMarkdown, MessageDefaultTagged, MessageType, Room, RoomType, Thread,
    ThreadPrivate, ThreadPublic, ThreadTypeChatPrivate, ThreadTypeChatPublic,
    ThreadTypeForumPublic, ThreadTypeVoicePrivate, ThreadTypeVoicePublic,
};
use chat_sync::permission::{Permission, PERMISSION_COUNT};
use chat_sync::session::{Session, SessionStatus};
use chat_sync::types::{
    PermissionOverwrite, PermissionOverwriteType, Role, RoomMembership, ThreadMembership,
};
use chat_sync::user_relationship::{
    user_relationship_edit, DbUserRel, DbUserRelType, DbUserRelWithId, Ignore, Relationship,
    RelationshipPatch, RelationshipType, RelationshipWithUserId,
};

fn db_room(a: Option<u128>, b: Option<u128>) -> DbRoom {
    DbRoom {
        id: 5,
        version_id: 6,
        name: "lobby".to_string(),
        description: Some("hello".to_string()),
        dm_uid_a: a,
        dm_uid_b: b,
        icon: Some(9),
    }
}

#[test]
fn room_from_row() {
    let row = db_room(None, None);
    assert!(row.is_wf());
    assert_eq!(
        Room::from(row),
        Room {
            id: RoomId(5),
            version_id: 6,
            name: "lobby".to_string(),
            description: Some("hello".to_string()),
            icon: Some(MediaId(9)),
            room_type: RoomType::Default,
            member_count: 0,
            online_count: 0,
            thread_count: 0,
            archived_at: None,
        }
    );
}

#[test]
fn dm_room_from_row() {
    let row = db_room(Some(1), Some(2));
    assert!(row.is_wf());
    let room = Room::from(row);
    assert_eq!(room.room_type, RoomType::Dm { participants: (UserId(1), UserId(2)) });
    assert!(!db_room(Some(1), None).is_wf());
    let odd = db_room(None, Some(2));
    assert!(odd.is_wf());
    assert_eq!(Room::from(odd).room_type, RoomType::Default);
}

fn db_thread(ty: DbThreadType, count: i64) -> DbThread {
    DbThread {
        id: ThreadId(3),
        room_id: Some(5),
        creator_id: UserId(7),
        version_id: 11,
        name: "general".to_string(),
        description: None,
        ty,
        last_version_id: 12,
        message_count: count,
        permission_overwrites: vec![PermissionOverwrite {
            id: 7,
            ty: PermissionOverwriteType::User,
            allow: vec![Permission::View],
            deny: vec![],
        }],
    }
}

#[test]
fn thread_from_row() {
    let row = db_thread(DbThreadType::Chat, 40);
    assert!(row.is_wf());
    let t = Thread::from(row);
    assert_eq!(
        t,
        Thread {
            id: ThreadId(3),
            room_id: Some(RoomId(5)),
            creator_id: UserId(7),
            version_id: 11,
            name: "general".to_string(),
            description: None,
            info: ThreadPublic::Chat(ThreadTypeChatPublic { last_version_id: 12, message_count: 40 }),
            private: None,
            member_count: 0,
            online_count: 0,
            tags: vec![],
            is_locked: false,
            is_announcement: false,
            permission_overwrites: vec![PermissionOverwrite {
                id: 7,
                ty: PermissionOverwriteType::User,
                allow: vec![Permission::View],
                deny: vec![],
            }],
            archived_at: None,
            deleted_at: None,
        }
    );
}

#[test]
fn thread_kinds_from_row() {
    assert_eq!(
        Thread::from(db_thread(DbThreadType::Forum, 3)).info,
        ThreadPublic::Forum(ThreadTypeForumPublic {
            last_version_id: 12,
            message_count: 3,
            root_message_count: 0
        })
    );
    let voice = db_thread(DbThreadType::Voice, -1);
    assert!(voice.is_wf());
    assert_eq!(
        Thread::from(voice).info,
        ThreadPublic::Voice(ThreadTypeVoicePublic { bitrate: 64000, user_limit: 100 })
    );
    assert!(!db_thread(DbThreadType::Chat, -1).is_wf());
    assert!(!db_thread(DbThreadType::Forum, -1).is_wf());
    assert!(db_thread(DbThreadType::Chat, 0).is_wf());
}

#[test]
fn thread_private_from_row() {
    let row = |ty| DbThreadPrivate { id: ThreadId(3), ty, last_read_id: Some(8), is_unread: true };
    let chat =
        ThreadTypeChatPrivate { is_unread: true, last_read_id: Some(MessageId(8)), mention_count: 0 };
    assert_eq!(ThreadPrivate::from(row(DbThreadType::Chat)), ThreadPrivate::Chat(chat));
    assert_eq!(ThreadPrivate::from(row(DbThreadType::Forum)), ThreadPrivate::Forum(chat));
    assert_eq!(
        ThreadPrivate::from(row(DbThreadType::Voice)),
        ThreadPrivate::Voice(ThreadTypeVoicePrivate {})
    );
}

fn db_session(status: DbSessionStatus, user: Option<u128>) -> DbSession {
    DbSession {
        id: 1,
        user_id: user,
        token: "tok".to_string(),
        status,
        name: Some("laptop".to_string()),
    }
}

#[test]
fn session_from_row() {
    assert_eq!(
        Session::from_at(db_session(DbSessionStatus::Unauthorized, None), Time(5)),
        Session { id: SessionId(1), status: SessionStatus::Unauthorized, name: Some("laptop".to_string()) }
    );
    assert_eq!(
        Session::from_at(db_session(DbSessionStatus::Unauthorized, Some(7)), Time(5)).status,
        SessionStatus::Unauthorized
    );
    assert_eq!(
        Session::from_at(db_session(DbSessionStatus::Authorized, Some(7)), Time(5)).status,
        SessionStatus::Authorized { user_id: UserId(7) }
    );
    assert_eq!(
        Session::from_at(db_session(DbSessionStatus::Sudo, Some(7)), Time(5)).status,
        SessionStatus::Sudo { user_id: UserId(7), expires_at: Time(5) }
    );
    assert!(!db_session(DbSessionStatus::Authorized, None).is_wf());
    assert!(!db_session(DbSessionStatus::Sudo, None).is_wf());
    assert!(db_session(DbSessionStatus::Unauthorized, None).is_wf());
}

#[test]
fn session_from_row_reads_the_clock() {
    let s = Session::from(db_session(DbSessionStatus::Sudo, Some(7)));
    match s.status {
        SessionStatus::Sudo { user_id, expires_at } => {
            assert_eq!(user_id, UserId(7));
            // later than the first of January 2020
            assert!(expires_at.0 > 1_577_836_800_000_000_000);
        }
        other => panic!("expected Sudo, got {:?}", other),
    }
    let a = Session::from(db_session(DbSessionStatus::Authorized, Some(7)));
    assert_eq!(a.status, SessionStatus::Authorized { user_id: UserId(7) });
}

#[test]
fn stored_status_of_a_session() {
    assert_eq!(DbSessionStatus::from(SessionStatus::Unauthorized), DbSessionStatus::Unauthorized);
    assert_eq!(
        DbSessionStatus::from(SessionStatus::Authorized { user_id: UserId(7) }),
        DbSessionStatus::Authorized
    );
    assert_eq!(
        DbSessionStatus::from(SessionStatus::Sudo { user_id: UserId(7), expires_at: Time(0) }),
        DbSessionStatus::Sudo
    );
}

#[test]
fn stored_membership() {
    let join = RoomMembership::Join {
        override_name: None,
        override_description: None,
        roles: vec![RoleId(1)],
    };
    assert_eq!(DbMembership::from(join), DbMembership::Join);
    assert_eq!(DbMembership::from(RoomMembership::Leave), DbMembership::Leave);
    assert_eq!(DbMembership::from(RoomMembership::Ban), DbMembership::Ban);
    let tjoin = ThreadMembership::Join { override_name: None, override_description: None };
    assert_eq!(DbMembership::from(tjoin), DbMembership::Join);
    assert_eq!(DbMembership::from(ThreadMembership::Leave), DbMembership::Leave);
    assert_eq!(DbMembership::from(ThreadMembership::Ban), DbMembership::Ban);
}

#[test]
fn permissions_round_trip_through_storage() {
    for i in 0..PERMISSION_COUNT {
        let p = Permission::from_index(i);
        let d = DbPermission::from(p);
        assert_eq!(format!("{:?}", d), format!("{:?}", p));
        assert_eq!(Permission::from(d), p);
        assert_eq!(DbPermission::from(Permission::from(d)), d);
    }
    assert_eq!(Permission::from(DbPermission::ViewAuditLog), Permission::ViewAuditLog);
}

#[test]
fn role_from_row() {
    let row = DbRole {
        id: RoleId(2),
        version_id: 3,
        room_id: RoomId(5),
        name: "mods".to_string(),
        description: Some("keep order".to_string()),
        permissions: vec![DbPermission::MemberKick, DbPermission::View, DbPermission::MemberKick],
        is_self_applicable: true,
        is_mentionable: false,
        is_default: true,
    };
    assert_eq!(
        Role::from(row),
        Role {
            id: RoleId(2),
            version_id: 3,
            room_id: RoomId(5),
            name: "mods".to_string(),
            description: Some("keep order".to_string()),
            permissions: vec![Permission::MemberKick, Permission::View, Permission::MemberKick],
            is_self_applicable: true,
            is_mentionable: false,
            is_default: true,
        }
    );
}

fn create(message_type: MessageType) -> DbMessageCreate {
    DbMessageCreate {
        thread_id: ThreadId(3),
        attachment_ids: vec![],
        author_id: UserId(7),
        embeds: vec![],
        message_type,
        edited_at: None,
        created_at: None,
    }
}

#[test]
fn message_accessors() {
    let markdown = create(MessageType::DefaultMarkdown(MessageDefaultMarkdown {
        content: Some("hi".to_string()),
        attachments: vec![],
        metadata: Some("{\"k\":1}".to_string()),
        reply_id: Some(MessageId(4)),
        override_name: Some("bot".to_string()),
        embeds: vec![],
    }));
    assert_eq!(markdown.content(), Some("hi".to_string()));
    assert_eq!(markdown.metadata(), Some("{\"k\":1}".to_string()));
    assert_eq!(markdown.reply_id(), Some(MessageId(4)));
    assert_eq!(markdown.override_name(), Some("bot".to_string()));

    let tagged = create(MessageType::DefaultTagged(MessageDefaultTagged {
        content: None,
        attachments: vec![],
        reply_id: Some(MessageId(5)),
        embeds: vec![],
    }));
    assert_eq!(tagged.content(), None);
    assert_eq!(tagged.metadata(), None);
    assert_eq!(tagged.reply_id(), Some(MessageId(5)));
    assert_eq!(tagged.override_name(), None);

    let update = create(MessageType::ThreadUpdate("{\"name\":\"x\"}".to_string()));
    assert_eq!(update.content(), Some("(thread update)".to_string()));
    assert_eq!(update.metadata(), Some("{\"name\":\"x\"}".to_string()));
    assert_eq!(update.reply_id(), None);
    assert_eq!(update.override_name(), None);

    let other = create(MessageType::Other);
    assert_eq!(other.content(), None);
    assert_eq!(other.metadata(), None);
    assert_eq!(other.reply_id(), None);
    assert_eq!(other.override_name(), None);
}

#[test]
fn relationship_kinds_round_trip() {
    let pairs = [
        (RelationshipType::Friend, DbUserRelType::Friend),
        (RelationshipType::Outgoing, DbUserRelType::Outgoing),
        (RelationshipType::Incoming, DbUserRelType::Incoming),
        (RelationshipType::Block, DbUserRelType::Block),
    ];
    for (r, d) in pairs {
        assert_eq!(DbUserRelType::from(r), d);
        assert_eq!(RelationshipType::from(d), r);
    }
}

fn rel(ignore: Option<Ignore>) -> Relationship {
    Relationship {
        note: Some("met at work".to_string()),
        relation: Some(RelationshipType::Friend),
        petname: None,
        ignore,
    }
}

#[test]
fn relationship_to_row_and_back() {
    for ignore in [None, Some(Ignore::Forever), Some(Ignore::Until { ignore_until: Time(99) })] {
        let row = DbUserRel::from(rel(ignore));
        assert_eq!(row.rel, Some(DbUserRelType::Friend));
        assert_eq!(row.ignore_forever, ignore == Some(Ignore::Forever));
        assert_eq!(
            row.ignore_until,
            match ignore {
                Some(Ignore::Until { ignore_until }) => Some(ignore_until),
                _ => None,
            }
        );
        assert_eq!(Relationship::from(row), rel(ignore));
    }
}

#[test]
fn forever_outweighs_a_date() {
    let row = DbUserRel {
        rel: None,
        note: None,
        petname: Some("pal".to_string()),
        ignore_forever: true,
        ignore_until: Some(Time(5)),
    };
    let r = Relationship::from(row);
    assert_eq!(r.ignore, Some(Ignore::Forever));
    assert_eq!(r.petname, Some("pal".to_string()));
    assert_eq!(DbUserRel::from(r).ignore_until, None);
}

#[test]
fn relationship_with_user_id_from_row() {
    let row = DbUserRelWithId {
        rel: Some(DbUserRelType::Block),
        note: None,
        petname: None,
        ignore_forever: false,
        ignore_until: Some(Time(7)),
        user_id: 8,
    };
    assert_eq!(
        RelationshipWithUserId::from(row),
        RelationshipWithUserId {
            user_id: UserId(8),
            inner: Relationship {
                note: None,
                relation: Some(RelationshipType::Block),
                petname: None,
                ignore: Some(Ignore::Until { ignore_until: Time(7) }),
            },
        }
    );
}

#[test]
fn editing_a_relationship() {
    let empty = || RelationshipPatch { note: None, relation: None, petname: None, ignore: None };
    let stored = DbUserRel::from(rel(Some(Ignore::Forever)));
    assert_eq!(
        user_relationship_edit(Some(DbUserRel::from(rel(Some(Ignore::Forever)))), empty()),
        stored
    );
    let patch = RelationshipPatch {
        note: Some(None),
        relation: Some(Some(RelationshipType::Block)),
        petname: Some(Some("x".to_string())),
        ignore: Some(Some(Ignore::Until { ignore_until: Time(3) })),
    };
    assert_eq!(
        user_relationship_edit(Some(stored), patch),
        DbUserRel {
            rel: Some(DbUserRelType::Block),
            note: None,
            petname: Some("x".to_string()),
            ignore_forever: false,
            ignore_until: Some(Time(3)),
        }
    );
    assert_eq!(
        user_relationship_edit(None, empty()),
        DbUserRel { rel: None, note: None, petname: None, ignore_forever: false, ignore_until: None }
    );
    let only_note = RelationshipPatch { note: Some(Some("n".to_string())), ..empty() };
    assert_eq!(
        user_relationship_edit(None, only_note),
        DbUserRel {
            rel: None,
            note: Some("n".to_string()),
            petname: None,
            ignore_forever: false,
            ignore_until: None
        }
    );
}
