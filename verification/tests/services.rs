use chat_sync::application::{
    app_create, app_create_session, app_delete, app_get, app_patch, application, puppet_ensure,
    puppet_ensure_caller, puppet_ensure_parent, Application, ApplicationCreate, PuppetCreate,
    PuppetPlan,
};
use chat_sync::config::{Config, ConfigS3, ConfigSmtp, ConfigUrlPreview};
use chat_sync::data::{DbRoleCreate, DbUserCreate};
use chat_sync::email::EmailAddr;
use chat_sync::error::{Error, Reason};
use chat_sync::event::{InviteTargetId, MessageSync};
use chat_sync::http::media_upload;
use chat_sync::ids::{ApplicationId, MediaId, MessageId, RoomId, ThreadId, Time, UserId};
use chat_sync::invite::{
    can_manage, has_authority, invite_alphabet, invite_code, invite_delete, invite_patch,
    invite_resolve, invite_room_create, invite_room_list, invite_server_create,
    invite_server_list, invite_use, Authority, Invite, InviteUse, InviteWithMetadata,
    InviteWithPotentialMetadata, Publish,
};
use chat_sync::media::{
    Bot, BotAccess, Embed, ExternalPlatform, Media, MediaTrack, Message, MessageDefaultMarkdown,
    MessageType, Puppet, Room, RoomType,
};
use chat_sync::permission::{Permission, Permissions};
use chat_sync::room::{create, create_dm, create_dm_room, update, RoomPatch};
use chat_sync::session::SessionStatus;
use chat_sync::sfu::{Mid, TrackState};
use chat_sync::state::{
    presigned_fresh, Broadcast, ServerStateInner, PRESIGNED_URL_LIFETIME,
    PRESIGNED_URL_MIN_LIFETIME,
};
use chat_sync::tag::{Tag, TagCreate, TagPatch};
use std::collections::HashMap;

fn set(list: &[Permission]) -> Permissions {
    Permissions::from_slice(list)
}

fn invite(target: InviteTargetId, creator: u128) -> Invite {
    Invite {
        code: "abcd1234".to_string(),
        target,
        creator_id: UserId(creator),
        created_at: Time(1),
        expires_at: None,
        description: None,
    }
}

fn with_meta(target: InviteTargetId, creator: u128) -> InviteWithMetadata {
    InviteWithMetadata { max_uses: Some(5), uses: 2, invite: invite(target, creator) }
}

const ROOM: InviteTargetId = InviteTargetId::Room { room_id: RoomId(5) };
const THREAD: InviteTargetId = InviteTargetId::Thread { room_id: RoomId(5), thread_id: ThreadId(3) };

#[test]
fn invite_authority() {
    let manage = set(&[Permission::InviteManage]);
    let none = Permissions::empty();
    assert!(has_authority(&ROOM, &Authority::Room(manage)));
    assert!(!has_authority(&ROOM, &Authority::Room(none)));
    assert!(!has_authority(&ROOM, &Authority::Thread(manage)));
    assert!(!has_authority(&ROOM, &Authority::Server(true)));
    assert!(has_authority(&THREAD, &Authority::Thread(manage)));
    assert!(!has_authority(&THREAD, &Authority::Room(manage)));
    assert!(has_authority(&InviteTargetId::Server, &Authority::Server(true)));
    assert!(!has_authority(&InviteTargetId::Server, &Authority::Server(false)));
    assert!(!has_authority(&InviteTargetId::Server, &Authority::Room(manage)));
    assert!(has_authority(&ROOM, &Authority::Room(set(&[Permission::Admin]))));

    let i = invite(ROOM, 7);
    assert!(can_manage(UserId(7), &i, &Authority::Room(none)));
    assert!(can_manage(UserId(8), &i, &Authority::Room(manage)));
    assert!(!can_manage(UserId(8), &i, &Authority::Room(none)));
}

#[test]
fn deleting_an_invite() {
    let none = Authority::Room(Permissions::empty());
    assert_eq!(
        invite_delete(UserId(7), &invite(ROOM, 7), &none),
        Some(Publish::Room { room_id: RoomId(5), msg: MessageSync::InviteDelete { target: ROOM } })
    );
    assert_eq!(invite_delete(UserId(8), &invite(ROOM, 7), &none), None);
    assert_eq!(
        invite_delete(
            UserId(8),
            &invite(THREAD, 7),
            &Authority::Thread(set(&[Permission::InviteManage]))
        ),
        Some(Publish::Thread {
            thread_id: ThreadId(3),
            msg: MessageSync::InviteDelete { target: THREAD }
        })
    );
    assert_eq!(
        invite_delete(UserId(8), &invite(InviteTargetId::Server, 7), &Authority::Server(true)),
        Some(Publish::Nothing)
    );
    assert_eq!(
        invite_delete(UserId(8), &invite(InviteTargetId::Server, 7), &Authority::Server(false)),
        None
    );
}

#[test]
fn patching_an_invite() {
    let none = Authority::Room(Permissions::empty());
    assert_eq!(
        invite_patch(UserId(8), &invite(ROOM, 7), &none),
        Err(Error::MissingPermissions)
    );
    assert_eq!(
        invite_patch(UserId(7), &invite(ROOM, 7), &none),
        Ok(Publish::Room { room_id: RoomId(5), msg: MessageSync::InviteUpdate { target: ROOM } })
    );
    assert_eq!(
        invite_patch(UserId(7), &invite(InviteTargetId::Server, 7), &Authority::Server(false)),
        Ok(Publish::Nothing)
    );
}

#[test]
fn resolving_an_invite() {
    let none = Authority::Room(Permissions::empty());
    let manage = Authority::Room(set(&[Permission::InviteManage]));
    assert_eq!(
        invite_resolve(UserId(7), with_meta(ROOM, 7), &none),
        InviteWithPotentialMetadata::InviteWithMetadata(with_meta(ROOM, 7))
    );
    assert_eq!(
        invite_resolve(UserId(8), with_meta(ROOM, 7), &manage),
        InviteWithPotentialMetadata::InviteWithMetadata(with_meta(ROOM, 7))
    );
    assert_eq!(
        invite_resolve(UserId(8), with_meta(ROOM, 7), &none),
        InviteWithPotentialMetadata::Invite(invite(ROOM, 7))
    );
    assert_eq!(with_meta(ROOM, 7).strip_metadata(), invite(ROOM, 7));
}

#[test]
fn using_an_invite() {
    assert_eq!(invite_use(&ROOM, true), Err(Error::NotFound));
    assert_eq!(invite_use(&InviteTargetId::Server, true), Err(Error::NotFound));
    assert_eq!(invite_use(&ROOM, false), Ok(InviteUse::JoinRoom { room_id: RoomId(5) }));
    assert_eq!(invite_use(&THREAD, false), Ok(InviteUse::JoinRoom { room_id: RoomId(5) }));
    assert_eq!(invite_use(&InviteTargetId::Server, false), Ok(InviteUse::Register));
}

fn is_code(code: &str) -> bool {
    code.chars().count() == 8 && code.chars().all(|c| c.is_ascii_alphanumeric())
}

#[test]
fn invite_codes() {
    let alphabet = invite_alphabet();
    assert_eq!(alphabet.len(), 62);
    let text: String = alphabet.iter().collect();
    assert_eq!(text, "abcdefghijklmnopqrstuvwxyzABCDEFGHIJKLMNOPQRSTUVWXYZ0123456789");
    let mut seen = std::collections::HashSet::new();
    for _ in 0..50 {
        let code = invite_code();
        assert!(is_code(&code), "{}", code);
        seen.insert(code);
    }
    assert!(seen.len() > 1);
}

#[test]
fn creating_a_room_invite() {
    assert_eq!(invite_room_create(&Permissions::empty()), Err(Error::NotFound));
    assert_eq!(invite_room_create(&set(&[Permission::InviteCreate])), Err(Error::NotFound));
    assert_eq!(invite_room_create(&set(&[Permission::View])), Err(Error::MissingPermissions));
    let code = invite_room_create(&set(&[Permission::View, Permission::InviteCreate])).unwrap();
    assert!(is_code(&code));
    assert!(is_code(&invite_room_create(&set(&[Permission::Admin])).unwrap()));
}

#[test]
fn listing_room_invites() {
    let items = vec![with_meta(ROOM, 7), with_meta(ROOM, 8)];
    assert_eq!(invite_room_list(UserId(7), &Permissions::empty(), &items), Err(Error::NotFound));
    assert_eq!(
        invite_room_list(UserId(7), &set(&[Permission::View]), &items),
        Ok(vec![
            InviteWithPotentialMetadata::InviteWithMetadata(with_meta(ROOM, 7)),
            InviteWithPotentialMetadata::Invite(invite(ROOM, 8)),
        ])
    );
    assert_eq!(
        invite_room_list(UserId(9), &set(&[Permission::View, Permission::InviteManage]), &items),
        Ok(vec![
            InviteWithPotentialMetadata::InviteWithMetadata(with_meta(ROOM, 7)),
            InviteWithPotentialMetadata::InviteWithMetadata(with_meta(ROOM, 8)),
        ])
    );
    assert_eq!(invite_room_list(UserId(9), &set(&[Permission::View]), &vec![]), Ok(vec![]));
}

#[test]
fn server_invites() {
    assert_eq!(
        invite_server_create(false),
        Err(Error::BadStatic(Reason::GuestCreateInvite))
    );
    assert!(is_code(&invite_server_create(true).unwrap()));
    assert_eq!(Reason::GuestCreateInvite.text(), "Guest users cannot create server invites");
    assert_eq!(Reason::GuestListInvites.text(), "Guest users cannot list server invites");

    let s = InviteTargetId::Server;
    let items = vec![with_meta(s, 7), with_meta(s, 8)];
    assert_eq!(
        invite_server_list(UserId(7), false, true, &items),
        Err(Error::BadStatic(Reason::GuestListInvites))
    );
    assert_eq!(
        invite_server_list(UserId(7), true, false, &items),
        Ok(vec![
            InviteWithPotentialMetadata::InviteWithMetadata(with_meta(s, 7)),
            InviteWithPotentialMetadata::Invite(invite(s, 8)),
        ])
    );
    assert_eq!(
        invite_server_list(UserId(9), true, true, &items),
        Ok(vec![
            InviteWithPotentialMetadata::InviteWithMetadata(with_meta(s, 7)),
            InviteWithPotentialMetadata::InviteWithMetadata(with_meta(s, 8)),
        ])
    );
}

fn request(public: bool, bridge: bool) -> ApplicationCreate {
    ApplicationCreate { name: "relay".to_string(), description: None, bridge, public }
}

fn app(owner: u128) -> Application {
    Application {
        id: ApplicationId(40),
        owner_id: UserId(owner),
        name: "relay".to_string(),
        description: None,
        bridge: true,
        public: false,
    }
}

#[test]
fn creating_an_application() {
    assert_eq!(app_create(UserId(7), &request(true, false), Time(9)), Err(Error::Unimplemented));
    assert_eq!(
        app_create(UserId(7), &request(false, true), Time(9)),
        Ok(DbUserCreate {
            parent_id: Some(UserId(7)),
            name: "relay".to_string(),
            description: None,
            bot: Some(Bot { owner_id: UserId(7), access: BotAccess::Private, is_bridge: true }),
            puppet: None,
            registered_at: Some(Time(9)),
        })
    );
    assert_eq!(application(UserId(40), UserId(7), request(false, true)), app(7));
}

#[test]
fn application_ownership() {
    assert_eq!(app_get(app(7), UserId(7)), Ok(app(7)));
    assert_eq!(app_get(app(7), UserId(8)), Err(Error::NotFound));
    assert_eq!(app_patch(), Err(Error::Unimplemented));
    assert_eq!(app_delete(&app(7), UserId(7)), Some(UserId(40)));
    assert_eq!(app_delete(&app(7), UserId(8)), None);
    assert_eq!(app_create_session(&app(7), UserId(8)), Err(Error::MissingPermissions));
    let (token, status) = app_create_session(&app(7), UserId(7)).unwrap();
    assert_eq!(token.chars().count(), 36);
    assert_eq!(status, SessionStatus::Authorized { user_id: UserId(40) });
    let (other, _) = app_create_session(&app(7), UserId(7)).unwrap();
    assert_ne!(token, other);
}

#[test]
fn ensuring_a_puppet() {
    assert_eq!(puppet_ensure_caller(ApplicationId(7), UserId(7)), Ok(()));
    assert_eq!(puppet_ensure_caller(ApplicationId(7), UserId(8)), Err(Error::MissingPermissions));
    let bridge = Bot { owner_id: UserId(1), access: BotAccess::Private, is_bridge: true };
    assert_eq!(puppet_ensure_parent(Some(bridge)), Ok(()));
    assert_eq!(
        puppet_ensure_parent(Some(Bot { is_bridge: false, ..bridge })),
        Err(Error::BadStatic(Reason::NotABridge))
    );
    assert_eq!(puppet_ensure_parent(None), Err(Error::BadStatic(Reason::NotABridge)));
    assert_eq!(Reason::NotABridge.text(), "can't create that user");

    let json =
        || PuppetCreate { name: "ann".to_string(), description: None, bot: false, system: false };
    assert_eq!(
        puppet_ensure(UserId(7), Some(UserId(50)), "d1".to_string(), json(), Time(9)),
        PuppetPlan::Existing(UserId(50))
    );
    assert_eq!(
        puppet_ensure(UserId(7), None, "d1".to_string(), json(), Time(9)),
        PuppetPlan::Create(DbUserCreate {
            parent_id: Some(UserId(7)),
            name: "ann".to_string(),
            description: None,
            bot: None,
            puppet: Some(Puppet {
                owner_id: UserId(7),
                external_platform: ExternalPlatform::Discord,
                external_id: "d1".to_string(),
                external_url: None,
                alias_id: None,
            }),
            registered_at: Some(Time(9)),
        })
    );
}

fn room() -> Room {
    Room {
        id: RoomId(5),
        version_id: 1,
        name: "lobby".to_string(),
        description: None,
        icon: Some(MediaId(2)),
        room_type: RoomType::Default,
        member_count: 0,
        online_count: 0,
        thread_count: 0,
        archived_at: None,
    }
}

#[test]
fn room_patches() {
    let none = RoomPatch { name: None, description: None, icon: None };
    assert!(!none.changes(&room()));
    assert_eq!(update(&room(), &none), Err(Error::NotModified));
    let same = RoomPatch {
        name: Some("lobby".to_string()),
        description: Some(None),
        icon: Some(Some(MediaId(2))),
    };
    assert!(!same.changes(&room()));
    assert_eq!(update(&room(), &same), Err(Error::NotModified));
    let rename = RoomPatch { name: Some("hall".to_string()), description: None, icon: None };
    assert!(rename.changes(&room()));
    assert_eq!(update(&room(), &rename), Ok(()));
    let describe =
        RoomPatch { name: None, description: Some(Some("d".to_string())), icon: None };
    assert!(describe.changes(&room()));
    let clear_icon = RoomPatch { name: None, description: None, icon: Some(None) };
    assert!(clear_icon.changes(&room()));
    let new_icon = RoomPatch { name: None, description: None, icon: Some(Some(MediaId(3))) };
    assert!(new_icon.changes(&room()));
}

#[test]
fn roles_of_a_new_room() {
    let roles = create(
        RoomId(5),
        vec![Permission::MemberKick, Permission::View],
        vec![Permission::View, Permission::MessageCreate],
    );
    let expect = |name: &str, permissions: Vec<Permission>, is_default: bool| DbRoleCreate {
        room_id: RoomId(5),
        name: name.to_string(),
        description: None,
        permissions,
        is_self_applicable: false,
        is_mentionable: false,
        is_default,
    };
    assert_eq!(roles.admin, expect("admin", vec![Permission::Admin], false));
    assert_eq!(
        roles.moderator,
        expect("moderator", vec![Permission::MemberKick, Permission::View], false)
    );
    assert_eq!(
        roles.everyone,
        expect("everyone", vec![Permission::View, Permission::MessageCreate], true)
    );
    assert_eq!(create_dm(RoomId(6)), DbRoleCreate {
        room_id: RoomId(6),
        ..expect("default", vec![Permission::Admin], true)
    });
    let dm = create_dm_room();
    assert_eq!(dm.name, "(dm)");
    assert_eq!(dm.description, None);
    assert_eq!(dm.icon, None);
}

fn state(cdn: &str, bucket: &str) -> ServerStateInner {
    ServerStateInner {
        config: Config {
            rust_log: "info".to_string(),
            database_url: "postgres://localhost/chat".to_string(),
            api_url: "https://api.example.org/".to_string(),
            cdn_url: cdn.to_string(),
            s3: ConfigS3 {
                bucket: bucket.to_string(),
                endpoint: "https://s3.example.org/".to_string(),
                region: "eu".to_string(),
                access_key_id: "id".to_string(),
                secret_access_key: "key".to_string(),
            },
            oauth_provider: HashMap::new(),
            url_preview: ConfigUrlPreview { user_agent: "bot".to_string(), deny: vec![] },
            smtp: ConfigSmtp {
                username: "u".to_string(),
                password: "p".to_string(),
                host: "mail.example.org".to_string(),
            },
            otel_trace_endpoint: None,
            sfu_token: "t".to_string(),
        },
    }
}

#[test]
fn storage_addresses() {
    let s = state("https://cdn.example.org/", "uploads");
    assert_eq!(s.get_s3_url("/media/1/file.png"), Ok("s3://uploads/media/1/file.png".to_string()));
    assert_eq!(s.get_s3_url("media/2"), Ok("s3://uploads/media/2".to_string()));
    assert_eq!(s.get_s3_url("/a b"), Ok("s3://uploads/a%20b".to_string()));
    assert_eq!(s.config().s3.bucket, "uploads");
    let bad = state("https://cdn.example.org/", ":");
    assert_eq!(bad.get_s3_url("/x"), Err(Error::Internal));
}

fn media(id: u128, urls: &[&str]) -> Media {
    Media {
        id: MediaId(id),
        tracks: urls.iter().map(|u| MediaTrack { url: u.to_string() }).collect(),
    }
}

#[test]
fn presign_keeps_the_path_and_replaces_the_host() {
    let s = state("https://cdn.example.org/", "uploads");
    let mut m = media(1, &["s3://uploads/media/1/file.png", "https://old.example.com/thumb/1?x=2"]);
    assert_eq!(s.presign(&mut m), Ok(()));
    assert_eq!(
        m,
        media(1, &["https://cdn.example.org/media/1/file.png", "https://cdn.example.org/thumb/1"])
    );
    assert_eq!(
        s.presigned(&media(2, &["s3://uploads/a/b"])),
        Ok(media(2, &["https://cdn.example.org/a/b"]))
    );
    let mut empty = media(3, &[]);
    assert_eq!(s.presign(&mut empty), Ok(()));
    assert_eq!(empty, media(3, &[]));
}

#[test]
fn presign_fails_whole() {
    let s = state("https://cdn.example.org/", "uploads");
    let mut m = media(1, &["s3://uploads/ok", "not an address"]);
    assert_eq!(s.presign(&mut m), Err(Error::Internal));
    assert_eq!(m, media(1, &["s3://uploads/ok", "not an address"]));
    let broken = state("nowhere", "uploads");
    let mut m = media(1, &["s3://uploads/ok"]);
    assert_eq!(broken.presign(&mut m), Err(Error::Internal));
    assert_eq!(m, media(1, &["s3://uploads/ok"]));
}

fn message(message_type: MessageType) -> Message {
    Message {
        id: MessageId(9),
        thread_id: ThreadId(3),
        version_id: 1,
        author_id: UserId(7),
        message_type,
    }
}

fn markdown(attachment: &str, embed: &str, avatar: Option<&str>) -> MessageType {
    MessageType::DefaultMarkdown(MessageDefaultMarkdown {
        content: Some("look".to_string()),
        attachments: vec![media(1, &[attachment])],
        metadata: None,
        reply_id: None,
        override_name: None,
        embeds: vec![Embed {
            url: Some("https://example.com/page".to_string()),
            media: Some(media(2, &[embed])),
            author_avatar: avatar.map(|a| media(3, &[a])),
            site_avatar: None,
        }],
    })
}

#[test]
fn presign_message_rewrites_attachments_and_embeds() {
    let s = state("https://cdn.example.org/", "uploads");
    let mut m = message(markdown("s3://uploads/a", "s3://uploads/e", Some("s3://uploads/av")));
    assert_eq!(s.presign_message(&mut m), Ok(()));
    assert_eq!(
        m,
        message(markdown(
            "https://cdn.example.org/a",
            "https://cdn.example.org/e",
            Some("https://cdn.example.org/av")
        ))
    );
    let mut other = message(MessageType::ThreadUpdate("{}".to_string()));
    assert_eq!(s.presign_message(&mut other), Ok(()));
    assert_eq!(other, message(MessageType::ThreadUpdate("{}".to_string())));
}

#[test]
fn presign_message_fails_whole() {
    let s = state("https://cdn.example.org/", "uploads");
    let mut m = message(markdown("s3://uploads/a", "s3://uploads/e", Some("::")));
    assert_eq!(s.presign_message(&mut m), Err(Error::Internal));
    assert_eq!(m, message(markdown("s3://uploads/a", "s3://uploads/e", Some("::"))));
}

#[test]
fn broadcast_plans() {
    let s = state("https://cdn.example.org/", "uploads");
    assert_eq!(s.broadcast_room(RoomId(5), true), Broadcast { audit: Some(RoomId(5)), send: true });
    assert_eq!(s.broadcast_room(RoomId(5), false), Broadcast { audit: None, send: true });
    assert_eq!(
        s.broadcast_thread(Some(RoomId(5)), true),
        Broadcast { audit: Some(RoomId(5)), send: true }
    );
    assert_eq!(s.broadcast_thread(None, true), Broadcast { audit: None, send: false });
    assert_eq!(s.broadcast_thread(Some(RoomId(5)), false), Broadcast { audit: None, send: true });
    assert_eq!(s.broadcast_thread(None, false), Broadcast { audit: None, send: true });
    assert_eq!(s.broadcast(), Broadcast { audit: None, send: true });
}

#[test]
fn email_addresses() {
    let ok = EmailAddr::try_from("someone@example.com".to_string()).unwrap();
    assert_eq!(ok.as_ref(), "someone@example.com");
    assert_eq!(ok.clone().into_inner(), "someone@example.com");
    assert!(EmailAddr::try_from("nobody".to_string()).is_err());
    assert!(EmailAddr::try_from(String::new()).is_err());
    assert!(EmailAddr::try_from("a b@example.com".to_string()).is_err());
    assert!(EmailAddr::try_from("@example.com".to_string()).is_err());
    assert!(EmailAddr::try_from("email@[127.0.0.1]".to_string()).is_ok());
}

#[test]
fn tag_lengths() {
    let tag = |name: &str, description: Option<String>| Tag {
        id: 1,
        version_id: 2,
        room_id: RoomId(5),
        name: name.to_string(),
        description,
        color: None,
        is_archived: false,
    };
    assert_eq!(tag("bug", None).validate(), Ok(()));
    assert_eq!(tag("", None).validate(), Err(Error::Validation));
    assert_eq!(tag(&"x".repeat(64), None).validate(), Ok(()));
    assert_eq!(tag(&"x".repeat(65), None).validate(), Err(Error::Validation));
    assert_eq!(tag(&"é".repeat(64), None).validate(), Ok(()));
    assert_eq!(tag("bug", Some(String::new())).validate(), Err(Error::Validation));
    assert_eq!(tag("bug", Some("y".repeat(8192))).validate(), Ok(()));
    assert_eq!(tag("bug", Some("y".repeat(8193))).validate(), Err(Error::Validation));

    let create =
        TagCreate { room_id: RoomId(5), name: "bug".to_string(), description: None, color: None };
    assert_eq!(create.validate(), Ok(()));
    let create =
        TagCreate { room_id: RoomId(5), name: String::new(), description: None, color: None };
    assert_eq!(create.validate(), Err(Error::Validation));

    let patch = |name: Option<&str>, description: Option<Option<String>>| TagPatch {
        name: name.map(|n| n.to_string()),
        description,
        color: None,
        is_archived: None,
    };
    assert_eq!(patch(None, None).validate(), Ok(()));
    assert_eq!(patch(Some(""), None).validate(), Err(Error::Validation));
    assert_eq!(patch(Some("ok"), Some(None)).validate(), Ok(()));
    assert_eq!(patch(None, Some(Some(String::new()))).validate(), Err(Error::Validation));
    assert_eq!(patch(None, Some(Some("d".to_string()))).validate(), Ok(()));
}

#[test]
fn upload_answers() {
    assert_eq!(media_upload(200), Ok(true));
    assert_eq!(media_upload(204), Ok(false));
    assert_eq!(media_upload(400), Err(Error::Transport));
    assert_eq!(media_upload(404), Err(Error::Transport));
    assert_eq!(media_upload(599), Err(Error::Transport));
}

#[test]
fn track_media_lines() {
    assert_eq!(TrackState::Pending.mid(), None);
    assert_eq!(TrackState::Negotiating(Mid(4)).mid(), Some(Mid(4)));
    assert_eq!(TrackState::Open(Mid(5)).mid(), Some(Mid(5)));
    assert_eq!(
        chat_sync::sfu::Error::NotConnected.message(),
        "no voice state exists for this user"
    );
}

#[test]
fn signed_addresses_are_refreshed_below_eight_hours() {
    let hour: i128 = 3_600_000_000_000;
    assert_eq!(PRESIGNED_URL_LIFETIME, 24 * hour);
    assert_eq!(PRESIGNED_URL_MIN_LIFETIME, 8 * hour);
    assert!(presigned_fresh(Time(0), Time(0)));
    assert!(presigned_fresh(Time(0), Time(16 * hour)));
    assert!(!presigned_fresh(Time(0), Time(16 * hour + 1)));
    assert!(!presigned_fresh(Time(0), Time(24 * hour)));
    assert!(presigned_fresh(Time(5 * hour), Time(21 * hour)));
    assert!(presigned_fresh(Time(i128::MAX), Time(i128::MAX)));
    assert!(presigned_fresh(Time(i128::MAX), Time(0)));
    assert!(!presigned_fresh(Time(i128::MIN), Time(0)));
    assert!(presigned_fresh(Time(10), Time(-10)));
}
