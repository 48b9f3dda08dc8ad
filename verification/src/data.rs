//! Rows as the data provider stores them, and what the core makes of them.

use crate::ids::{MediaId, MessageId, RoleId, RoomId, SessionId, ThreadId, Time, UserId};
use crate::media::{
    Bot, Embed, MessageType, Puppet, Room, RoomType, Thread, ThreadPrivate, ThreadPublic,
    ThreadTypeChatPrivate, ThreadTypeChatPublic, ThreadTypeForumPublic, ThreadTypeVoicePrivate,
    ThreadTypeVoicePublic,
};
use crate::permission::Permission;
use crate::session::{Session, SessionStatus};
use crate::types::{PermissionOverwrite, Role, RoomMembership, ThreadMembership};
use vstd::prelude::*;
use vstd::std_specs::convert::FromSpecImpl;

verus! {

/// A room as stored.
#[derive(Debug, PartialEq, Eq, Hash)]
pub struct DbRoom {
    pub id: u128,
    pub version_id: u128,
    pub name: String,
    pub description: Option<String>,
    pub dm_uid_a: Option<u128>,
    pub dm_uid_b: Option<u128>,
    pub icon: Option<u128>,
}

/// What is stored when a user is created.
#[derive(Debug, PartialEq, Eq, Hash)]
pub struct DbUserCreate {
    pub parent_id: Option<UserId>,
    pub name: String,
    pub description: Option<String>,
    pub bot: Option<Bot>,
    pub puppet: Option<Puppet>,
    pub registered_at: Option<Time>,
}

/// A membership as stored.
#[derive(Clone, Copy, Debug, PartialEq, Eq, Structural, Hash)]
pub enum DbMembership {
    Join,
    Leave,
    Ban,
}

/// The kind of a room as stored.
#[derive(Clone, Copy, Debug, PartialEq, Eq, Structural, Hash)]
pub enum DbRoomType {
    Default,
    Dm,
}

/// The kind of a thread as stored.
#[derive(Clone, Copy, Debug, PartialEq, Eq, Structural, Hash)]
pub enum DbThreadType {
    Chat,
    Forum,
    Voice,
}

/// A thread as stored. The overwrites are already read from their stored
/// form.
#[derive(Debug, PartialEq, Eq, Hash)]
pub struct DbThread {
    pub id: ThreadId,
    pub room_id: Option<u128>,
    pub creator_id: UserId,
    pub version_id: u128,
    pub name: String,
    pub description: Option<String>,
    pub ty: DbThreadType,
    pub last_version_id: u128,
    pub message_count: i64,
    pub permission_overwrites: Vec<PermissionOverwrite>,
}

/// What one viewer has stored about a thread.
#[derive(Clone, Copy, Debug, PartialEq, Eq, Hash)]
pub struct DbThreadPrivate {
    pub id: ThreadId,
    pub ty: DbThreadType,
    pub last_read_id: Option<u128>,
    pub is_unread: bool,
}

/// What is stored when a thread is created.
#[derive(Debug, PartialEq, Eq, Hash)]
pub struct DbThreadCreate {
    pub room_id: Option<u128>,
    pub creator_id: UserId,
    pub name: String,
    pub description: Option<String>,
    pub ty: DbThreadType,
}

/// A session as stored.
#[derive(Debug, PartialEq, Eq, Hash)]
pub struct DbSession {
    pub id: u128,
    pub user_id: Option<u128>,
    pub token: String,
    pub status: DbSessionStatus,
    pub name: Option<String>,
}

/// The status of a session as stored.
#[derive(Clone, Copy, Debug, PartialEq, Eq, Structural, Hash)]
pub enum DbSessionStatus {
    Unauthorized,
    Authorized,
    Sudo,
}

/// A role as stored.
#[derive(Debug, PartialEq, Eq, Hash)]
pub struct DbRole {
    pub id: RoleId,
    pub version_id: u128,
    pub room_id: RoomId,
    pub name: String,
    pub description: Option<String>,
    pub permissions: Vec<DbPermission>,
    pub is_self_applicable: bool,
    pub is_mentionable: bool,
    pub is_default: bool,
}

/// What is stored when a role is created.
#[derive(Debug, PartialEq, Eq, Hash)]
pub struct DbRoleCreate {
    pub room_id: RoomId,
    pub name: String,
    pub description: Option<String>,
    pub permissions: Vec<Permission>,
    pub is_self_applicable: bool,
    pub is_mentionable: bool,
    pub is_default: bool,
}

/// What is stored when a message is created.
#[derive(Debug, PartialEq, Eq, Hash)]
pub struct DbMessageCreate {
    pub thread_id: ThreadId,
    pub attachment_ids: Vec<MediaId>,
    pub author_id: UserId,
    pub embeds: Vec<Embed>,
    pub message_type: MessageType,
    pub edited_at: Option<Time>,
    pub created_at: Option<Time>,
}

/// An invite as stored.
#[derive(Debug, PartialEq, Eq, Hash)]
pub struct DbInvite {
    pub code: String,
    pub target_type: String,
    pub target_id: u128,
    pub creator_id: u128,
    pub max_uses: Option<i32>,
    pub uses: i32,
    pub created_at: Time,
    pub expires_at: Option<Time>,
    pub description: Option<String>,
}

/// The query of a request to delete a role.
#[derive(Clone, Copy, Debug, PartialEq, Eq, Structural, Hash)]
pub struct RoleDeleteQuery {
    /// Delete the role even where members hold it.
    pub force: bool,
}

/// The state of a thread as stored.
#[derive(Clone, Copy, Debug, PartialEq, Eq, Structural, Hash)]
pub enum DbThreadState {
    Pinned,
    Active,
    Temporary,
    Archived,
    Deleted,
}

/// What a media item is linked to.
#[derive(Clone, Copy, Debug, PartialEq, Eq, Structural, Hash)]
pub enum MediaLinkType {
    Message,
    MessageVersion,
    AvatarUser,
    AvatarRoom,
    Embed,
    CustomEmoji,
}

/// A reference from a record to a media item.
#[derive(Clone, Copy, Debug, PartialEq, Eq, Hash)]
pub struct MediaLink {
    pub media_id: MediaId,
    pub target_id: u128,
    pub link_type: MediaLinkType,
}

/// A link that waits for its preview. `message_ref` is kept as JSON text.
#[derive(Debug, PartialEq, Eq, Hash)]
pub struct UrlEmbedQueue {
    pub id: u128,
    pub message_ref: Option<String>,
    pub user_id: u128,
    pub url: String,
    pub created_at: Time,
    pub claimed_at: Option<Time>,
    pub finished_at: Option<Time>,
}

/// The message version that a queued preview belongs to.
#[derive(Clone, Copy, Debug, PartialEq, Eq, Hash)]
pub struct MessageRef {
    pub message_id: MessageId,
    pub version_id: u128,
    pub thread_id: ThreadId,
}

/// An email that waits to be sent.
#[derive(Debug, PartialEq, Eq, Hash)]
pub struct DbEmailQueue {
    pub id: u128,
    pub to_addr: String,
    pub from_addr: String,
    pub subject: String,
    pub plain_text_body: String,
    pub html_body: Option<String>,
}

impl DbRoom {
    /// Whether the row can be read: a conversation between two users names
    /// both of them.
    pub open spec fn wf(self) -> bool {
        self.dm_uid_a is Some ==> self.dm_uid_b is Some
    }

    /// Whether the row can be read.
    pub fn is_wf(&self) -> (r: bool)
        ensures
            r == self.wf(),
    {
        self.dm_uid_a.is_none() || self.dm_uid_b.is_some()
    }
}

impl Room {
    /// The room that a row stands for. A row that names a first participant
    /// is a conversation between two users. The counts are not stored and
    /// read as zero.
    pub open spec fn spec_from(row: DbRoom) -> Room {
        Room {
            id: RoomId(row.id),
            version_id: row.version_id,
            name: row.name,
            description: row.description,
            icon: match row.icon {
                Some(i) => Some(MediaId(i)),
                None => None,
            },
            room_type: if row.dm_uid_a is Some {
                RoomType::Dm {
                    participants: (
                        UserId(row.dm_uid_a.unwrap()),
                        UserId(row.dm_uid_b.unwrap()),
                    ),
                }
            } else {
                RoomType::Default
            },
            member_count: 0,
            online_count: 0,
            thread_count: 0,
            archived_at: None,
        }
    }

    /// Reads a room from its row.
    pub fn from(row: DbRoom) -> (r: Room)
        requires
            row.wf(),
        ensures
            r == Room::spec_from(row),
    {
        let room_type = match (row.dm_uid_a, row.dm_uid_b) {
            (Some(a), Some(b)) => RoomType::Dm { participants: (UserId(a), UserId(b)) },
            _ => RoomType::Default,
        };
        Room {
            id: RoomId(row.id),
            version_id: row.version_id,
            name: row.name,
            description: row.description,
            icon: match row.icon {
                Some(i) => Some(MediaId(i)),
                None => None,
            },
            room_type,
            member_count: 0,
            online_count: 0,
            thread_count: 0,
            archived_at: None,
        }
    }
}

impl DbThread {
    /// Whether the row can be read: a thread that counts messages does not
    /// count below zero.
    pub open spec fn wf(self) -> bool {
        self.ty != DbThreadType::Voice ==> self.message_count >= 0
    }

    /// Whether the row can be read.
    pub fn is_wf(&self) -> (r: bool)
        ensures
            r == self.wf(),
    {
        match self.ty {
            DbThreadType::Voice => true,
            _ => self.message_count >= 0,
        }
    }
}

impl Thread {
    /// The public part of the thread that a row stands for. A voice thread
    /// has the bitrate 64000 and room for 100 users.
    pub open spec fn spec_info(row: DbThread) -> ThreadPublic {
        match row.ty {
            DbThreadType::Chat => ThreadPublic::Chat(
                ThreadTypeChatPublic {
                    last_version_id: row.last_version_id,
                    message_count: row.message_count as u64,
                },
            ),
            DbThreadType::Forum => ThreadPublic::Forum(
                ThreadTypeForumPublic {
                    last_version_id: row.last_version_id,
                    message_count: row.message_count as u64,
                    root_message_count: 0,
                },
            ),
            DbThreadType::Voice => ThreadPublic::Voice(
                ThreadTypeVoicePublic { bitrate: 64000, user_limit: 100 },
            ),
        }
    }

    /// Whether this is the thread that `row` stands for, as everybody sees
    /// it: without a private part, unlocked, no announcement, neither
    /// archived nor deleted, without tags, and with counts of zero.
    pub open spec fn spec_is_from(self, row: DbThread) -> bool {
        &&& self.id == row.id
        &&& self.room_id == match row.room_id {
            Some(r) => Some(RoomId(r)),
            None => None,
        }
        &&& self.creator_id == row.creator_id
        &&& self.version_id == row.version_id
        &&& self.name == row.name
        &&& self.description == row.description
        &&& self.info == Thread::spec_info(row)
        &&& self.private is None
        &&& self.member_count == 0
        &&& self.online_count == 0
        &&& self.tags@ == Seq::<u128>::empty()
        &&& !self.is_locked
        &&& !self.is_announcement
        &&& self.permission_overwrites == row.permission_overwrites
        &&& self.archived_at is None
        &&& self.deleted_at is None
    }

    /// Reads a thread from its row.
    pub fn from(row: DbThread) -> (r: Thread)
        requires
            row.wf(),
        ensures
            r.spec_is_from(row),
    {
        let info = match row.ty {
            DbThreadType::Chat => ThreadPublic::Chat(
                ThreadTypeChatPublic {
                    last_version_id: row.last_version_id,
                    message_count: row.message_count as u64,
                },
            ),
            DbThreadType::Forum => ThreadPublic::Forum(
                ThreadTypeForumPublic {
                    last_version_id: row.last_version_id,
                    message_count: row.message_count as u64,
                    root_message_count: 0,
                },
            ),
            DbThreadType::Voice => ThreadPublic::Voice(
                ThreadTypeVoicePublic { bitrate: 64000, user_limit: 100 },
            ),
        };
        Thread {
            id: row.id,
            room_id: match row.room_id {
                Some(r) => Some(RoomId(r)),
                None => None,
            },
            creator_id: row.creator_id,
            version_id: row.version_id,
            name: row.name,
            description: row.description,
            info,
            private: None,
            member_count: 0,
            online_count: 0,
            tags: Vec::new(),
            is_locked: false,
            is_announcement: false,
            permission_overwrites: row.permission_overwrites,
            archived_at: None,
            deleted_at: None,
        }
    }
}

impl ThreadPrivate {
    /// What one viewer sees, from what is stored for that viewer. Mentions
    /// are not stored and read as zero.
    pub open spec fn spec_from(row: DbThreadPrivate) -> ThreadPrivate {
        let chat = ThreadTypeChatPrivate {
            is_unread: row.is_unread,
            last_read_id: match row.last_read_id {
                Some(i) => Some(MessageId(i)),
                None => None,
            },
            mention_count: 0,
        };
        match row.ty {
            DbThreadType::Chat => ThreadPrivate::Chat(chat),
            DbThreadType::Forum => ThreadPrivate::Forum(chat),
            DbThreadType::Voice => ThreadPrivate::Voice(ThreadTypeVoicePrivate {  }),
        }
    }

    /// Reads a viewer's part of a thread from its row.
    pub fn from(row: DbThreadPrivate) -> (r: ThreadPrivate)
        ensures
            r == ThreadPrivate::spec_from(row),
    {
        let chat = ThreadTypeChatPrivate {
            is_unread: row.is_unread,
            last_read_id: match row.last_read_id {
                Some(i) => Some(MessageId(i)),
                None => None,
            },
            mention_count: 0,
        };
        match row.ty {
            DbThreadType::Chat => ThreadPrivate::Chat(chat),
            DbThreadType::Forum => ThreadPrivate::Forum(chat),
            DbThreadType::Voice => ThreadPrivate::Voice(ThreadTypeVoicePrivate {  }),
        }
    }
}

impl DbSession {
    /// Whether the row can be read: a session that is bound names its user.
    pub open spec fn wf(self) -> bool {
        self.status != DbSessionStatus::Unauthorized ==> self.user_id is Some
    }

    /// Whether the row can be read.
    pub fn is_wf(&self) -> (r: bool)
        ensures
            r == self.wf(),
    {
        match self.status {
            DbSessionStatus::Unauthorized => true,
            _ => self.user_id.is_some(),
        }
    }
}

/// Reads the clock: `time::OffsetDateTime::now_utc`, as nanoseconds since the
/// Unix epoch. Nothing is claimed of the result.
#[verifier::external_body]
fn now_utc() -> Time {
    Time(time::OffsetDateTime::now_utc().unix_timestamp_nanos())
}

impl Session {
    /// The session that a row stands for, where raised privileges read at
    /// `now` end at `now`.
    pub open spec fn spec_from_at(row: DbSession, now: Time) -> Session {
        Session {
            id: SessionId(row.id),
            status: match row.status {
                DbSessionStatus::Unauthorized => SessionStatus::Unauthorized,
                DbSessionStatus::Authorized => SessionStatus::Authorized {
                    user_id: UserId(row.user_id.unwrap()),
                },
                DbSessionStatus::Sudo => SessionStatus::Sudo {
                    user_id: UserId(row.user_id.unwrap()),
                    expires_at: now,
                },
            },
            name: row.name,
        }
    }

    /// Reads a session from its row at the time `now`.
    pub fn from_at(row: DbSession, now: Time) -> (r: Session)
        requires
            row.wf(),
        ensures
            r == Session::spec_from_at(row, now),
    {
        let status = match (row.status, row.user_id) {
            (DbSessionStatus::Authorized, Some(u)) => SessionStatus::Authorized {
                user_id: UserId(u),
            },
            (DbSessionStatus::Sudo, Some(u)) => SessionStatus::Sudo {
                user_id: UserId(u),
                expires_at: now,
            },
            _ => SessionStatus::Unauthorized,
        };
        Session { id: SessionId(row.id), status, name: row.name }
    }

    /// Reads a session from its row at the present time.
    pub fn from(row: DbSession) -> (r: Session)
        requires
            row.wf(),
        ensures
            exists|now: Time| r == Session::spec_from_at(row, now),
    {
        let now = now_utc();
        Session::from_at(row, now)
    }
}

impl FromSpecImpl<SessionStatus> for DbSessionStatus {
    open spec fn obeys_from_spec() -> bool {
        true
    }

    open spec fn from_spec(value: SessionStatus) -> DbSessionStatus {
        match value {
            SessionStatus::Unauthorized => DbSessionStatus::Unauthorized,
            SessionStatus::Authorized { .. } => DbSessionStatus::Authorized,
            SessionStatus::Sudo { .. } => DbSessionStatus::Sudo,
        }
    }
}

impl From<SessionStatus> for DbSessionStatus {
    fn from(value: SessionStatus) -> (r: DbSessionStatus) {
        match value {
            SessionStatus::Unauthorized => DbSessionStatus::Unauthorized,
            SessionStatus::Authorized { .. } => DbSessionStatus::Authorized,
            SessionStatus::Sudo { .. } => DbSessionStatus::Sudo,
        }
    }
}

impl FromSpecImpl<RoomMembership> for DbMembership {
    open spec fn obeys_from_spec() -> bool {
        true
    }

    open spec fn from_spec(value: RoomMembership) -> DbMembership {
        match value {
            RoomMembership::Join { .. } => DbMembership::Join,
            RoomMembership::Ban => DbMembership::Ban,
            RoomMembership::Leave => DbMembership::Leave,
        }
    }
}

impl From<RoomMembership> for DbMembership {
    fn from(value: RoomMembership) -> (r: DbMembership) {
        match value {
            RoomMembership::Join { .. } => DbMembership::Join,
            RoomMembership::Ban => DbMembership::Ban,
            RoomMembership::Leave => DbMembership::Leave,
        }
    }
}

impl FromSpecImpl<ThreadMembership> for DbMembership {
    open spec fn obeys_from_spec() -> bool {
        true
    }

    open spec fn from_spec(value: ThreadMembership) -> DbMembership {
        match value {
            ThreadMembership::Join { .. } => DbMembership::Join,
            ThreadMembership::Ban => DbMembership::Ban,
            ThreadMembership::Leave => DbMembership::Leave,
        }
    }
}

impl From<ThreadMembership> for DbMembership {
    fn from(value: ThreadMembership) -> (r: DbMembership) {
        match value {
            ThreadMembership::Join { .. } => DbMembership::Join,
            ThreadMembership::Ban => DbMembership::Ban,
            ThreadMembership::Leave => DbMembership::Leave,
        }
    }
}

impl DbMessageCreate {
    /// The text of the message. A note of a thread's change reads
    /// "(thread update)".
    pub open spec fn spec_content(self) -> Option<Seq<char>> {
        match self.message_type {
            MessageType::DefaultMarkdown(msg) => match msg.content {
                Some(c) => Some(c@),
                None => None,
            },
            MessageType::DefaultTagged(msg) => match msg.content {
                Some(c) => Some(c@),
                None => None,
            },
            MessageType::ThreadUpdate(_) => Some("(thread update)"@),
            MessageType::Other => None,
        }
    }

    /// The text of the message.
    pub fn content(&self) -> (r: Option<String>)
        ensures
            match r {
                Some(c) => self.spec_content() == Some(c@),
                None => self.spec_content() is None,
            },
    {
        match &self.message_type {
            MessageType::DefaultMarkdown(msg) => match &msg.content {
                Some(c) => Some(c.clone()),
                None => None,
            },
            MessageType::DefaultTagged(msg) => match &msg.content {
                Some(c) => Some(c.clone()),
                None => None,
            },
            MessageType::ThreadUpdate(_patch) => Some("(thread update)".to_owned()),
            MessageType::Other => None,
        }
    }

    /// The data that travels with the message: the author's for a markdown
    /// message, the change itself for a note of a thread's change.
    pub open spec fn spec_metadata(self) -> Option<String> {
        match self.message_type {
            MessageType::DefaultMarkdown(msg) => msg.metadata,
            MessageType::ThreadUpdate(patch) => Some(patch),
            _ => None,
        }
    }

    /// The data that travels with the message, as JSON text.
    pub fn metadata(&self) -> (r: Option<String>)
        ensures
            r == self.spec_metadata(),
    {
        match &self.message_type {
            MessageType::DefaultMarkdown(msg) => match &msg.metadata {
                Some(m) => Some(m.clone()),
                None => None,
            },
            MessageType::ThreadUpdate(patch) => Some(patch.clone()),
            _ => None,
        }
    }

    /// The message that this one answers.
    pub open spec fn spec_reply_id(self) -> Option<MessageId> {
        match self.message_type {
            MessageType::DefaultMarkdown(msg) => msg.reply_id,
            MessageType::DefaultTagged(msg) => msg.reply_id,
            _ => None,
        }
    }

    /// The message that this one answers.
    pub fn reply_id(&self) -> (r: Option<MessageId>)
        ensures
            r == self.spec_reply_id(),
    {
        match &self.message_type {
            MessageType::DefaultMarkdown(msg) => msg.reply_id,
            MessageType::DefaultTagged(msg) => msg.reply_id,
            _ => None,
        }
    }

    /// The name that the author goes by in this message.
    pub open spec fn spec_override_name(self) -> Option<String> {
        match self.message_type {
            MessageType::DefaultMarkdown(msg) => msg.override_name,
            _ => None,
        }
    }

    /// The name that the author goes by in this message.
    pub fn override_name(&self) -> (r: Option<String>)
        ensures
            r == self.spec_override_name(),
    {
        match &self.message_type {
            MessageType::DefaultMarkdown(msg) => match &msg.override_name {
                Some(n) => Some(n.clone()),
                None => None,
            },
            _ => None,
        }
    }
}

/// A capability as stored.
#[derive(Clone, Copy, Debug, PartialEq, Eq, Structural, Hash)]
pub enum DbPermission {
    Admin,
    BotsAdd,
    BotsManage,
    EmojiAdd,
    EmojiManage,
    EmojiUseExternal,
    InviteCreate,
    InviteManage,
    MemberBan,
    MemberBanManage,
    MemberBridge,
    MemberKick,
    MemberManage,
    MessageCreate,
    MessageDelete,
    MessageEdit,
    MessageEmbeds,
    MessageMassMention,
    MessageAttachments,
    MessageMove,
    MessagePin,
    ReactionAdd,
    ReactionClear,
    ProfileAvatar,
    ProfileOverride,
    RoleApply,
    RoleManage,
    RoomManage,
    ServerAdmin,
    ServerMetrics,
    ServerOversee,
    ServerReports,
    TagApply,
    TagManage,
    ThreadArchive,
    ThreadCreateChat,
    ThreadCreateDocument,
    ThreadCreateEvent,
    ThreadCreateForumLinear,
    ThreadCreateForumTree,
    ThreadCreateTable,
    ThreadCreateVoice,
    ThreadCreatePublic,
    ThreadCreatePrivate,
    ThreadDelete,
    ThreadEdit,
    ThreadForward,
    ThreadLock,
    ThreadPin,
    ThreadPublish,
    UserDms,
    UserProfile,
    UserSessions,
    UserStatus,
    View,
    ViewAuditLog,
    VoiceConnect,
    VoiceDeafen,
    VoiceDisconnect,
    VoiceMove,
    VoiceMute,
    VoicePriority,
    VoiceSpeak,
    VoiceVideo,
}

/// The capability that a stored capability stands for: the one of the same
/// name.
pub open spec fn spec_permission(value: DbPermission) -> Permission {
    match value {
        DbPermission::Admin => Permission::Admin,
        DbPermission::BotsAdd => Permission::BotsAdd,
        DbPermission::BotsManage => Permission::BotsManage,
        DbPermission::EmojiAdd => Permission::EmojiAdd,
        DbPermission::EmojiManage => Permission::EmojiManage,
        DbPermission::EmojiUseExternal => Permission::EmojiUseExternal,
        DbPermission::InviteCreate => Permission::InviteCreate,
        DbPermission::InviteManage => Permission::InviteManage,
        DbPermission::MemberBan => Permission::MemberBan,
        DbPermission::MemberBanManage => Permission::MemberBanManage,
        DbPermission::MemberBridge => Permission::MemberBridge,
        DbPermission::MemberKick => Permission::MemberKick,
        DbPermission::MemberManage => Permission::MemberManage,
        DbPermission::MessageCreate => Permission::MessageCreate,
        DbPermission::MessageDelete => Permission::MessageDelete,
        DbPermission::MessageEdit => Permission::MessageEdit,
        DbPermission::MessageEmbeds => Permission::MessageEmbeds,
        DbPermission::MessageMassMention => Permission::MessageMassMention,
        DbPermission::MessageAttachments => Permission::MessageAttachments,
        DbPermission::MessageMove => Permission::MessageMove,
        DbPermission::MessagePin => Permission::MessagePin,
        DbPermission::ReactionAdd => Permission::ReactionAdd,
        DbPermission::ReactionClear => Permission::ReactionClear,
        DbPermission::ProfileAvatar => Permission::ProfileAvatar,
        DbPermission::ProfileOverride => Permission::ProfileOverride,
        DbPermission::RoleApply => Permission::RoleApply,
        DbPermission::RoleManage => Permission::RoleManage,
        DbPermission::RoomManage => Permission::RoomManage,
        DbPermission::ServerAdmin => Permission::ServerAdmin,
        DbPermission::ServerMetrics => Permission::ServerMetrics,
        DbPermission::ServerOversee => Permission::ServerOversee,
        DbPermission::ServerReports => Permission::ServerReports,
        DbPermission::TagApply => Permission::TagApply,
        DbPermission::TagManage => Permission::TagManage,
        DbPermission::ThreadArchive => Permission::ThreadArchive,
        DbPermission::ThreadCreateChat => Permission::ThreadCreateChat,
        DbPermission::ThreadCreateDocument => Permission::ThreadCreateDocument,
        DbPermission::ThreadCreateEvent => Permission::ThreadCreateEvent,
        DbPermission::ThreadCreateForumLinear => Permission::ThreadCreateForumLinear,
        DbPermission::ThreadCreateForumTree => Permission::ThreadCreateForumTree,
        DbPermission::ThreadCreateTable => Permission::ThreadCreateTable,
        DbPermission::ThreadCreateVoice => Permission::ThreadCreateVoice,
        DbPermission::ThreadCreatePublic => Permission::ThreadCreatePublic,
        DbPermission::ThreadCreatePrivate => Permission::ThreadCreatePrivate,
        DbPermission::ThreadDelete => Permission::ThreadDelete,
        DbPermission::ThreadEdit => Permission::ThreadEdit,
        DbPermission::ThreadForward => Permission::ThreadForward,
        DbPermission::ThreadLock => Permission::ThreadLock,
        DbPermission::ThreadPin => Permission::ThreadPin,
        DbPermission::ThreadPublish => Permission::ThreadPublish,
        DbPermission::UserDms => Permission::UserDms,
        DbPermission::UserProfile => Permission::UserProfile,
        DbPermission::UserSessions => Permission::UserSessions,
        DbPermission::UserStatus => Permission::UserStatus,
        DbPermission::View => Permission::View,
        DbPermission::ViewAuditLog => Permission::ViewAuditLog,
        DbPermission::VoiceConnect => Permission::VoiceConnect,
        DbPermission::VoiceDeafen => Permission::VoiceDeafen,
        DbPermission::VoiceDisconnect => Permission::VoiceDisconnect,
        DbPermission::VoiceMove => Permission::VoiceMove,
        DbPermission::VoiceMute => Permission::VoiceMute,
        DbPermission::VoicePriority => Permission::VoicePriority,
        DbPermission::VoiceSpeak => Permission::VoiceSpeak,
        DbPermission::VoiceVideo => Permission::VoiceVideo,

    }
}

impl FromSpecImpl<DbPermission> for Permission {
    open spec fn obeys_from_spec() -> bool {
        true
    }

    open spec fn from_spec(value: DbPermission) -> Permission {
        spec_permission(value)
    }
}

impl From<DbPermission> for Permission {
    fn from(value: DbPermission) -> (r: Permission) {
        match value {
            DbPermission::Admin => Permission::Admin,
            DbPermission::BotsAdd => Permission::BotsAdd,
            DbPermission::BotsManage => Permission::BotsManage,
            DbPermission::EmojiAdd => Permission::EmojiAdd,
            DbPermission::EmojiManage => Permission::EmojiManage,
            DbPermission::EmojiUseExternal => Permission::EmojiUseExternal,
            DbPermission::InviteCreate => Permission::InviteCreate,
            DbPermission::InviteManage => Permission::InviteManage,
            DbPermission::MemberBan => Permission::MemberBan,
            DbPermission::MemberBanManage => Permission::MemberBanManage,
            DbPermission::MemberBridge => Permission::MemberBridge,
            DbPermission::MemberKick => Permission::MemberKick,
            DbPermission::MemberManage => Permission::MemberManage,
            DbPermission::MessageCreate => Permission::MessageCreate,
            DbPermission::MessageDelete => Permission::MessageDelete,
            DbPermission::MessageEdit => Permission::MessageEdit,
            DbPermission::MessageEmbeds => Permission::MessageEmbeds,
            DbPermission::MessageMassMention => Permission::MessageMassMention,
            DbPermission::MessageAttachments => Permission::MessageAttachments,
            DbPermission::MessageMove => Permission::MessageMove,
            DbPermission::MessagePin => Permission::MessagePin,
            DbPermission::ReactionAdd => Permission::ReactionAdd,
            DbPermission::ReactionClear => Permission::ReactionClear,
            DbPermission::ProfileAvatar => Permission::ProfileAvatar,
            DbPermission::ProfileOverride => Permission::ProfileOverride,
            DbPermission::RoleApply => Permission::RoleApply,
            DbPermission::RoleManage => Permission::RoleManage,
            DbPermission::RoomManage => Permission::RoomManage,
            DbPermission::ServerAdmin => Permission::ServerAdmin,
            DbPermission::ServerMetrics => Permission::ServerMetrics,
            DbPermission::ServerOversee => Permission::ServerOversee,
            DbPermission::ServerReports => Permission::ServerReports,
            DbPermission::TagApply => Permission::TagApply,
            DbPermission::TagManage => Permission::TagManage,
            DbPermission::ThreadArchive => Permission::ThreadArchive,
            DbPermission::ThreadCreateChat => Permission::ThreadCreateChat,
            DbPermission::ThreadCreateDocument => Permission::ThreadCreateDocument,
            DbPermission::ThreadCreateEvent => Permission::ThreadCreateEvent,
            DbPermission::ThreadCreateForumLinear => Permission::ThreadCreateForumLinear,
            DbPermission::ThreadCreateForumTree => Permission::ThreadCreateForumTree,
            DbPermission::ThreadCreateTable => Permission::ThreadCreateTable,
            DbPermission::ThreadCreateVoice => Permission::ThreadCreateVoice,
            DbPermission::ThreadCreatePublic => Permission::ThreadCreatePublic,
            DbPermission::ThreadCreatePrivate => Permission::ThreadCreatePrivate,
            DbPermission::ThreadDelete => Permission::ThreadDelete,
            DbPermission::ThreadEdit => Permission::ThreadEdit,
            DbPermission::ThreadForward => Permission::ThreadForward,
            DbPermission::ThreadLock => Permission::ThreadLock,
            DbPermission::ThreadPin => Permission::ThreadPin,
            DbPermission::ThreadPublish => Permission::ThreadPublish,
            DbPermission::UserDms => Permission::UserDms,
            DbPermission::UserProfile => Permission::UserProfile,
            DbPermission::UserSessions => Permission::UserSessions,
            DbPermission::UserStatus => Permission::UserStatus,
            DbPermission::View => Permission::View,
            DbPermission::ViewAuditLog => Permission::ViewAuditLog,
            DbPermission::VoiceConnect => Permission::VoiceConnect,
            DbPermission::VoiceDeafen => Permission::VoiceDeafen,
            DbPermission::VoiceDisconnect => Permission::VoiceDisconnect,
            DbPermission::VoiceMove => Permission::VoiceMove,
            DbPermission::VoiceMute => Permission::VoiceMute,
            DbPermission::VoicePriority => Permission::VoicePriority,
            DbPermission::VoiceSpeak => Permission::VoiceSpeak,
            DbPermission::VoiceVideo => Permission::VoiceVideo,

        }
    }
}

/// The stored form of a capability: the one of the same name.
pub open spec fn spec_db_permission(value: Permission) -> DbPermission {
    match value {
        Permission::Admin => DbPermission::Admin,
        Permission::BotsAdd => DbPermission::BotsAdd,
        Permission::BotsManage => DbPermission::BotsManage,
        Permission::EmojiAdd => DbPermission::EmojiAdd,
        Permission::EmojiManage => DbPermission::EmojiManage,
        Permission::EmojiUseExternal => DbPermission::EmojiUseExternal,
        Permission::InviteCreate => DbPermission::InviteCreate,
        Permission::InviteManage => DbPermission::InviteManage,
        Permission::MemberBan => DbPermission::MemberBan,
        Permission::MemberBanManage => DbPermission::MemberBanManage,
        Permission::MemberBridge => DbPermission::MemberBridge,
        Permission::MemberKick => DbPermission::MemberKick,
        Permission::MemberManage => DbPermission::MemberManage,
        Permission::MessageCreate => DbPermission::MessageCreate,
        Permission::MessageDelete => DbPermission::MessageDelete,
        Permission::MessageEdit => DbPermission::MessageEdit,
        Permission::MessageEmbeds => DbPermission::MessageEmbeds,
        Permission::MessageMassMention => DbPermission::MessageMassMention,
        Permission::MessageAttachments => DbPermission::MessageAttachments,
        Permission::MessageMove => DbPermission::MessageMove,
        Permission::MessagePin => DbPermission::MessagePin,
        Permission::ReactionAdd => DbPermission::ReactionAdd,
        Permission::ReactionClear => DbPermission::ReactionClear,
        Permission::ProfileAvatar => DbPermission::ProfileAvatar,
        Permission::ProfileOverride => DbPermission::ProfileOverride,
        Permission::RoleApply => DbPermission::RoleApply,
        Permission::RoleManage => DbPermission::RoleManage,
        Permission::RoomManage => DbPermission::RoomManage,
        Permission::ServerAdmin => DbPermission::ServerAdmin,
        Permission::ServerMetrics => DbPermission::ServerMetrics,
        Permission::ServerOversee => DbPermission::ServerOversee,
        Permission::ServerReports => DbPermission::ServerReports,
        Permission::TagApply => DbPermission::TagApply,
        Permission::TagManage => DbPermission::TagManage,
        Permission::ThreadArchive => DbPermission::ThreadArchive,
        Permission::ThreadCreateChat => DbPermission::ThreadCreateChat,
        Permission::ThreadCreateDocument => DbPermission::ThreadCreateDocument,
        Permission::ThreadCreateEvent => DbPermission::ThreadCreateEvent,
        Permission::ThreadCreateForumLinear => DbPermission::ThreadCreateForumLinear,
        Permission::ThreadCreateForumTree => DbPermission::ThreadCreateForumTree,
        Permission::ThreadCreateTable => DbPermission::ThreadCreateTable,
        Permission::ThreadCreateVoice => DbPermission::ThreadCreateVoice,
        Permission::ThreadCreatePublic => DbPermission::ThreadCreatePublic,
        Permission::ThreadCreatePrivate => DbPermission::ThreadCreatePrivate,
        Permission::ThreadDelete => DbPermission::ThreadDelete,
        Permission::ThreadEdit => DbPermission::ThreadEdit,
        Permission::ThreadForward => DbPermission::ThreadForward,
        Permission::ThreadLock => DbPermission::ThreadLock,
        Permission::ThreadPin => DbPermission::ThreadPin,
        Permission::ThreadPublish => DbPermission::ThreadPublish,
        Permission::UserDms => DbPermission::UserDms,
        Permission::UserProfile => DbPermission::UserProfile,
        Permission::UserSessions => DbPermission::UserSessions,
        Permission::UserStatus => DbPermission::UserStatus,
        Permission::View => DbPermission::View,
        Permission::ViewAuditLog => DbPermission::ViewAuditLog,
        Permission::VoiceConnect => DbPermission::VoiceConnect,
        Permission::VoiceDeafen => DbPermission::VoiceDeafen,
        Permission::VoiceDisconnect => DbPermission::VoiceDisconnect,
        Permission::VoiceMove => DbPermission::VoiceMove,
        Permission::VoiceMute => DbPermission::VoiceMute,
        Permission::VoicePriority => DbPermission::VoicePriority,
        Permission::VoiceSpeak => DbPermission::VoiceSpeak,
        Permission::VoiceVideo => DbPermission::VoiceVideo,

    }
}

impl FromSpecImpl<Permission> for DbPermission {
    open spec fn obeys_from_spec() -> bool {
        true
    }

    open spec fn from_spec(value: Permission) -> DbPermission {
        spec_db_permission(value)
    }
}

impl From<Permission> for DbPermission {
    fn from(value: Permission) -> (r: DbPermission) {
        match value {
            Permission::Admin => DbPermission::Admin,
            Permission::BotsAdd => DbPermission::BotsAdd,
            Permission::BotsManage => DbPermission::BotsManage,
            Permission::EmojiAdd => DbPermission::EmojiAdd,
            Permission::EmojiManage => DbPermission::EmojiManage,
            Permission::EmojiUseExternal => DbPermission::EmojiUseExternal,
            Permission::InviteCreate => DbPermission::InviteCreate,
            Permission::InviteManage => DbPermission::InviteManage,
            Permission::MemberBan => DbPermission::MemberBan,
            Permission::MemberBanManage => DbPermission::MemberBanManage,
            Permission::MemberBridge => DbPermission::MemberBridge,
            Permission::MemberKick => DbPermission::MemberKick,
            Permission::MemberManage => DbPermission::MemberManage,
            Permission::MessageCreate => DbPermission::MessageCreate,
            Permission::MessageDelete => DbPermission::MessageDelete,
            Permission::MessageEdit => DbPermission::MessageEdit,
            Permission::MessageEmbeds => DbPermission::MessageEmbeds,
            Permission::MessageMassMention => DbPermission::MessageMassMention,
            Permission::MessageAttachments => DbPermission::MessageAttachments,
            Permission::MessageMove => DbPermission::MessageMove,
            Permission::MessagePin => DbPermission::MessagePin,
            Permission::ReactionAdd => DbPermission::ReactionAdd,
            Permission::ReactionClear => DbPermission::ReactionClear,
            Permission::ProfileAvatar => DbPermission::ProfileAvatar,
            Permission::ProfileOverride => DbPermission::ProfileOverride,
            Permission::RoleApply => DbPermission::RoleApply,
            Permission::RoleManage => DbPermission::RoleManage,
            Permission::RoomManage => DbPermission::RoomManage,
            Permission::ServerAdmin => DbPermission::ServerAdmin,
            Permission::ServerMetrics => DbPermission::ServerMetrics,
            Permission::ServerOversee => DbPermission::ServerOversee,
            Permission::ServerReports => DbPermission::ServerReports,
            Permission::TagApply => DbPermission::TagApply,
            Permission::TagManage => DbPermission::TagManage,
            Permission::ThreadArchive => DbPermission::ThreadArchive,
            Permission::ThreadCreateChat => DbPermission::ThreadCreateChat,
            Permission::ThreadCreateDocument => DbPermission::ThreadCreateDocument,
            Permission::ThreadCreateEvent => DbPermission::ThreadCreateEvent,
            Permission::ThreadCreateForumLinear => DbPermission::ThreadCreateForumLinear,
            Permission::ThreadCreateForumTree => DbPermission::ThreadCreateForumTree,
            Permission::ThreadCreateTable => DbPermission::ThreadCreateTable,
            Permission::ThreadCreateVoice => DbPermission::ThreadCreateVoice,
            Permission::ThreadCreatePublic => DbPermission::ThreadCreatePublic,
            Permission::ThreadCreatePrivate => DbPermission::ThreadCreatePrivate,
            Permission::ThreadDelete => DbPermission::ThreadDelete,
            Permission::ThreadEdit => DbPermission::ThreadEdit,
            Permission::ThreadForward => DbPermission::ThreadForward,
            Permission::ThreadLock => DbPermission::ThreadLock,
            Permission::ThreadPin => DbPermission::ThreadPin,
            Permission::ThreadPublish => DbPermission::ThreadPublish,
            Permission::UserDms => DbPermission::UserDms,
            Permission::UserProfile => DbPermission::UserProfile,
            Permission::UserSessions => DbPermission::UserSessions,
            Permission::UserStatus => DbPermission::UserStatus,
            Permission::View => DbPermission::View,
            Permission::ViewAuditLog => DbPermission::ViewAuditLog,
            Permission::VoiceConnect => DbPermission::VoiceConnect,
            Permission::VoiceDeafen => DbPermission::VoiceDeafen,
            Permission::VoiceDisconnect => DbPermission::VoiceDisconnect,
            Permission::VoiceMove => DbPermission::VoiceMove,
            Permission::VoiceMute => DbPermission::VoiceMute,
            Permission::VoicePriority => DbPermission::VoicePriority,
            Permission::VoiceSpeak => DbPermission::VoiceSpeak,
            Permission::VoiceVideo => DbPermission::VoiceVideo,

        }
    }
}

/// A capability stored and read back is the same capability, and so is a
/// stored capability read and stored again.
pub proof fn lemma_permission_round_trip(p: Permission, d: DbPermission)
    ensures
        spec_permission(spec_db_permission(p)) == p,
        spec_db_permission(spec_permission(d)) == d,
{
}

impl Role {
    /// Whether this is the role that `row` stands for: each stored
    /// capability has become the capability of the same name, in the stored
    /// order, and everything else is as stored.
    pub open spec fn spec_is_from(self, row: DbRole) -> bool {
        &&& self.id == row.id
        &&& self.version_id == row.version_id
        &&& self.room_id == row.room_id
        &&& self.name == row.name
        &&& self.description == row.description
        &&& self.permissions@ == row.permissions@.map_values(
            |d: DbPermission| spec_permission(d),
        )
        &&& self.is_self_applicable == row.is_self_applicable
        &&& self.is_mentionable == row.is_mentionable
        &&& self.is_default == row.is_default
    }

    /// Reads a role from its row.
    pub fn from(row: DbRole) -> (r: Role)
        ensures
            r.spec_is_from(row),
    {
        let mut permissions: Vec<Permission> = Vec::new();
        let mut i: usize = 0;
        while i < row.permissions.len()
            invariant
                i <= row.permissions.len(),
                permissions@ == row.permissions@.take(i as int).map_values(
                    |d: DbPermission| spec_permission(d),
                ),
            decreases row.permissions.len() - i,
        {
            permissions.push(Permission::from(row.permissions[i]));
            proof {
                assert(permissions@ =~= row.permissions@.take(i + 1).map_values(
                    |d: DbPermission| spec_permission(d),
                ));
            }
            i += 1;
        }
        proof {
            assert(row.permissions@.take(row.permissions.len() as int) =~= row.permissions@);
        }
        Role {
            id: row.id,
            version_id: row.version_id,
            room_id: row.room_id,
            name: row.name,
            description: row.description,
            permissions,
            is_self_applicable: row.is_self_applicable,
            is_mentionable: row.is_mentionable,
            is_default: row.is_default,
        }
    }
}

} // verus!
