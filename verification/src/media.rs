//! Media, messages and the other records that events are built from.

use crate::ids::{MediaId, MessageId, RoomId, ThreadId, Time, UserId};
use crate::types::PermissionOverwrite;
use vstd::prelude::*;

verus! {

/// One rendition of a media item.
#[derive(Debug, PartialEq, Eq, Hash)]
pub struct MediaTrack {
    /// Where the rendition is fetched from.
    pub url: String,
}

/// A stored media item.
#[derive(Debug, PartialEq, Eq, Hash)]
pub struct Media {
    pub id: MediaId,
    /// Every rendition of the item, the source first.
    pub tracks: Vec<MediaTrack>,
}

/// A preview of a link in a message.
#[derive(Debug, PartialEq, Eq, Hash)]
pub struct Embed {
    pub url: Option<String>,
    pub media: Option<Media>,
    pub author_avatar: Option<Media>,
    pub site_avatar: Option<Media>,
}

/// A message of the ordinary kind, written in markdown.
#[derive(Debug, PartialEq, Eq, Hash)]
pub struct MessageDefaultMarkdown {
    pub content: Option<String>,
    pub attachments: Vec<Media>,
    /// Free-form data of the author, as JSON text.
    pub metadata: Option<String>,
    pub reply_id: Option<MessageId>,
    pub override_name: Option<String>,
    pub embeds: Vec<Embed>,
}

/// A message whose content is tagged text.
#[derive(Debug, PartialEq, Eq, Hash)]
pub struct MessageDefaultTagged {
    pub content: Option<String>,
    pub attachments: Vec<Media>,
    pub reply_id: Option<MessageId>,
    pub embeds: Vec<Embed>,
}

/// What a message is.
#[derive(Debug, PartialEq, Eq, Hash)]
pub enum MessageType {
    DefaultMarkdown(MessageDefaultMarkdown),
    DefaultTagged(MessageDefaultTagged),
    /// A note that the thread was changed; it carries the change as JSON
    /// text.
    ThreadUpdate(String),
    /// Any other kind. It has no content, reply or name of its own.
    Other,
}

/// A message as a recipient reads it.
#[derive(Debug, PartialEq, Eq, Hash)]
pub struct Message {
    pub id: MessageId,
    pub thread_id: ThreadId,
    pub version_id: u128,
    pub author_id: UserId,
    pub message_type: MessageType,
}

/// What kind of room a room is.
#[derive(Clone, Copy, Debug, PartialEq, Eq, Hash)]
pub enum RoomType {
    Default,
    /// A conversation between two users.
    Dm { participants: (UserId, UserId) },
}

/// A room.
#[derive(Debug, PartialEq, Eq, Hash)]
pub struct Room {
    pub id: RoomId,
    pub version_id: u128,
    pub name: String,
    pub description: Option<String>,
    pub icon: Option<MediaId>,
    pub room_type: RoomType,
    pub member_count: u64,
    pub online_count: u64,
    pub thread_count: u64,
    pub archived_at: Option<Time>,
}

/// What everybody sees of a chat thread.
#[derive(Clone, Copy, Debug, PartialEq, Eq, Structural, Hash)]
pub struct ThreadTypeChatPublic {
    pub last_version_id: u128,
    pub message_count: u64,
}

/// What everybody sees of a forum thread.
#[derive(Clone, Copy, Debug, PartialEq, Eq, Structural, Hash)]
pub struct ThreadTypeForumPublic {
    pub last_version_id: u128,
    pub message_count: u64,
    pub root_message_count: u64,
}

/// What everybody sees of a voice thread.
#[derive(Clone, Copy, Debug, PartialEq, Eq, Structural, Hash)]
pub struct ThreadTypeVoicePublic {
    pub bitrate: u64,
    pub user_limit: u64,
}

/// The part of a thread that is the same for every viewer.
#[derive(Clone, Copy, Debug, PartialEq, Eq, Structural, Hash)]
pub enum ThreadPublic {
    Chat(ThreadTypeChatPublic),
    Forum(ThreadTypeForumPublic),
    Voice(ThreadTypeVoicePublic),
}

/// What one viewer sees of a chat or forum thread.
#[derive(Clone, Copy, Debug, PartialEq, Eq, Structural, Hash)]
pub struct ThreadTypeChatPrivate {
    pub is_unread: bool,
    pub last_read_id: Option<MessageId>,
    pub mention_count: u64,
}

/// What one viewer sees of a voice thread.
#[derive(Clone, Copy, Debug, PartialEq, Eq, Structural, Hash)]
pub struct ThreadTypeVoicePrivate {}

/// The part of a thread that differs from viewer to viewer.
#[derive(Clone, Copy, Debug, PartialEq, Eq, Structural, Hash)]
pub enum ThreadPrivate {
    Chat(ThreadTypeChatPrivate),
    Forum(ThreadTypeChatPrivate),
    Voice(ThreadTypeVoicePrivate),
}

/// A thread.
#[derive(Debug, PartialEq, Eq, Hash)]
pub struct Thread {
    pub id: ThreadId,
    pub room_id: Option<RoomId>,
    pub creator_id: UserId,
    pub version_id: u128,
    pub name: String,
    pub description: Option<String>,
    pub info: ThreadPublic,
    pub private: Option<ThreadPrivate>,
    pub member_count: u64,
    pub online_count: u64,
    pub tags: Vec<u128>,
    pub is_locked: bool,
    pub is_announcement: bool,
    pub permission_overwrites: Vec<PermissionOverwrite>,
    pub archived_at: Option<Time>,
    pub deleted_at: Option<Time>,
}

/// Who may add a bot.
#[derive(Clone, Copy, Debug, PartialEq, Eq, Structural, Hash)]
pub enum BotAccess {
    Private,
    Public,
}

/// What makes a user a bot.
#[derive(Clone, Copy, Debug, PartialEq, Eq, Structural, Hash)]
pub struct Bot {
    pub owner_id: UserId,
    pub access: BotAccess,
    pub is_bridge: bool,
}

/// The platform that a puppet stands for a user of.
#[derive(Clone, Copy, Debug, PartialEq, Eq, Structural, Hash)]
pub enum ExternalPlatform {
    Discord,
}

/// What makes a user a puppet: the stand-in of a user of another platform.
#[derive(Debug, PartialEq, Eq, Hash)]
pub struct Puppet {
    pub owner_id: UserId,
    pub external_platform: ExternalPlatform,
    pub external_id: String,
    pub external_url: Option<String>,
    pub alias_id: Option<UserId>,
}

} // verus!
