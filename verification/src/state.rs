//! What the server knows from its settings: where events are recorded before
//! they are published, and the addresses under which media is stored and
//! served.

use crate::config::Config;
use crate::error::Error;
use crate::ids::{RoomId, Time};
use crate::media::{Embed, Media, MediaTrack, Message, MessageType};
use vstd::prelude::*;
use vstd::string::StrSliceExecFns;

verus! {

/// The most characters of a bucket's name or of a path that an address is
/// built from. It keeps every address far below the four gigabytes that the
/// `url` crate can hold.
pub const MAX_URL_PART: usize = 0x0100_0000;

/// For how long a newly signed address is valid: 24 hours, in nanoseconds.
pub const PRESIGNED_URL_LIFETIME: i128 = 86_400_000_000_000;

/// For how long an address that the server hands out is valid at least:
/// 8 hours, in nanoseconds.
pub const PRESIGNED_URL_MIN_LIFETIME: i128 = 28_800_000_000_000;

/// Whether an address that was signed at `signed_at` may still be handed out
/// at `now`: it stays valid for at least eight more hours.
pub open spec fn spec_presigned_fresh(signed_at: Time, now: Time) -> bool {
    signed_at.0 + PRESIGNED_URL_LIFETIME - now.0 >= PRESIGNED_URL_MIN_LIFETIME
}

/// Whether an address that was signed at `signed_at` may still be handed out
/// at `now`. One that may not is signed anew.
pub fn presigned_fresh(signed_at: Time, now: Time) -> (r: bool)
    ensures
        r == spec_presigned_fresh(signed_at, now),
{
    let margin: i128 = PRESIGNED_URL_LIFETIME - PRESIGNED_URL_MIN_LIFETIME;
    match signed_at.0.checked_add(margin) {
        Some(until) => until >= now.0,
        None => true,
    }
}

/// The error of the `url` crate.
#[verifier::external_type_specification]
#[verifier::external_body]
pub struct ExParseError(url::ParseError);

/// The path of the address `url` as `url::Url::path` gives it, or `None`
/// where `url::Url::parse` refuses `url`.
pub uninterp spec fn spec_url_path(url: Seq<char>) -> Option<Seq<char>>;

/// The address that `url::Url::join` makes of `input` against `base`, or
/// `None` where `base` or the joined address is refused.
pub uninterp spec fn spec_url_join(base: Seq<char>, input: Seq<char>) -> Option<Seq<char>>;

/// The address `url` after `url::Url::set_host` has given it the host
/// `host`, or `None` where `url` or the host is refused.
pub uninterp spec fn spec_url_set_host(url: Seq<char>, host: Seq<char>) -> Option<Seq<char>>;

/// The address `url` after `url::Url::set_path` has given it the path
/// `path`, or `None` where `url` is refused.
pub uninterp spec fn spec_url_set_path(url: Seq<char>, path: Seq<char>) -> Option<Seq<char>>;

/// Parses `url` with `url::Url::parse` and reads its path with
/// `url::Url::path`. The result depends on `url` alone.
#[verifier::external_body]
fn url_path(url: &str) -> (r: Result<String, url::ParseError>)
    ensures
        match r {
            Ok(p) => spec_url_path(url@) == Some(p@),
            Err(_) => spec_url_path(url@) is None,
        },
{
    let u = url::Url::parse(url)?;
    Ok(u.path().to_owned())
}

/// Parses `base` with `url::Url::parse` and resolves `input` against it with
/// `url::Url::join`. The result depends on the two strings alone.
#[verifier::external_body]
fn url_join(base: &str, input: &str) -> (r: Result<String, url::ParseError>)
    ensures
        match r {
            Ok(u) => spec_url_join(base@, input@) == Some(u@),
            Err(_) => spec_url_join(base@, input@) is None,
        },
{
    let b = url::Url::parse(base)?;
    let joined = b.join(input)?;
    Ok(String::from(joined))
}

/// Parses `url` with `url::Url::parse` and replaces its host with
/// `url::Url::set_host`. The result depends on the two strings alone. The
/// outside function panics where the address outgrows four gigabytes.
#[verifier::external_body]
fn url_set_host(url: &str, host: &str) -> (r: Result<String, url::ParseError>)
    requires
        url@.len() <= MAX_URL_PART,
        host@.len() <= MAX_URL_PART,
    ensures
        match r {
            Ok(u) => spec_url_set_host(url@, host@) == Some(u@),
            Err(_) => spec_url_set_host(url@, host@) is None,
        },
{
    let mut u = url::Url::parse(url)?;
    u.set_host(Some(host))?;
    Ok(String::from(u))
}

/// Parses `url` with `url::Url::parse` and replaces its path with
/// `url::Url::set_path`. The result depends on the two strings alone. The
/// outside function panics where the address outgrows four gigabytes.
#[verifier::external_body]
fn url_set_path(url: &str, path: &str) -> (r: Result<String, url::ParseError>)
    requires
        url@.len() <= 13 * MAX_URL_PART,
        path@.len() <= MAX_URL_PART,
    ensures
        match r {
            Ok(u) => spec_url_set_path(url@, path@) == Some(u@),
            Err(_) => spec_url_set_path(url@, path@) is None,
        },
{
    let mut u = url::Url::parse(url)?;
    u.set_path(path);
    Ok(String::from(u))
}

/// The address under which the object `path` of the bucket `bucket` is
/// stored: the address `s3://` with the bucket as its host and `path` as its
/// path. There is none where the bucket is refused as a host, or where the
/// address with the host alone is already longer than 13 times
/// `MAX_URL_PART`.
pub open spec fn spec_s3_url(bucket: Seq<char>, path: Seq<char>) -> Option<Seq<char>> {
    match spec_url_set_host("s3://"@, bucket) {
        Some(with_host) => if with_host.len() <= 13 * MAX_URL_PART {
            spec_url_set_path(with_host, path)
        } else {
            None
        },
        None => None,
    }
}

/// The address under which the media at `url` is served from `cdn`: the path
/// of `url`, resolved against `cdn`. The path is kept; scheme and host are
/// those of `cdn`.
pub open spec fn spec_rebased(cdn: Seq<char>, url: Seq<char>) -> Option<Seq<char>> {
    match spec_url_path(url) {
        Some(path) => spec_url_join(cdn, path),
        None => None,
    }
}

/// Whether every track of `media` can be served from `cdn`.
pub open spec fn spec_servable(cdn: Seq<char>, media: Media) -> bool {
    forall|i: int|
        0 <= i < media.tracks@.len() ==> spec_rebased(cdn, (#[trigger] media.tracks@[i]).url@)
            is Some
}

/// Whether `after` is `before` served from `cdn`: the same item, each track
/// under its address at `cdn`.
pub open spec fn spec_presigned(cdn: Seq<char>, before: Media, after: Media) -> bool {
    &&& after.id == before.id
    &&& after.tracks@.len() == before.tracks@.len()
    &&& forall|i: int|
        0 <= i < before.tracks@.len() ==> Some((#[trigger] after.tracks@[i]).url@) == spec_rebased(
            cdn,
            before.tracks@[i].url@,
        )
}

/// Whether every item of `list` can be served from `cdn`.
pub open spec fn spec_all_servable(cdn: Seq<char>, list: Seq<Media>) -> bool {
    forall|i: int| 0 <= i < list.len() ==> spec_servable(cdn, #[trigger] list[i])
}

/// Whether `after` is the list `before` served from `cdn`, item by item.
pub open spec fn spec_all_presigned(cdn: Seq<char>, before: Seq<Media>, after: Seq<Media>) -> bool {
    &&& after.len() == before.len()
    &&& forall|i: int|
        0 <= i < before.len() ==> spec_presigned(cdn, #[trigger] before[i], after[i])
}

/// Whether `media`, if there is any, can be served from `cdn`.
pub open spec fn spec_opt_servable(cdn: Seq<char>, media: Option<Media>) -> bool {
    media matches Some(m) ==> spec_servable(cdn, m)
}

/// Whether `after` is `before` served from `cdn`, or both are nothing.
pub open spec fn spec_opt_presigned(cdn: Seq<char>, before: Option<Media>, after: Option<Media>)
    -> bool {
    match (before, after) {
        (Some(b), Some(a)) => spec_presigned(cdn, b, a),
        (None, None) => true,
        _ => false,
    }
}

/// Whether all media of an embed can be served from `cdn`.
pub open spec fn spec_embed_servable(cdn: Seq<char>, embed: Embed) -> bool {
    &&& spec_opt_servable(cdn, embed.media)
    &&& spec_opt_servable(cdn, embed.author_avatar)
    &&& spec_opt_servable(cdn, embed.site_avatar)
}

/// Whether `after` is the embed `before` with all its media served from
/// `cdn`.
pub open spec fn spec_embed_presigned(cdn: Seq<char>, before: Embed, after: Embed) -> bool {
    &&& after.url == before.url
    &&& spec_opt_presigned(cdn, before.media, after.media)
    &&& spec_opt_presigned(cdn, before.author_avatar, after.author_avatar)
    &&& spec_opt_presigned(cdn, before.site_avatar, after.site_avatar)
}

/// Whether all media of a message can be served from `cdn`. Only a markdown
/// message has media to serve.
pub open spec fn spec_message_servable(cdn: Seq<char>, message: Message) -> bool {
    match message.message_type {
        MessageType::DefaultMarkdown(m) => {
            &&& spec_all_servable(cdn, m.attachments@)
            &&& forall|i: int|
                0 <= i < m.embeds@.len() ==> spec_embed_servable(cdn, #[trigger] m.embeds@[i])
        },
        _ => true,
    }
}

/// Whether `after` is the message `before` with all its media served from
/// `cdn`: a markdown message with its attachments and the media of its
/// embeds under their addresses at `cdn` and nothing else changed, any other
/// message unchanged.
pub open spec fn spec_message_presigned(cdn: Seq<char>, before: Message, after: Message) -> bool {
    &&& after.id == before.id
    &&& after.thread_id == before.thread_id
    &&& after.version_id == before.version_id
    &&& after.author_id == before.author_id
    &&& match (before.message_type, after.message_type) {
        (MessageType::DefaultMarkdown(b), MessageType::DefaultMarkdown(a)) => {
            &&& a.content == b.content
            &&& a.metadata == b.metadata
            &&& a.reply_id == b.reply_id
            &&& a.override_name == b.override_name
            &&& spec_all_presigned(cdn, b.attachments@, a.attachments@)
            &&& a.embeds@.len() == b.embeds@.len()
            &&& forall|i: int|
                0 <= i < b.embeds@.len() ==> spec_embed_presigned(
                    cdn,
                    #[trigger] b.embeds@[i],
                    a.embeds@[i],
                )
        },
        (MessageType::DefaultMarkdown(_), _) => false,
        (b, a) => a == b,
    }
}

/// What is to be done with an event that is to be published.
#[derive(Clone, Copy, Debug, PartialEq, Eq, Structural, Hash)]
pub struct Broadcast {
    /// The room whose audit log gets an entry before anything is sent.
    pub audit: Option<RoomId>,
    /// Whether the event is put on the bus.
    pub send: bool,
}

/// The part of the server's state that the core reads.
pub struct ServerStateInner {
    pub config: Config,
}

impl ServerStateInner {
    /// The settings.
    pub fn config(&self) -> (r: &Config)
        ensures
            *r == self.config,
    {
        &self.config
    }

    /// Decides how an event of a room is published: an event that calls for
    /// an audit is first recorded in the room's log; every event is sent.
    pub fn broadcast_room(&self, room_id: RoomId, loggable: bool) -> (r: Broadcast)
        ensures
            r == (Broadcast {
                audit: if loggable {
                    Some(room_id)
                } else {
                    None
                },
                send: true,
            }),
    {
        Broadcast {
            audit: if loggable {
                Some(room_id)
            } else {
                None
            },
            send: true,
        }
    }

    /// Decides how an event of a thread is published. An event that calls
    /// for an audit is published as an event of the thread's room, and not
    /// at all where the thread is in no room; any other event is sent.
    /// `room_id` is the room of the thread.
    pub fn broadcast_thread(&self, room_id: Option<RoomId>, loggable: bool) -> (r: Broadcast)
        ensures
            r == if loggable {
                match room_id {
                    Some(room_id) => Broadcast { audit: Some(room_id), send: true },
                    None => Broadcast { audit: None, send: false },
                }
            } else {
                Broadcast { audit: None, send: true }
            },
    {
        if loggable {
            match room_id {
                Some(room_id) => self.broadcast_room(room_id, true),
                None => Broadcast { audit: None, send: false },
            }
        } else {
            Broadcast { audit: None, send: true }
        }
    }

    /// Decides how an event that belongs to no room is published: it is
    /// sent, and nothing is recorded.
    pub fn broadcast(&self) -> (r: Broadcast)
        ensures
            r == (Broadcast { audit: None, send: true }),
    {
        Broadcast { audit: None, send: true }
    }

    /// The address under which the object `path` is stored in the
    /// configured bucket. It fails where there is none.
    pub fn get_s3_url(&self, path: &str) -> (r: Result<String, Error>)
        requires
            self.config.s3.bucket@.len() <= MAX_URL_PART,
            path@.len() <= MAX_URL_PART,
        ensures
            match r {
                Ok(u) => spec_s3_url(self.config.s3.bucket@, path@) == Some(u@),
                Err(e) => e == Error::Internal && spec_s3_url(self.config.s3.bucket@, path@)
                    is None,
            },
    {
        proof {
            reveal_strlit("s3://");
        }
        let with_host = match url_set_host("s3://", self.config.s3.bucket.as_str()) {
            Ok(u) => u,
            Err(_) => {
                return Err(Error::Internal);
            },
        };
        if with_host.as_str().unicode_len() > 13 * MAX_URL_PART {
            return Err(Error::Internal);
        }
        match url_set_path(with_host.as_str(), path) {
            Ok(u) => Ok(u),
            Err(_) => Err(Error::Internal),
        }
    }

    /// The item `media` as it is served: each track under the address that
    /// the configured media base gives to its path. It fails where a track
    /// has no such address.
    pub fn presigned(&self, media: &Media) -> (r: Result<Media, Error>)
        ensures
            match r {
                Ok(m) => spec_servable(self.config.cdn_url@, *media) && spec_presigned(
                    self.config.cdn_url@,
                    *media,
                    m,
                ),
                Err(e) => e == Error::Internal && !spec_servable(self.config.cdn_url@, *media),
            },
    {
        let mut tracks: Vec<MediaTrack> = Vec::new();
        let mut i: usize = 0;
        while i < media.tracks.len()
            invariant
                i <= media.tracks.len(),
                tracks@.len() == i,
                forall|k: int|
                    0 <= k < i ==> Some((#[trigger] tracks@[k]).url@) == spec_rebased(
                        self.config.cdn_url@,
                        media.tracks@[k].url@,
                    ),
            decreases media.tracks.len() - i,
        {
            let path = match url_path(media.tracks[i].url.as_str()) {
                Ok(p) => p,
                Err(_) => {
                    assert(spec_rebased(self.config.cdn_url@, media.tracks@[i as int].url@)
                        is None);
                    return Err(Error::Internal);
                },
            };
            let url = match url_join(self.config.cdn_url.as_str(), path.as_str()) {
                Ok(u) => u,
                Err(_) => {
                    assert(spec_rebased(self.config.cdn_url@, media.tracks@[i as int].url@)
                        is None);
                    return Err(Error::Internal);
                },
            };
            tracks.push(MediaTrack { url });
            i += 1;
        }
        proof {
            assert forall|k: int| 0 <= k < media.tracks@.len() implies spec_rebased(
                self.config.cdn_url@,
                (#[trigger] media.tracks@[k]).url@,
            ) is Some by {
                assert(Some(tracks@[k].url@) == spec_rebased(
                    self.config.cdn_url@,
                    media.tracks@[k].url@,
                ));
            }
        }
        Ok(Media { id: media.id, tracks })
    }

    /// Rewrites every address in `media` to where it is served from. It
    /// fails, and changes nothing, where a track has no such address.
    pub fn presign(&self, media: &mut Media) -> (r: Result<(), Error>)
        ensures
            match r {
                Ok(()) => spec_servable(self.config.cdn_url@, *old(media)) && spec_presigned(
                    self.config.cdn_url@,
                    *old(media),
                    *final(media),
                ),
                Err(e) => e == Error::Internal && !spec_servable(
                    self.config.cdn_url@,
                    *old(media),
                ) && *final(media) == *old(media),
            },
    {
        match self.presigned(media) {
            Ok(m) => {
                *media = m;
                Ok(())
            },
            Err(e) => Err(e),
        }
    }

    fn presigned_opt(&self, media: &Option<Media>) -> (r: Result<Option<Media>, Error>)
        ensures
            match r {
                Ok(m) => spec_opt_servable(self.config.cdn_url@, *media) && spec_opt_presigned(
                    self.config.cdn_url@,
                    *media,
                    m,
                ),
                Err(e) => e == Error::Internal && !spec_opt_servable(self.config.cdn_url@, *media),
            },
    {
        match media {
            Some(m) => match self.presigned(m) {
                Ok(p) => Ok(Some(p)),
                Err(e) => Err(e),
            },
            None => Ok(None),
        }
    }

    fn presigned_embed(&self, embed: &Embed) -> (r: Result<Embed, Error>)
        ensures
            match r {
                Ok(e) => spec_embed_servable(self.config.cdn_url@, *embed) && spec_embed_presigned(
                    self.config.cdn_url@,
                    *embed,
                    e,
                ),
                Err(e) => e == Error::Internal && !spec_embed_servable(
                    self.config.cdn_url@,
                    *embed,
                ),
            },
    {
        let media = match self.presigned_opt(&embed.media) {
            Ok(m) => m,
            Err(e) => {
                return Err(e);
            },
        };
        let author_avatar = match self.presigned_opt(&embed.author_avatar) {
            Ok(m) => m,
            Err(e) => {
                return Err(e);
            },
        };
        let site_avatar = match self.presigned_opt(&embed.site_avatar) {
            Ok(m) => m,
            Err(e) => {
                return Err(e);
            },
        };
        let url = match &embed.url {
            Some(u) => Some(u.clone()),
            None => None,
        };
        Ok(Embed { url, media, author_avatar, site_avatar })
    }

    /// The attachments and the embeds of a markdown message as they are
    /// served.
    fn presigned_parts(&self, attachments: &Vec<Media>, embeds: &Vec<Embed>) -> (r: Result<
        (Vec<Media>, Vec<Embed>),
        Error,
    >)
        ensures
            match r {
                Ok((a, e)) => {
                    &&& spec_all_servable(self.config.cdn_url@, attachments@)
                    &&& spec_all_presigned(self.config.cdn_url@, attachments@, a@)
                    &&& e@.len() == embeds@.len()
                    &&& forall|k: int|
                        0 <= k < embeds@.len() ==> spec_embed_servable(
                            self.config.cdn_url@,
                            #[trigger] embeds@[k],
                        ) && spec_embed_presigned(self.config.cdn_url@, embeds@[k], e@[k])
                },
                Err(e) => e == Error::Internal && !(spec_all_servable(
                    self.config.cdn_url@,
                    attachments@,
                ) && forall|k: int|
                    0 <= k < embeds@.len() ==> spec_embed_servable(
                        self.config.cdn_url@,
                        #[trigger] embeds@[k],
                    )),
            },
    {
        let ghost cdn = self.config.cdn_url@;
        let mut new_attachments: Vec<Media> = Vec::new();
        let mut i: usize = 0;
        while i < attachments.len()
            invariant
                i <= attachments.len(),
                cdn == self.config.cdn_url@,
                new_attachments@.len() == i,
                forall|k: int|
                    0 <= k < i ==> spec_servable(cdn, #[trigger] attachments@[k])
                        && spec_presigned(cdn, attachments@[k], new_attachments@[k]),
            decreases attachments.len() - i,
        {
            match self.presigned(&attachments[i]) {
                Ok(p) => new_attachments.push(p),
                Err(e) => {
                    assert(!spec_servable(cdn, attachments@[i as int]));
                    return Err(e);
                },
            }
            i += 1;
        }
        let mut new_embeds: Vec<Embed> = Vec::new();
        let mut j: usize = 0;
        while j < embeds.len()
            invariant
                j <= embeds.len(),
                cdn == self.config.cdn_url@,
                new_embeds@.len() == j,
                forall|k: int|
                    0 <= k < j ==> spec_embed_servable(cdn, #[trigger] embeds@[k])
                        && spec_embed_presigned(cdn, embeds@[k], new_embeds@[k]),
            decreases embeds.len() - j,
        {
            match self.presigned_embed(&embeds[j]) {
                Ok(p) => new_embeds.push(p),
                Err(e) => {
                    assert(!spec_embed_servable(cdn, embeds@[j as int]));
                    return Err(e);
                },
            }
            j += 1;
        }
        Ok((new_attachments, new_embeds))
    }

    /// Rewrites every address in the media of `message` to where it is
    /// served from: in the attachments of a markdown message and in the
    /// media, the author's picture and the site's picture of each of its
    /// embeds. It fails, and changes nothing, where a track has no such
    /// address.
    pub fn presign_message(&self, message: &mut Message) -> (r: Result<(), Error>)
        ensures
            match r {
                Ok(()) => spec_message_servable(self.config.cdn_url@, *old(message))
                    && spec_message_presigned(
                    self.config.cdn_url@,
                    *old(message),
                    *final(message),
                ),
                Err(e) => e == Error::Internal && !spec_message_servable(
                    self.config.cdn_url@,
                    *old(message),
                ) && *final(message) == *old(message),
            },
    {
        let parts = match &message.message_type {
            MessageType::DefaultMarkdown(m) => match self.presigned_parts(
                &m.attachments,
                &m.embeds,
            ) {
                Ok(p) => Some(p),
                Err(e) => {
                    return Err(e);
                },
            },
            _ => None,
        };
        match parts {
            Some((attachments, embeds)) => {
                match &mut message.message_type {
                    MessageType::DefaultMarkdown(m) => {
                        m.attachments = attachments;
                        m.embeds = embeds;
                    },
                    _ => {},
                }
            },
            None => {},
        }
        Ok(())
    }
}

} // verus!
