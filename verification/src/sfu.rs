//! The tracks that the media unit forwards.

use crate::ids::{ThreadId, UserId};
use vstd::prelude::*;

verus! {

/// Identifies a media line of a peer's session.
#[derive(Clone, Copy, Debug, PartialEq, Eq, Structural, Hash)]
pub struct Mid(pub u128);

/// What a track carries.
#[derive(Clone, Copy, Debug, PartialEq, Eq, Structural, Hash)]
pub enum MediaKind {
    Audio,
    Video,
}

/// A track that a peer has announced.
#[derive(Debug, PartialEq, Eq, Hash)]
pub struct SfuTrack {
    pub mid: Mid,
    pub peer_id: UserId,
    pub thread_id: ThreadId,
    pub kind: MediaKind,
    pub key: String,
}

/// How far a track has been negotiated.
#[derive(Clone, Copy, Debug, PartialEq, Eq, Structural, Hash)]
pub enum TrackState {
    Pending,
    Negotiating(Mid),
    Open(Mid),
}

/// A track that a peer sends.
#[derive(Debug)]
pub struct TrackIn {
    pub kind: MediaKind,
    pub state: TrackState,
    pub thread_id: ThreadId,
    pub key: String,
}

/// A track that a peer receives.
#[derive(Debug)]
pub struct TrackOut {
    pub kind: MediaKind,
    pub state: TrackState,
    pub peer_id: UserId,
    pub source_mid: Mid,
    pub enabled: bool,
    pub needs_keyframe: bool,
    pub thread_id: ThreadId,
    pub key: String,
}

/// What the media unit refuses.
#[derive(Clone, Copy, Debug, PartialEq, Eq, Structural, Hash)]
pub enum Error {
    /// No voice state exists for this user.
    NotConnected,
}

impl Error {
    /// The message of the error.
    pub fn message(&self) -> (r: &'static str)
        ensures
            r == "no voice state exists for this user",
    {
        "no voice state exists for this user"
    }
}

impl TrackState {
    /// The media line of the track, once it has one.
    pub open spec fn spec_mid(self) -> Option<Mid> {
        match self {
            TrackState::Pending => None,
            TrackState::Negotiating(mid) => Some(mid),
            TrackState::Open(mid) => Some(mid),
        }
    }

    /// The media line of the track, once it has one.
    pub fn mid(&self) -> (r: Option<Mid>)
        ensures
            r == self.spec_mid(),
    {
        match self {
            TrackState::Pending => None,
            TrackState::Negotiating(mid) => Some(*mid),
            TrackState::Open(mid) => Some(*mid),
        }
    }
}

} // verus!
