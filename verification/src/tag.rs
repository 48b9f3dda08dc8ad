//! Tags: labels of a room that can be put on things.

use crate::error::Error;
use crate::ids::RoomId;
use crate::media::{Room, Thread};
use vstd::prelude::*;
use vstd::string::StrSliceExecFns;

verus! {

/// The fewest characters of a tag's name or description.
pub const TAG_TEXT_MIN: usize = 1;

/// The most characters of a tag's name.
pub const TAG_NAME_MAX: usize = 64;

/// The most characters of a tag's description.
pub const TAG_DESCRIPTION_MAX: usize = 8192;

/// A colour, as its notation.
#[derive(Debug, PartialEq, Eq, Hash)]
pub struct Color(pub String);

/// A tag that can be put on things.
#[derive(Debug, PartialEq, Eq, Hash)]
pub struct Tag {
    pub id: u128,
    pub version_id: u128,
    pub room_id: RoomId,
    pub name: String,
    pub description: Option<String>,
    pub color: Option<Color>,
    /// An archived tag stays where it is but can be put on nothing new.
    pub is_archived: bool,
}

/// A request to create a tag.
#[derive(Debug, PartialEq, Eq, Hash)]
pub struct TagCreate {
    pub room_id: RoomId,
    pub name: String,
    pub description: Option<String>,
    pub color: Option<Color>,
}

/// A request to change a tag. An outer `None` leaves a field as it is; an
/// inner `None` clears it.
#[derive(Debug, PartialEq, Eq, Hash)]
pub struct TagPatch {
    pub name: Option<String>,
    pub description: Option<Option<String>>,
    pub color: Option<Option<Color>>,
    pub is_archived: Option<bool>,
}

/// Something that a tag can be put on.
#[derive(Debug, PartialEq, Eq, Hash)]
pub enum Taggable {
    Room(Room),
    Thread(Thread),
    Tag(Tag),
}

/// Whether `name` can be a tag's name: 1 to 64 characters.
pub open spec fn spec_name_ok(name: Seq<char>) -> bool {
    TAG_TEXT_MIN <= name.len() <= TAG_NAME_MAX
}

/// Whether `description` can be a tag's description: none, or 1 to 8192
/// characters.
pub open spec fn spec_description_ok(description: Option<String>) -> bool {
    description matches Some(d) ==> TAG_TEXT_MIN <= d@.len() <= TAG_DESCRIPTION_MAX
}

fn name_ok(name: &str) -> (r: bool)
    ensures
        r == spec_name_ok(name@),
{
    let n = name.unicode_len();
    TAG_TEXT_MIN <= n && n <= TAG_NAME_MAX
}

fn description_ok(description: &Option<String>) -> (r: bool)
    ensures
        r == spec_description_ok(*description),
{
    match description {
        Some(d) => {
            let n = d.as_str().unicode_len();
            TAG_TEXT_MIN <= n && n <= TAG_DESCRIPTION_MAX
        },
        None => true,
    }
}

fn verdict(ok: bool) -> (r: Result<(), Error>)
    ensures
        r == if ok {
            Ok::<(), Error>(())
        } else {
            Err::<(), Error>(Error::Validation)
        },
{
    if ok {
        Ok(())
    } else {
        Err(Error::Validation)
    }
}

impl Tag {
    /// Whether the tag's texts have lengths that a tag may have.
    pub open spec fn spec_valid(self) -> bool {
        spec_name_ok(self.name@) && spec_description_ok(self.description)
    }

    /// Passes where the tag's texts have lengths that a tag may have.
    pub fn validate(&self) -> (r: Result<(), Error>)
        ensures
            r == if self.spec_valid() {
                Ok::<(), Error>(())
            } else {
                Err::<(), Error>(Error::Validation)
            },
    {
        verdict(name_ok(self.name.as_str()) && description_ok(&self.description))
    }
}

impl TagCreate {
    /// Whether the texts have lengths that a tag may have.
    pub open spec fn spec_valid(self) -> bool {
        spec_name_ok(self.name@) && spec_description_ok(self.description)
    }

    /// Passes where the texts have lengths that a tag may have.
    pub fn validate(&self) -> (r: Result<(), Error>)
        ensures
            r == if self.spec_valid() {
                Ok::<(), Error>(())
            } else {
                Err::<(), Error>(Error::Validation)
            },
    {
        verdict(name_ok(self.name.as_str()) && description_ok(&self.description))
    }
}

impl TagPatch {
    /// Whether the texts that the patch sets have lengths that a tag may
    /// have.
    pub open spec fn spec_valid(self) -> bool {
        &&& self.name matches Some(n) ==> spec_name_ok(n@)
        &&& self.description matches Some(d) ==> spec_description_ok(d)
    }

    /// Passes where the texts that the patch sets have lengths that a tag
    /// may have.
    pub fn validate(&self) -> (r: Result<(), Error>)
        ensures
            r == if self.spec_valid() {
                Ok::<(), Error>(())
            } else {
                Err::<(), Error>(Error::Validation)
            },
    {
        let name = match &self.name {
            Some(n) => name_ok(n.as_str()),
            None => true,
        };
        let description = match &self.description {
            Some(d) => description_ok(d),
            None => true,
        };
        verdict(name && description)
    }
}

} // verus!
