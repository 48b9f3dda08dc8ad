//! What one user has noted about another, and how it is stored.

use crate::ids::{Time, UserId};
use vstd::prelude::*;
use vstd::std_specs::convert::FromSpecImpl;

verus! {

/// How one user stands to another.
#[derive(Clone, Copy, Debug, PartialEq, Eq, Structural, Hash)]
pub enum RelationshipType {
    Friend,
    /// A friend request that this user sent.
    Outgoing,
    /// A friend request that this user received.
    Incoming,
    Block,
}

/// For how long the other user is ignored.
#[derive(Clone, Copy, Debug, PartialEq, Eq, Structural, Hash)]
pub enum Ignore {
    Forever,
    Until { ignore_until: Time },
}

/// What one user has noted about another.
#[derive(Debug, PartialEq, Eq, Hash)]
pub struct Relationship {
    pub note: Option<String>,
    pub relation: Option<RelationshipType>,
    pub petname: Option<String>,
    pub ignore: Option<Ignore>,
}

/// A relationship together with the user it is about.
#[derive(Debug, PartialEq, Eq, Hash)]
pub struct RelationshipWithUserId {
    pub user_id: UserId,
    pub inner: Relationship,
}

/// A change to a relationship. An outer `None` leaves a field as it is; an
/// inner `None` clears it.
#[derive(Debug, PartialEq, Eq, Hash)]
pub struct RelationshipPatch {
    pub note: Option<Option<String>>,
    pub relation: Option<Option<RelationshipType>>,
    pub petname: Option<Option<String>>,
    pub ignore: Option<Option<Ignore>>,
}

/// How one user stands to another, as stored.
#[derive(Clone, Copy, Debug, PartialEq, Eq, Structural, Hash)]
pub enum DbUserRelType {
    Friend,
    Outgoing,
    Incoming,
    Block,
}

/// A relationship as stored.
#[derive(Debug, PartialEq, Eq, Hash)]
pub struct DbUserRel {
    pub rel: Option<DbUserRelType>,
    pub note: Option<String>,
    pub petname: Option<String>,
    pub ignore_forever: bool,
    pub ignore_until: Option<Time>,
}

/// A relationship as stored, together with the user it is about.
#[derive(Debug, PartialEq, Eq, Hash)]
pub struct DbUserRelWithId {
    pub rel: Option<DbUserRelType>,
    pub note: Option<String>,
    pub petname: Option<String>,
    pub ignore_forever: bool,
    pub ignore_until: Option<Time>,
    pub user_id: u128,
}

/// What a stored kind of relationship stands for: the kind of the same name.
pub open spec fn spec_relation(value: DbUserRelType) -> RelationshipType {
    match value {
        DbUserRelType::Friend => RelationshipType::Friend,
        DbUserRelType::Outgoing => RelationshipType::Outgoing,
        DbUserRelType::Incoming => RelationshipType::Incoming,
        DbUserRelType::Block => RelationshipType::Block,
    }
}

/// The stored form of a kind of relationship: the kind of the same name.
pub open spec fn spec_db_relation(value: RelationshipType) -> DbUserRelType {
    match value {
        RelationshipType::Friend => DbUserRelType::Friend,
        RelationshipType::Outgoing => DbUserRelType::Outgoing,
        RelationshipType::Incoming => DbUserRelType::Incoming,
        RelationshipType::Block => DbUserRelType::Block,
    }
}

/// What the two stored fields for ignoring stand for. "Forever" outweighs a
/// date.
pub open spec fn spec_ignore(ignore_forever: bool, ignore_until: Option<Time>) -> Option<Ignore> {
    if ignore_forever {
        Some(Ignore::Forever)
    } else {
        match ignore_until {
            Some(t) => Some(Ignore::Until { ignore_until: t }),
            None => None,
        }
    }
}

impl FromSpecImpl<DbUserRelType> for RelationshipType {
    open spec fn obeys_from_spec() -> bool {
        true
    }

    open spec fn from_spec(value: DbUserRelType) -> RelationshipType {
        spec_relation(value)
    }
}

impl From<DbUserRelType> for RelationshipType {
    fn from(value: DbUserRelType) -> (r: RelationshipType) {
        match value {
            DbUserRelType::Friend => RelationshipType::Friend,
            DbUserRelType::Outgoing => RelationshipType::Outgoing,
            DbUserRelType::Incoming => RelationshipType::Incoming,
            DbUserRelType::Block => RelationshipType::Block,
        }
    }
}

impl FromSpecImpl<RelationshipType> for DbUserRelType {
    open spec fn obeys_from_spec() -> bool {
        true
    }

    open spec fn from_spec(value: RelationshipType) -> DbUserRelType {
        spec_db_relation(value)
    }
}

impl From<RelationshipType> for DbUserRelType {
    fn from(value: RelationshipType) -> (r: DbUserRelType) {
        match value {
            RelationshipType::Friend => DbUserRelType::Friend,
            RelationshipType::Outgoing => DbUserRelType::Outgoing,
            RelationshipType::Incoming => DbUserRelType::Incoming,
            RelationshipType::Block => DbUserRelType::Block,
        }
    }
}

impl DbUserRel {
    /// The stored form of a relationship. Ignoring forever is stored as the
    /// flag alone, ignoring until a date as the date alone.
    pub open spec fn spec_from(value: Relationship) -> DbUserRel {
        DbUserRel {
            rel: match value.relation {
                Some(r) => Some(spec_db_relation(r)),
                None => None,
            },
            note: value.note,
            petname: value.petname,
            ignore_forever: value.ignore == Some(Ignore::Forever),
            ignore_until: match value.ignore {
                Some(Ignore::Until { ignore_until }) => Some(ignore_until),
                _ => None,
            },
        }
    }

    /// The stored form of a relationship.
    pub fn from(value: Relationship) -> (r: DbUserRel)
        ensures
            r == DbUserRel::spec_from(value),
    {
        let (ignore_forever, ignore_until) = match value.ignore {
            Some(Ignore::Forever) => (true, None),
            Some(Ignore::Until { ignore_until }) => (false, Some(ignore_until)),
            None => (false, None),
        };
        DbUserRel {
            rel: match value.relation {
                Some(r) => Some(DbUserRelType::from(r)),
                None => None,
            },
            note: value.note,
            petname: value.petname,
            ignore_forever,
            ignore_until,
        }
    }

    /// Whether the row is as `spec_from` writes rows: the flag and the date
    /// are not both set.
    pub open spec fn normal(self) -> bool {
        !(self.ignore_forever && self.ignore_until is Some)
    }
}

impl Relationship {
    /// The relationship that nothing is noted in.
    pub open spec fn spec_default() -> Relationship {
        Relationship { note: None, relation: None, petname: None, ignore: None }
    }

    /// The relationship that a row stands for.
    pub open spec fn spec_from(value: DbUserRel) -> Relationship {
        Relationship {
            note: value.note,
            relation: match value.rel {
                Some(r) => Some(spec_relation(r)),
                None => None,
            },
            petname: value.petname,
            ignore: spec_ignore(value.ignore_forever, value.ignore_until),
        }
    }

    /// Reads a relationship from its row.
    pub fn from(value: DbUserRel) -> (r: Relationship)
        ensures
            r == Relationship::spec_from(value),
    {
        Relationship {
            note: value.note,
            relation: match value.rel {
                Some(r) => Some(RelationshipType::from(r)),
                None => None,
            },
            petname: value.petname,
            ignore: match (value.ignore_forever, value.ignore_until) {
                (true, _) => Some(Ignore::Forever),
                (false, Some(t)) => Some(Ignore::Until { ignore_until: t }),
                (false, None) => None,
            },
        }
    }

    /// The relationship after a change: each field that the patch sets takes
    /// the patch's value, every other field stays.
    pub open spec fn spec_patched(self, patch: RelationshipPatch) -> Relationship {
        Relationship {
            note: match patch.note {
                Some(v) => v,
                None => self.note,
            },
            relation: match patch.relation {
                Some(v) => v,
                None => self.relation,
            },
            petname: match patch.petname {
                Some(v) => v,
                None => self.petname,
            },
            ignore: match patch.ignore {
                Some(v) => v,
                None => self.ignore,
            },
        }
    }

    /// Applies a change.
    pub fn patched(self, patch: RelationshipPatch) -> (r: Relationship)
        ensures
            r == self.spec_patched(patch),
    {
        Relationship {
            note: match patch.note {
                Some(v) => v,
                None => self.note,
            },
            relation: match patch.relation {
                Some(v) => v,
                None => self.relation,
            },
            petname: match patch.petname {
                Some(v) => v,
                None => self.petname,
            },
            ignore: match patch.ignore {
                Some(v) => v,
                None => self.ignore,
            },
        }
    }
}

impl RelationshipWithUserId {
    /// The relationship that a row stands for, with the user it is about.
    pub open spec fn spec_from(value: DbUserRelWithId) -> RelationshipWithUserId {
        RelationshipWithUserId {
            user_id: UserId(value.user_id),
            inner: Relationship::spec_from(
                DbUserRel {
                    rel: value.rel,
                    note: value.note,
                    petname: value.petname,
                    ignore_forever: value.ignore_forever,
                    ignore_until: value.ignore_until,
                },
            ),
        }
    }

    /// Reads a relationship and the user it is about from a row.
    pub fn from(value: DbUserRelWithId) -> (r: RelationshipWithUserId)
        ensures
            r == RelationshipWithUserId::spec_from(value),
    {
        RelationshipWithUserId {
            user_id: UserId(value.user_id),
            inner: Relationship::from(
                DbUserRel {
                    rel: value.rel,
                    note: value.note,
                    petname: value.petname,
                    ignore_forever: value.ignore_forever,
                    ignore_until: value.ignore_until,
                },
            ),
        }
    }
}

/// The row to store when the relationship stored as `existing` is changed by
/// `patch`. Where nothing is stored yet, the change applies to the
/// relationship in which nothing is noted.
pub open spec fn spec_edit(existing: Option<DbUserRel>, patch: RelationshipPatch) -> DbUserRel {
    let before = match existing {
        Some(row) => Relationship::spec_from(row),
        None => Relationship::spec_default(),
    };
    DbUserRel::spec_from(before.spec_patched(patch))
}

/// The row to store when the relationship stored as `existing` is changed by
/// `patch`.
pub fn user_relationship_edit(existing: Option<DbUserRel>, patch: RelationshipPatch) -> (r:
    DbUserRel)
    ensures
        r == spec_edit(existing, patch),
{
    let rel = match existing {
        Some(row) => Relationship::from(row),
        None => Relationship { note: None, relation: None, petname: None, ignore: None },
    };
    DbUserRel::from(rel.patched(patch))
}

/// A relationship that is stored and read back is unchanged.
pub proof fn lemma_relationship_round_trip(value: Relationship)
    ensures
        Relationship::spec_from(DbUserRel::spec_from(value)) == value,
        DbUserRel::spec_from(value).normal(),
{
}

/// A row that is read and stored again is unchanged, unless it has both the
/// flag and a date: then the date is dropped.
pub proof fn lemma_row_round_trip(row: DbUserRel)
    ensures
        row.normal() ==> DbUserRel::spec_from(Relationship::spec_from(row)) == row,
        !row.normal() ==> DbUserRel::spec_from(Relationship::spec_from(row)) == (DbUserRel {
            ignore_until: None,
            ..row
        }),
{
}

/// An empty patch changes nothing.
pub proof fn lemma_empty_patch(value: Relationship)
    ensures
        value.spec_patched(
            RelationshipPatch { note: None, relation: None, petname: None, ignore: None },
        ) == value,
{
}

} // verus!
