//! Capabilities and sets of them.
//!
//! A capability set is a 64-bit mask with one bit for each capability. Its
//! view is the mathematical set of capabilities whose bit is set.

use crate::error::Error;
use vstd::prelude::*;

verus! {

/// A named capability. `Admin` stands for all of them.
#[derive(Clone, Copy, Debug, PartialEq, Eq, Structural, Hash)]
pub enum Permission {
    Admin,
    BotsAdd,
    BotsManage,
    EmojiAdd,
    EmojiManage,
    EmojiUseExternal,
    InviteCreate,
    InviteManage,
    MemberBan,
    MemberBanManage,
    MemberBridge,
    MemberKick,
    MemberManage,
    MessageCreate,
    MessageDelete,
    MessageEdit,
    MessageEmbeds,
    MessageMassMention,
    MessageAttachments,
    MessageMove,
    MessagePin,
    ReactionAdd,
    ReactionClear,
    ProfileAvatar,
    ProfileOverride,
    RoleApply,
    RoleManage,
    RoomManage,
    ServerAdmin,
    ServerMetrics,
    ServerOversee,
    ServerReports,
    TagApply,
    TagManage,
    ThreadArchive,
    ThreadCreateChat,
    ThreadCreateDocument,
    ThreadCreateEvent,
    ThreadCreateForumLinear,
    ThreadCreateForumTree,
    ThreadCreateTable,
    ThreadCreateVoice,
    ThreadCreatePublic,
    ThreadCreatePrivate,
    ThreadDelete,
    ThreadEdit,
    ThreadForward,
    ThreadLock,
    ThreadPin,
    ThreadPublish,
    UserDms,
    UserProfile,
    UserSessions,
    UserStatus,
    View,
    ViewAuditLog,
    VoiceConnect,
    VoiceDeafen,
    VoiceDisconnect,
    VoiceMove,
    VoiceMute,
    VoicePriority,
    VoiceSpeak,
    VoiceVideo,
}

/// The number of capabilities.
pub const PERMISSION_COUNT: u64 = 64;

impl Permission {
    /// The position of this capability's bit.
    pub open spec fn spec_index(self) -> u64 {
        match self {
            Permission::Admin => 0,
            Permission::BotsAdd => 1,
            Permission::BotsManage => 2,
            Permission::EmojiAdd => 3,
            Permission::EmojiManage => 4,
            Permission::EmojiUseExternal => 5,
            Permission::InviteCreate => 6,
            Permission::InviteManage => 7,
            Permission::MemberBan => 8,
            Permission::MemberBanManage => 9,
            Permission::MemberBridge => 10,
            Permission::MemberKick => 11,
            Permission::MemberManage => 12,
            Permission::MessageCreate => 13,
            Permission::MessageDelete => 14,
            Permission::MessageEdit => 15,
            Permission::MessageEmbeds => 16,
            Permission::MessageMassMention => 17,
            Permission::MessageAttachments => 18,
            Permission::MessageMove => 19,
            Permission::MessagePin => 20,
            Permission::ReactionAdd => 21,
            Permission::ReactionClear => 22,
            Permission::ProfileAvatar => 23,
            Permission::ProfileOverride => 24,
            Permission::RoleApply => 25,
            Permission::RoleManage => 26,
            Permission::RoomManage => 27,
            Permission::ServerAdmin => 28,
            Permission::ServerMetrics => 29,
            Permission::ServerOversee => 30,
            Permission::ServerReports => 31,
            Permission::TagApply => 32,
            Permission::TagManage => 33,
            Permission::ThreadArchive => 34,
            Permission::ThreadCreateChat => 35,
            Permission::ThreadCreateDocument => 36,
            Permission::ThreadCreateEvent => 37,
            Permission::ThreadCreateForumLinear => 38,
            Permission::ThreadCreateForumTree => 39,
            Permission::ThreadCreateTable => 40,
            Permission::ThreadCreateVoice => 41,
            Permission::ThreadCreatePublic => 42,
            Permission::ThreadCreatePrivate => 43,
            Permission::ThreadDelete => 44,
            Permission::ThreadEdit => 45,
            Permission::ThreadForward => 46,
            Permission::ThreadLock => 47,
            Permission::ThreadPin => 48,
            Permission::ThreadPublish => 49,
            Permission::UserDms => 50,
            Permission::UserProfile => 51,
            Permission::UserSessions => 52,
            Permission::UserStatus => 53,
            Permission::View => 54,
            Permission::ViewAuditLog => 55,
            Permission::VoiceConnect => 56,
            Permission::VoiceDeafen => 57,
            Permission::VoiceDisconnect => 58,
            Permission::VoiceMove => 59,
            Permission::VoiceMute => 60,
            Permission::VoicePriority => 61,
            Permission::VoiceSpeak => 62,
            Permission::VoiceVideo => 63,

        }
    }

    /// The position of this capability's bit.
    pub fn index(self) -> (i: u64)
        ensures
            i == self.spec_index(),
            i < PERMISSION_COUNT,
    {
        match self {
            Permission::Admin => 0,
            Permission::BotsAdd => 1,
            Permission::BotsManage => 2,
            Permission::EmojiAdd => 3,
            Permission::EmojiManage => 4,
            Permission::EmojiUseExternal => 5,
            Permission::InviteCreate => 6,
            Permission::InviteManage => 7,
            Permission::MemberBan => 8,
            Permission::MemberBanManage => 9,
            Permission::MemberBridge => 10,
            Permission::MemberKick => 11,
            Permission::MemberManage => 12,
            Permission::MessageCreate => 13,
            Permission::MessageDelete => 14,
            Permission::MessageEdit => 15,
            Permission::MessageEmbeds => 16,
            Permission::MessageMassMention => 17,
            Permission::MessageAttachments => 18,
            Permission::MessageMove => 19,
            Permission::MessagePin => 20,
            Permission::ReactionAdd => 21,
            Permission::ReactionClear => 22,
            Permission::ProfileAvatar => 23,
            Permission::ProfileOverride => 24,
            Permission::RoleApply => 25,
            Permission::RoleManage => 26,
            Permission::RoomManage => 27,
            Permission::ServerAdmin => 28,
            Permission::ServerMetrics => 29,
            Permission::ServerOversee => 30,
            Permission::ServerReports => 31,
            Permission::TagApply => 32,
            Permission::TagManage => 33,
            Permission::ThreadArchive => 34,
            Permission::ThreadCreateChat => 35,
            Permission::ThreadCreateDocument => 36,
            Permission::ThreadCreateEvent => 37,
            Permission::ThreadCreateForumLinear => 38,
            Permission::ThreadCreateForumTree => 39,
            Permission::ThreadCreateTable => 40,
            Permission::ThreadCreateVoice => 41,
            Permission::ThreadCreatePublic => 42,
            Permission::ThreadCreatePrivate => 43,
            Permission::ThreadDelete => 44,
            Permission::ThreadEdit => 45,
            Permission::ThreadForward => 46,
            Permission::ThreadLock => 47,
            Permission::ThreadPin => 48,
            Permission::ThreadPublish => 49,
            Permission::UserDms => 50,
            Permission::UserProfile => 51,
            Permission::UserSessions => 52,
            Permission::UserStatus => 53,
            Permission::View => 54,
            Permission::ViewAuditLog => 55,
            Permission::VoiceConnect => 56,
            Permission::VoiceDeafen => 57,
            Permission::VoiceDisconnect => 58,
            Permission::VoiceMove => 59,
            Permission::VoiceMute => 60,
            Permission::VoicePriority => 61,
            Permission::VoiceSpeak => 62,
            Permission::VoiceVideo => 63,

        }
    }

    /// The capability whose bit stands at position `i`.
    pub open spec fn spec_from_index(i: u64) -> Permission {
        match i {
            0 => Permission::Admin,
            1 => Permission::BotsAdd,
            2 => Permission::BotsManage,
            3 => Permission::EmojiAdd,
            4 => Permission::EmojiManage,
            5 => Permission::EmojiUseExternal,
            6 => Permission::InviteCreate,
            7 => Permission::InviteManage,
            8 => Permission::MemberBan,
            9 => Permission::MemberBanManage,
            10 => Permission::MemberBridge,
            11 => Permission::MemberKick,
            12 => Permission::MemberManage,
            13 => Permission::MessageCreate,
            14 => Permission::MessageDelete,
            15 => Permission::MessageEdit,
            16 => Permission::MessageEmbeds,
            17 => Permission::MessageMassMention,
            18 => Permission::MessageAttachments,
            19 => Permission::MessageMove,
            20 => Permission::MessagePin,
            21 => Permission::ReactionAdd,
            22 => Permission::ReactionClear,
            23 => Permission::ProfileAvatar,
            24 => Permission::ProfileOverride,
            25 => Permission::RoleApply,
            26 => Permission::RoleManage,
            27 => Permission::RoomManage,
            28 => Permission::ServerAdmin,
            29 => Permission::ServerMetrics,
            30 => Permission::ServerOversee,
            31 => Permission::ServerReports,
            32 => Permission::TagApply,
            33 => Permission::TagManage,
            34 => Permission::ThreadArchive,
            35 => Permission::ThreadCreateChat,
            36 => Permission::ThreadCreateDocument,
            37 => Permission::ThreadCreateEvent,
            38 => Permission::ThreadCreateForumLinear,
            39 => Permission::ThreadCreateForumTree,
            40 => Permission::ThreadCreateTable,
            41 => Permission::ThreadCreateVoice,
            42 => Permission::ThreadCreatePublic,
            43 => Permission::ThreadCreatePrivate,
            44 => Permission::ThreadDelete,
            45 => Permission::ThreadEdit,
            46 => Permission::ThreadForward,
            47 => Permission::ThreadLock,
            48 => Permission::ThreadPin,
            49 => Permission::ThreadPublish,
            50 => Permission::UserDms,
            51 => Permission::UserProfile,
            52 => Permission::UserSessions,
            53 => Permission::UserStatus,
            54 => Permission::View,
            55 => Permission::ViewAuditLog,
            56 => Permission::VoiceConnect,
            57 => Permission::VoiceDeafen,
            58 => Permission::VoiceDisconnect,
            59 => Permission::VoiceMove,
            60 => Permission::VoiceMute,
            61 => Permission::VoicePriority,
            62 => Permission::VoiceSpeak,
            _ => Permission::VoiceVideo,
        }
    }

    /// The capability whose bit stands at position `i`.
    pub fn from_index(i: u64) -> (p: Permission)
        requires
            i < PERMISSION_COUNT,
        ensures
            p == Self::spec_from_index(i),
            p.spec_index() == i,
    {
        match i {
            0 => Permission::Admin,
            1 => Permission::BotsAdd,
            2 => Permission::BotsManage,
            3 => Permission::EmojiAdd,
            4 => Permission::EmojiManage,
            5 => Permission::EmojiUseExternal,
            6 => Permission::InviteCreate,
            7 => Permission::InviteManage,
            8 => Permission::MemberBan,
            9 => Permission::MemberBanManage,
            10 => Permission::MemberBridge,
            11 => Permission::MemberKick,
            12 => Permission::MemberManage,
            13 => Permission::MessageCreate,
            14 => Permission::MessageDelete,
            15 => Permission::MessageEdit,
            16 => Permission::MessageEmbeds,
            17 => Permission::MessageMassMention,
            18 => Permission::MessageAttachments,
            19 => Permission::MessageMove,
            20 => Permission::MessagePin,
            21 => Permission::ReactionAdd,
            22 => Permission::ReactionClear,
            23 => Permission::ProfileAvatar,
            24 => Permission::ProfileOverride,
            25 => Permission::RoleApply,
            26 => Permission::RoleManage,
            27 => Permission::RoomManage,
            28 => Permission::ServerAdmin,
            29 => Permission::ServerMetrics,
            30 => Permission::ServerOversee,
            31 => Permission::ServerReports,
            32 => Permission::TagApply,
            33 => Permission::TagManage,
            34 => Permission::ThreadArchive,
            35 => Permission::ThreadCreateChat,
            36 => Permission::ThreadCreateDocument,
            37 => Permission::ThreadCreateEvent,
            38 => Permission::ThreadCreateForumLinear,
            39 => Permission::ThreadCreateForumTree,
            40 => Permission::ThreadCreateTable,
            41 => Permission::ThreadCreateVoice,
            42 => Permission::ThreadCreatePublic,
            43 => Permission::ThreadCreatePrivate,
            44 => Permission::ThreadDelete,
            45 => Permission::ThreadEdit,
            46 => Permission::ThreadForward,
            47 => Permission::ThreadLock,
            48 => Permission::ThreadPin,
            49 => Permission::ThreadPublish,
            50 => Permission::UserDms,
            51 => Permission::UserProfile,
            52 => Permission::UserSessions,
            53 => Permission::UserStatus,
            54 => Permission::View,
            55 => Permission::ViewAuditLog,
            56 => Permission::VoiceConnect,
            57 => Permission::VoiceDeafen,
            58 => Permission::VoiceDisconnect,
            59 => Permission::VoiceMove,
            60 => Permission::VoiceMute,
            61 => Permission::VoicePriority,
            62 => Permission::VoiceSpeak,
            _ => Permission::VoiceVideo,
        }
    }

    /// Every capability has a position below 64, and is the one found there.
    pub proof fn lemma_index_round_trip(self)
        ensures
            self.spec_index() < PERMISSION_COUNT,
            Self::spec_from_index(self.spec_index()) == self,
    {
    }

    /// Two capabilities with one position are one capability.
    pub proof fn lemma_index_injective(p: Permission, q: Permission)
        requires
            p.spec_index() == q.spec_index(),
        ensures
            p == q,
    {
        p.lemma_index_round_trip();
        q.lemma_index_round_trip();
    }
}

/// A set of capabilities.
#[derive(Clone, Copy, Debug, PartialEq, Eq, Structural, Hash)]
pub struct Permissions {
    bits: u64,
}

/// Whether the bit at position `i` of `bits` is set.
pub open spec fn bit_set(bits: u64, i: u64) -> bool {
    bits & (1u64 << i) != 0
}

proof fn lemma_bit_none(i: u64)
    requires
        i < 64,
    ensures
        !bit_set(0, i),
        bit_set(u64::MAX, i),
{
    assert(0u64 & (1u64 << i) == 0) by (bit_vector);
    assert(0xffff_ffff_ffff_ffffu64 & (1u64 << i) != 0) by (bit_vector)
        requires
            i < 64,
    ;
}

proof fn lemma_bit_insert(bits: u64, i: u64, j: u64)
    requires
        i < 64,
        j < 64,
    ensures
        bit_set(bits | (1u64 << i), j) == (i == j || bit_set(bits, j)),
{
    assert(((bits | (1u64 << i)) & (1u64 << j) != 0) == (i == j || (bits & (1u64 << j) != 0)))
        by (bit_vector)
        requires
            i < 64,
            j < 64,
    ;
}

proof fn lemma_bit_remove(bits: u64, i: u64, j: u64)
    requires
        i < 64,
        j < 64,
    ensures
        bit_set(bits & !(1u64 << i), j) == (i != j && bit_set(bits, j)),
{
    assert(((bits & !(1u64 << i)) & (1u64 << j) != 0) == (i != j && (bits & (1u64 << j) != 0)))
        by (bit_vector)
        requires
            i < 64,
            j < 64,
    ;
}

proof fn lemma_bit_layer(bits: u64, allow: u64, deny: u64, j: u64)
    requires
        j < 64,
    ensures
        bit_set((bits | allow) & !deny, j) == ((bit_set(bits, j) || bit_set(allow, j)) && !bit_set(
            deny,
            j,
        )),
{
    assert((((bits | allow) & !deny) & (1u64 << j) != 0) == (((bits & (1u64 << j) != 0) || (allow
        & (1u64 << j) != 0)) && !(deny & (1u64 << j) != 0))) by (bit_vector)
        requires
            j < 64,
    ;
}

proof fn lemma_bit_union(a: u64, b: u64, j: u64)
    requires
        j < 64,
    ensures
        bit_set(a | b, j) == (bit_set(a, j) || bit_set(b, j)),
{
    assert(((a | b) & (1u64 << j) != 0) == ((a & (1u64 << j) != 0) || (b & (1u64 << j) != 0)))
        by (bit_vector)
        requires
            j < 64,
    ;
}

impl View for Permissions {
    type V = Set<Permission>;

    closed spec fn view(&self) -> Set<Permission> {
        Set::new(|p: Permission| bit_set(self.bits, p.spec_index()))
    }
}

impl Permissions {
    /// The set of every capability.
    pub open spec fn spec_full() -> Set<Permission> {
        Set::new(|p: Permission| true)
    }

    /// What a query for `p` answers on the set `s`: `Admin` answers for all.
    pub open spec fn spec_has(s: Set<Permission>, p: Permission) -> bool {
        s.contains(p) || s.contains(Permission::Admin)
    }

    /// A set with `Admin` in it is raised to the full set.
    pub open spec fn spec_promote(s: Set<Permission>) -> Set<Permission> {
        if s.contains(Permission::Admin) {
            Self::spec_full()
        } else {
            s
        }
    }

    /// One overwrite laid over `s`: what it allows is added, then what it
    /// denies is taken away, so a capability both allowed and denied is denied.
    pub open spec fn spec_layer(
        s: Set<Permission>,
        allow: Set<Permission>,
        deny: Set<Permission>,
    ) -> Set<Permission> {
        s.union(allow).difference(deny)
    }

    /// The capabilities that occur in `list`.
    pub open spec fn spec_of_seq(list: Seq<Permission>) -> Set<Permission> {
        Set::new(|p: Permission| list.contains(p))
    }

    /// The empty set.
    pub fn empty() -> (r: Permissions)
        ensures
            r@ == Set::<Permission>::empty(),
    {
        let r = Permissions { bits: 0 };
        proof {
            assert forall|p: Permission| !r@.contains(p) by {
                p.lemma_index_round_trip();
                lemma_bit_none(p.spec_index());
            }
            assert(r@ =~= Set::<Permission>::empty());
        }
        r
    }

    /// The set of every capability.
    pub fn full() -> (r: Permissions)
        ensures
            r@ == Self::spec_full(),
    {
        let r = Permissions { bits: u64::MAX };
        proof {
            assert forall|p: Permission| r@.contains(p) by {
                p.lemma_index_round_trip();
                lemma_bit_none(p.spec_index());
            }
            assert(r@ =~= Self::spec_full());
        }
        r
    }

    /// Whether `p` itself is a member, `Admin` not answering for it.
    pub fn contains(&self, p: Permission) -> (r: bool)
        ensures
            r == self@.contains(p),
    {
        self.bits & (1u64 << p.index()) != 0
    }

    /// Whether the holder of this set may do `p`. `Admin` implies every
    /// capability.
    pub fn has(&self, p: Permission) -> (r: bool)
        ensures
            r == Self::spec_has(self@, p),
            self@.contains(Permission::Admin) ==> r,
    {
        self.contains(p) || self.contains(Permission::Admin)
    }

    /// Adds `p`.
    pub fn add(&mut self, p: Permission)
        ensures
            final(self)@ == old(self)@.insert(p),
    {
        let ghost before = self.bits;
        self.bits = self.bits | (1u64 << p.index());
        proof {
            assert forall|q: Permission| self@.contains(q) == old(self)@.insert(p).contains(q) by {
                p.lemma_index_round_trip();
                q.lemma_index_round_trip();
                lemma_bit_insert(before, p.spec_index(), q.spec_index());
                if p.spec_index() == q.spec_index() {
                    Permission::lemma_index_injective(p, q);
                }
            }
            assert(self@ =~= old(self)@.insert(p));
        }
    }

    /// Takes `p` away.
    pub fn remove(&mut self, p: Permission)
        ensures
            final(self)@ == old(self)@.remove(p),
    {
        let ghost before = self.bits;
        self.bits = self.bits & !(1u64 << p.index());
        proof {
            assert forall|q: Permission| self@.contains(q) == old(self)@.remove(p).contains(q) by {
                p.lemma_index_round_trip();
                q.lemma_index_round_trip();
                lemma_bit_remove(before, p.spec_index(), q.spec_index());
                if p.spec_index() == q.spec_index() {
                    Permission::lemma_index_injective(p, q);
                }
            }
            assert(self@ =~= old(self)@.remove(p));
        }
    }

    /// The members of either set.
    pub fn union(&self, other: &Permissions) -> (r: Permissions)
        ensures
            r@ == self@.union(other@),
    {
        let r = Permissions { bits: self.bits | other.bits };
        proof {
            assert forall|q: Permission| r@.contains(q) == self@.union(other@).contains(q) by {
                q.lemma_index_round_trip();
                lemma_bit_union(self.bits, other.bits, q.spec_index());
            }
            assert(r@ =~= self@.union(other@));
        }
        r
    }

    /// Lays one overwrite over this set: adds what `allow` holds, then takes
    /// away what `deny` holds.
    pub fn layer(&self, allow: &Permissions, deny: &Permissions) -> (r: Permissions)
        ensures
            r@ == Self::spec_layer(self@, allow@, deny@),
            forall|p: Permission| deny@.contains(p) ==> !r@.contains(p),
    {
        let r = Permissions { bits: (self.bits | allow.bits) & !deny.bits };
        proof {
            assert forall|q: Permission|
                r@.contains(q) == Self::spec_layer(self@, allow@, deny@).contains(q) by {
                q.lemma_index_round_trip();
                lemma_bit_layer(self.bits, allow.bits, deny.bits, q.spec_index());
            }
            assert(r@ =~= Self::spec_layer(self@, allow@, deny@));
        }
        r
    }

    /// Raises a set that holds `Admin` to the full set, and leaves any other
    /// set as it is.
    pub fn promote(&self) -> (r: Permissions)
        ensures
            r@ == Self::spec_promote(self@),
    {
        if self.contains(Permission::Admin) {
            Permissions::full()
        } else {
            *self
        }
    }

    /// The set of the capabilities in `list`.
    pub fn from_slice(list: &[Permission]) -> (r: Permissions)
        ensures
            r@ == Self::spec_of_seq(list@),
    {
        let mut r = Permissions::empty();
        let mut i: usize = 0;
        while i < list.len()
            invariant
                i <= list.len(),
                r@ == Self::spec_of_seq(list@.take(i as int)),
            decreases list.len() - i,
        {
            r.add(list[i]);
            proof {
                let a = list@.take(i as int);
                let b = list@.take(i + 1);
                assert(b =~= a.push(list@[i as int]));
                assert forall|q: Permission|
                    b.contains(q) == (a.contains(q) || q == list@[i as int]) by {
                    if a.contains(q) {
                        let k = choose|k: int| 0 <= k < a.len() && a[k] == q;
                        assert(b[k] == q);
                    }
                    if q == list@[i as int] {
                        assert(b[i as int] == q);
                    }
                }
                assert(r@ =~= Self::spec_of_seq(b));
            }
            i += 1;
        }
        proof {
            assert(list@.take(list.len() as int) =~= list@);
        }
        r
    }

    /// Passes where the holder may do `p`.
    pub fn ensure(&self, p: Permission) -> (r: Result<(), Error>)
        ensures
            r == if Self::spec_has(self@, p) {
                Ok::<(), Error>(())
            } else {
                Err::<(), Error>(Error::MissingPermissions)
            },
    {
        if self.has(p) {
            Ok(())
        } else {
            Err(Error::MissingPermissions)
        }
    }

    /// Passes where the holder may see the target. To one who may not, the
    /// target does not exist.
    pub fn ensure_view(&self) -> (r: Result<(), Error>)
        ensures
            r == if Self::spec_has(self@, Permission::View) {
                Ok::<(), Error>(())
            } else {
                Err::<(), Error>(Error::NotFound)
            },
    {
        if self.has(Permission::View) {
            Ok(())
        } else {
            Err(Error::NotFound)
        }
    }
}

/// Where `Admin` is in a set, every capability query on it answers yes.
pub proof fn lemma_admin_implies_all(s: Permissions, p: Permission)
    requires
        s@.contains(Permission::Admin),
    ensures
        Permissions::spec_has(s@, p),
        Permissions::spec_promote(s@).contains(p),
{
}

/// A capability that an overwrite denies is absent after it, whatever the set
/// held before and whatever the overwrite allows.
pub proof fn lemma_deny_wins(
    s: Set<Permission>,
    allow: Set<Permission>,
    deny: Set<Permission>,
    p: Permission,
)
    requires
        deny.contains(p),
    ensures
        !Permissions::spec_layer(s, allow, deny).contains(p),
{
}

} // verus!
