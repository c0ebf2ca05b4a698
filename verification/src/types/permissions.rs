//! Permission flags and per-channel overwrites. Each permission is one bit
//! position in a 64-bit mask; an overwrite holds an allow mask and a deny
//! mask, and no bit may stand in both at once.
use vstd::prelude::*;

use crate::types::snowflakes::Snowflake;

verus! {

/// The permission flags, each naming its bit position.
#[derive(Clone, Copy, PartialEq, Eq, Structural, Debug)]
pub enum Permission {
    CreateInstantInvite,
    KickMembers,
    BanMembers,
    Administrator,
    ManageChannels,
    ManageGuild,
    AddReactions,
    ViewAuditLog,
    PrioritySpeaker,
    Stream,
    ViewChannel,
    SendMessages,
    SendTtsMessages,
    ManageMessages,
    EmbedLinks,
    AttachFiles,
    ReadMessageHistory,
    MentionEveryone,
    UseExternalEmojis,
    ViewGuildInsights,
    Connect,
    Speak,
    MuteMembers,
    DeafenMembers,
    MoveMembers,
    UseVad,
    ChangeNickname,
    ManageNicknames,
    ManageRoles,
    ManageWebhooks,
    ManageEmojisAndStickers,
    UseApplicationCommands,
    RequestToSpeak,
    ManageEvents,
    ManageThreads,
    CreatePublicThreads,
    CreatePrivateThreads,
    UseExternalStickers,
    SendMessagesInThreads,
    StartEmbeddedActivities,
}

/// The bit position of a permission.
pub open spec fn spec_bit(p: Permission) -> u64 {
    match p {
        Permission::CreateInstantInvite => 0,
        Permission::KickMembers => 1,
        Permission::BanMembers => 2,
        Permission::Administrator => 3,
        Permission::ManageChannels => 4,
        Permission::ManageGuild => 5,
        Permission::AddReactions => 6,
        Permission::ViewAuditLog => 7,
        Permission::PrioritySpeaker => 8,
        Permission::Stream => 9,
        Permission::ViewChannel => 10,
        Permission::SendMessages => 11,
        Permission::SendTtsMessages => 12,
        Permission::ManageMessages => 13,
        Permission::EmbedLinks => 14,
        Permission::AttachFiles => 15,
        Permission::ReadMessageHistory => 16,
        Permission::MentionEveryone => 17,
        Permission::UseExternalEmojis => 18,
        Permission::ViewGuildInsights => 19,
        Permission::Connect => 20,
        Permission::Speak => 21,
        Permission::MuteMembers => 22,
        Permission::DeafenMembers => 23,
        Permission::MoveMembers => 24,
        Permission::UseVad => 25,
        Permission::ChangeNickname => 26,
        Permission::ManageNicknames => 27,
        Permission::ManageRoles => 28,
        Permission::ManageWebhooks => 29,
        Permission::ManageEmojisAndStickers => 30,
        Permission::UseApplicationCommands => 31,
        Permission::RequestToSpeak => 32,
        Permission::ManageEvents => 33,
        Permission::ManageThreads => 34,
        Permission::CreatePublicThreads => 35,
        Permission::CreatePrivateThreads => 36,
        Permission::UseExternalStickers => 37,
        Permission::SendMessagesInThreads => 38,
        Permission::StartEmbeddedActivities => 39,
    }
}

impl Permission {
    /// The bit position of this permission; always below 40.
    pub fn bit(&self) -> (r: u64)
        ensures
            r == spec_bit(*self),
            r < 40,
    {
        match self {
            Permission::CreateInstantInvite => 0,
            Permission::KickMembers => 1,
            Permission::BanMembers => 2,
            Permission::Administrator => 3,
            Permission::ManageChannels => 4,
            Permission::ManageGuild => 5,
            Permission::AddReactions => 6,
            Permission::ViewAuditLog => 7,
            Permission::PrioritySpeaker => 8,
            Permission::Stream => 9,
            Permission::ViewChannel => 10,
            Permission::SendMessages => 11,
            Permission::SendTtsMessages => 12,
            Permission::ManageMessages => 13,
            Permission::EmbedLinks => 14,
            Permission::AttachFiles => 15,
            Permission::ReadMessageHistory => 16,
            Permission::MentionEveryone => 17,
            Permission::UseExternalEmojis => 18,
            Permission::ViewGuildInsights => 19,
            Permission::Connect => 20,
            Permission::Speak => 21,
            Permission::MuteMembers => 22,
            Permission::DeafenMembers => 23,
            Permission::MoveMembers => 24,
            Permission::UseVad => 25,
            Permission::ChangeNickname => 26,
            Permission::ManageNicknames => 27,
            Permission::ManageRoles => 28,
            Permission::ManageWebhooks => 29,
            Permission::ManageEmojisAndStickers => 30,
            Permission::UseApplicationCommands => 31,
            Permission::RequestToSpeak => 32,
            Permission::ManageEvents => 33,
            Permission::ManageThreads => 34,
            Permission::CreatePublicThreads => 35,
            Permission::CreatePrivateThreads => 36,
            Permission::UseExternalStickers => 37,
            Permission::SendMessagesInThreads => 38,
            Permission::StartEmbeddedActivities => 39,
        }
    }
}

/// The mask a permission change touches: the permission's bit when the
/// change is asserted, nothing when it is not.
pub open spec fn spec_mask(p: Permission, to: bool) -> u64 {
    if to {
        (1u64 << spec_bit(p)) as u64
    } else {
        0
    }
}

/// Whom an overwrite binds.
#[derive(Clone, Copy, PartialEq, Eq, Structural, Debug)]
pub enum OverwriteType {
    Role,
    Member,
}

/// A per-channel permission overwrite: masks of explicitly allowed and
/// explicitly denied permissions for one role or member.
#[derive(Clone, Copy, PartialEq, Eq, Structural, Debug)]
pub struct ChannelOverwrite {
    pub id: Snowflake,
    pub overwrite_type: OverwriteType,
    pub allow: u64,
    pub deny: u64,
}

/// No permission is both allowed and denied.
pub open spec fn overwrite_wf(o: ChannelOverwrite) -> bool {
    o.allow & o.deny == 0
}

impl ChannelOverwrite {
    /// A fresh overwrite with no explicit permission either way.
    pub fn new(id: Snowflake, overwrite_type: OverwriteType) -> (r: ChannelOverwrite)
        ensures
            r.id == id,
            r.overwrite_type == overwrite_type,
            r.allow == 0,
            r.deny == 0,
            overwrite_wf(r),
    {
        let r = ChannelOverwrite { id, overwrite_type, allow: 0, deny: 0 };
        proof {
            assert(0u64 & 0u64 == 0) by (bit_vector);
        }
        r
    }

    /// Explicitly allow `permission` (when `to` holds): its bit enters the
    /// allow mask and leaves the deny mask.
    pub fn allow(&mut self, permission: Permission, to: bool)
        ensures
            final(self).allow == old(self).allow | spec_mask(permission, to),
            final(self).deny == old(self).deny & !spec_mask(permission, to),
            final(self).id == old(self).id,
            final(self).overwrite_type == old(self).overwrite_type,
            overwrite_wf(*old(self)) ==> overwrite_wf(*final(self)),
    {
        let bitmask: u64 = if to {
            1u64 << permission.bit()
        } else {
            0
        };
        self.allow = self.allow | bitmask;
        self.deny = self.deny & !bitmask;
        proof {
            let a = old(self).allow;
            let d = old(self).deny;
            let m = bitmask;
            assert(a & d == 0 ==> (a | m) & (d & !m) == 0) by (bit_vector);
        }
    }

    /// Explicitly deny `permission` (when `to` holds): its bit enters the
    /// deny mask and leaves the allow mask.
    pub fn deny(&mut self, permission: Permission, to: bool)
        ensures
            final(self).allow == old(self).allow & !spec_mask(permission, to),
            final(self).deny == old(self).deny | spec_mask(permission, to),
            final(self).id == old(self).id,
            final(self).overwrite_type == old(self).overwrite_type,
            overwrite_wf(*old(self)) ==> overwrite_wf(*final(self)),
    {
        let bitmask: u64 = if to {
            1u64 << permission.bit()
        } else {
            0
        };
        self.allow = self.allow & !bitmask;
        self.deny = self.deny | bitmask;
        proof {
            let a = old(self).allow;
            let d = old(self).deny;
            let m = bitmask;
            assert(a & d == 0 ==> (a & !m) & (d | m) == 0) by (bit_vector);
        }
    }

    /// Let `permission` fall back to what the role hierarchy says (when
    /// `to` holds): its bit leaves both masks.
    pub fn inherit(&mut self, permission: Permission, to: bool)
        ensures
            final(self).allow == old(self).allow & !spec_mask(permission, to),
            final(self).deny == old(self).deny & !spec_mask(permission, to),
            final(self).id == old(self).id,
            final(self).overwrite_type == old(self).overwrite_type,
            overwrite_wf(*old(self)) ==> overwrite_wf(*final(self)),
    {
        let bitmask: u64 = if to {
            1u64 << permission.bit()
        } else {
            0
        };
        self.allow = self.allow & !bitmask;
        self.deny = self.deny & !bitmask;
        proof {
            let a = old(self).allow;
            let d = old(self).deny;
            let m = bitmask;
            assert(a & d == 0 ==> (a & !m) & (d & !m) == 0) by (bit_vector);
        }
    }
}

} // verus!
