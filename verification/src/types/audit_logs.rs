//! Audit-log actions. Each action has a fixed wire value; gaps in the
//! numbering are the upstream protocol's, not omissions.
use vstd::prelude::*;

verus! {

/// The kinds of audit-log entry.
#[derive(Clone, Copy, PartialEq, Eq, Structural, Debug)]
pub enum AuditLogEvent {
    GuildUpdate,
    ChannelCreate,
    ChannelUpdate,
    ChannelDelete,
    ChannelOverwriteCreate,
    ChannelOverwriteUpdate,
    ChannelOverwriteDelete,
    MemberKick,
    MemberPrune,
    MemberBanAdd,
    MemberBanRemove,
    MemberUpdate,
    MemberRoleUpdate,
    MemberMove,
    MemberDisconnect,
    BotAdd,
    RoleCreate,
    RoleUpdate,
    RoleDelete,
    InviteCreate,
    InviteUpdate,
    InviteDelete,
    WebhookCreate,
    WebhookUpdate,
    WebhookDelete,
    EmojiCreate,
    EmojiUpdate,
    EmojiDelete,
    MessageDelete,
    MessageBulkDelete,
    MessagePin,
    MessageUnpin,
    IntegrationCreate,
    IntegrationUpdate,
    IntegrationDelete,
    StageInstanceCreate,
    StageInstanceUpdate,
    StageInstanceDelete,
    StickerCreate,
    StickerUpdate,
    StickerDelete,
    GuildScheduledEventCreate,
    GuildScheduledEventUpdate,
    GuildScheduledEventDelete,
    ThreadCreate,
    ThreadUpdate,
    ThreadDelete,
}

/// The wire value of an audit-log action.
pub open spec fn spec_audit_code(e: AuditLogEvent) -> u64 {
    match e {
        AuditLogEvent::GuildUpdate => 1,
        AuditLogEvent::ChannelCreate => 10,
        AuditLogEvent::ChannelUpdate => 11,
        AuditLogEvent::ChannelDelete => 12,
        AuditLogEvent::ChannelOverwriteCreate => 13,
        AuditLogEvent::ChannelOverwriteUpdate => 14,
        AuditLogEvent::ChannelOverwriteDelete => 15,
        AuditLogEvent::MemberKick => 20,
        AuditLogEvent::MemberPrune => 21,
        AuditLogEvent::MemberBanAdd => 22,
        AuditLogEvent::MemberBanRemove => 23,
        AuditLogEvent::MemberUpdate => 24,
        AuditLogEvent::MemberRoleUpdate => 25,
        AuditLogEvent::MemberMove => 26,
        AuditLogEvent::MemberDisconnect => 27,
        AuditLogEvent::BotAdd => 28,
        AuditLogEvent::RoleCreate => 30,
        AuditLogEvent::RoleUpdate => 31,
        AuditLogEvent::RoleDelete => 32,
        AuditLogEvent::InviteCreate => 40,
        AuditLogEvent::InviteUpdate => 41,
        AuditLogEvent::InviteDelete => 42,
        AuditLogEvent::WebhookCreate => 50,
        AuditLogEvent::WebhookUpdate => 51,
        AuditLogEvent::WebhookDelete => 52,
        AuditLogEvent::EmojiCreate => 60,
        AuditLogEvent::EmojiUpdate => 61,
        AuditLogEvent::EmojiDelete => 62,
        AuditLogEvent::MessageDelete => 72,
        AuditLogEvent::MessageBulkDelete => 73,
        AuditLogEvent::MessagePin => 74,
        AuditLogEvent::MessageUnpin => 75,
        AuditLogEvent::IntegrationCreate => 80,
        AuditLogEvent::IntegrationUpdate => 81,
        AuditLogEvent::IntegrationDelete => 82,
        AuditLogEvent::StageInstanceCreate => 83,
        AuditLogEvent::StageInstanceUpdate => 84,
        AuditLogEvent::StageInstanceDelete => 85,
        AuditLogEvent::StickerCreate => 90,
        AuditLogEvent::StickerUpdate => 91,
        AuditLogEvent::StickerDelete => 92,
        AuditLogEvent::GuildScheduledEventCreate => 100,
        AuditLogEvent::GuildScheduledEventUpdate => 101,
        AuditLogEvent::GuildScheduledEventDelete => 102,
        AuditLogEvent::ThreadCreate => 110,
        AuditLogEvent::ThreadUpdate => 111,
        AuditLogEvent::ThreadDelete => 112,
    }
}

impl AuditLogEvent {
    /// The wire value of this action.
    pub fn code(&self) -> (r: u64)
        ensures
            r == spec_audit_code(*self),
    {
        match self {
            AuditLogEvent::GuildUpdate => 1,
            AuditLogEvent::ChannelCreate => 10,
            AuditLogEvent::ChannelUpdate => 11,
            AuditLogEvent::ChannelDelete => 12,
            AuditLogEvent::ChannelOverwriteCreate => 13,
            AuditLogEvent::ChannelOverwriteUpdate => 14,
            AuditLogEvent::ChannelOverwriteDelete => 15,
            AuditLogEvent::MemberKick => 20,
            AuditLogEvent::MemberPrune => 21,
            AuditLogEvent::MemberBanAdd => 22,
            AuditLogEvent::MemberBanRemove => 23,
            AuditLogEvent::MemberUpdate => 24,
            AuditLogEvent::MemberRoleUpdate => 25,
            AuditLogEvent::MemberMove => 26,
            AuditLogEvent::MemberDisconnect => 27,
            AuditLogEvent::BotAdd => 28,
            AuditLogEvent::RoleCreate => 30,
            AuditLogEvent::RoleUpdate => 31,
            AuditLogEvent::RoleDelete => 32,
            AuditLogEvent::InviteCreate => 40,
            AuditLogEvent::InviteUpdate => 41,
            AuditLogEvent::InviteDelete => 42,
            AuditLogEvent::WebhookCreate => 50,
            AuditLogEvent::WebhookUpdate => 51,
            AuditLogEvent::WebhookDelete => 52,
            AuditLogEvent::EmojiCreate => 60,
            AuditLogEvent::EmojiUpdate => 61,
            AuditLogEvent::EmojiDelete => 62,
            AuditLogEvent::MessageDelete => 72,
            AuditLogEvent::MessageBulkDelete => 73,
            AuditLogEvent::MessagePin => 74,
            AuditLogEvent::MessageUnpin => 75,
            AuditLogEvent::IntegrationCreate => 80,
            AuditLogEvent::IntegrationUpdate => 81,
            AuditLogEvent::IntegrationDelete => 82,
            AuditLogEvent::StageInstanceCreate => 83,
            AuditLogEvent::StageInstanceUpdate => 84,
            AuditLogEvent::StageInstanceDelete => 85,
            AuditLogEvent::StickerCreate => 90,
            AuditLogEvent::StickerUpdate => 91,
            AuditLogEvent::StickerDelete => 92,
            AuditLogEvent::GuildScheduledEventCreate => 100,
            AuditLogEvent::GuildScheduledEventUpdate => 101,
            AuditLogEvent::GuildScheduledEventDelete => 102,
            AuditLogEvent::ThreadCreate => 110,
            AuditLogEvent::ThreadUpdate => 111,
            AuditLogEvent::ThreadDelete => 112,
        }
    }
}

/// An audit log as fetched from the REST API.
#[derive(Clone, Debug)]
pub struct AuditLog {
}

} // verus!
