//! Wire-protocol enumerations: the gateway opcodes and the dispatch event tags.
use vstd::prelude::*;

verus! {

/// The closed set of gateway opcodes. The wire value 5 is reserved by the
/// upstream protocol and has no variant on purpose.
#[derive(Clone, Copy, PartialEq, Eq, Structural, Debug)]
pub enum GatewayEvents {
    Dispatch,
    Heartbeat,
    Identify,
    PresenceUpdate,
    VoiceStateUpdate,
    Resume,
    Reconnect,
    RequestGuildMembers,
    InvalidSession,
    Hello,
    HeartbeatACK,
}

/// The numeric wire value of each opcode.
pub open spec fn spec_opcode(op: GatewayEvents) -> u64 {
    match op {
        GatewayEvents::Dispatch => 0,
        GatewayEvents::Heartbeat => 1,
        GatewayEvents::Identify => 2,
        GatewayEvents::PresenceUpdate => 3,
        GatewayEvents::VoiceStateUpdate => 4,
        GatewayEvents::Resume => 6,
        GatewayEvents::Reconnect => 7,
        GatewayEvents::RequestGuildMembers => 8,
        GatewayEvents::InvalidSession => 9,
        GatewayEvents::Hello => 10,
        GatewayEvents::HeartbeatACK => 11,
    }
}

/// The opcode denoted by a numeric wire value, if any.
pub open spec fn spec_opcode_of(n: u64) -> Option<GatewayEvents> {
    if n == 0 {
        Some(GatewayEvents::Dispatch)
    } else if n == 1 {
        Some(GatewayEvents::Heartbeat)
    } else if n == 2 {
        Some(GatewayEvents::Identify)
    } else if n == 3 {
        Some(GatewayEvents::PresenceUpdate)
    } else if n == 4 {
        Some(GatewayEvents::VoiceStateUpdate)
    } else if n == 6 {
        Some(GatewayEvents::Resume)
    } else if n == 7 {
        Some(GatewayEvents::Reconnect)
    } else if n == 8 {
        Some(GatewayEvents::RequestGuildMembers)
    } else if n == 9 {
        Some(GatewayEvents::InvalidSession)
    } else if n == 10 {
        Some(GatewayEvents::Hello)
    } else if n == 11 {
        Some(GatewayEvents::HeartbeatACK)
    } else {
        None
    }
}

impl GatewayEvents {
    /// The numeric wire value of this opcode.
    pub fn opcode_value(&self) -> (r: u64)
        ensures
            r == spec_opcode(*self),
    {
        match self {
            GatewayEvents::Dispatch => 0,
            GatewayEvents::Heartbeat => 1,
            GatewayEvents::Identify => 2,
            GatewayEvents::PresenceUpdate => 3,
            GatewayEvents::VoiceStateUpdate => 4,
            GatewayEvents::Resume => 6,
            GatewayEvents::Reconnect => 7,
            GatewayEvents::RequestGuildMembers => 8,
            GatewayEvents::InvalidSession => 9,
            GatewayEvents::Hello => 10,
            GatewayEvents::HeartbeatACK => 11,
        }
    }
}

/// The opcode denoted by a numeric wire value, if any.
pub fn opcode_of(n: u64) -> (r: Option<GatewayEvents>)
    ensures
        r == spec_opcode_of(n),
{
    if n == 0 {
        Some(GatewayEvents::Dispatch)
    } else if n == 1 {
        Some(GatewayEvents::Heartbeat)
    } else if n == 2 {
        Some(GatewayEvents::Identify)
    } else if n == 3 {
        Some(GatewayEvents::PresenceUpdate)
    } else if n == 4 {
        Some(GatewayEvents::VoiceStateUpdate)
    } else if n == 6 {
        Some(GatewayEvents::Resume)
    } else if n == 7 {
        Some(GatewayEvents::Reconnect)
    } else if n == 8 {
        Some(GatewayEvents::RequestGuildMembers)
    } else if n == 9 {
        Some(GatewayEvents::InvalidSession)
    } else if n == 10 {
        Some(GatewayEvents::Hello)
    } else if n == 11 {
        Some(GatewayEvents::HeartbeatACK)
    } else {
        None
    }
}

/// Each numeric wire value maps back to the opcode it came from.
pub proof fn lemma_opcode_roundtrip(op: GatewayEvents)
    ensures
        spec_opcode_of(spec_opcode(op)) == Some(op),
{
}

/// The dispatch event tags the router understands; a tag outside the set
/// classifies as `Unknown` so that new server-side event types do not
/// crash the client.
#[derive(Clone, Copy, PartialEq, Eq, Structural, Debug)]
pub enum GatewayDispatch {
    Ready,
    Resumed,
    ChannelCreate,
    ChannelUpdate,
    ChannelDelete,
    ChannelPinsUpdate,
    ThreadCreate,
    ThreadUpdate,
    ThreadDelete,
    ThreadListSync,
    ThreadMemberUpdate,
    ThreadMembersUpdate,
    GuildCreate,
    GuildUpdate,
    GuildDelete,
    GuildBanAdd,
    GuildBanRemove,
    GuildEmojisUpdate,
    GuildStickersUpdate,
    GuildIntegrationsUpdate,
    GuildMemberAdd,
    GuildMemberRemove,
    GuildMemberUpdate,
    GuildMembersChunk,
    GuildRoleCreate,
    GuildRoleUpdate,
    GuildRoleDelete,
    IntegrationCreate,
    IntegrationUpdate,
    IntegrationDelete,
    InteractionCreate,
    InviteCreate,
    InviteDelete,
    MessageCreate,
    MessageUpdate,
    MessageDelete,
    MessageDeleteBulk,
    MessageReactionAdd,
    MessageReactionRemove,
    MessageReactionRemoveAll,
    MessageReactionRemoveEmoji,
    PresenceUpdate,
    StageInstanceCreate,
    StageInstanceDelete,
    StageInstanceUpdate,
    TypingStart,
    UserUpdate,
    VoiceStateUpdate,
    VoiceServerUpdate,
    WebhooksUpdate,
    Unknown,
}

} // verus!
