//! Guilds, roles, features, and scheduled events.
use vstd::prelude::*;

use crate::types::channels::{Channel, StageInstance, VoiceState};
use crate::types::messages::{Emoji, Sticker};
use crate::types::snowflakes::Snowflake;
use crate::types::users::{Member, PresenceUpdate, User};
use crate::types::DiscordTimestamp;

verus! {

/// A role in a guild.
#[derive(Clone, Debug)]
pub struct Role {
    pub id: Snowflake,
}

/// The visibility of a scheduled event.
#[derive(Clone, Copy, PartialEq, Eq, Structural, Debug)]
pub enum PrivacyLevel {
    GuildOnly,
}

/// The wire value of a privacy level.
pub open spec fn spec_privacy_code(p: PrivacyLevel) -> u64 {
    match p {
        PrivacyLevel::GuildOnly => 2,
    }
}

impl PrivacyLevel {
    /// The wire value of this privacy level.
    pub fn code(&self) -> (r: u64)
        ensures
            r == spec_privacy_code(*self),
    {
        match self {
            PrivacyLevel::GuildOnly => 2,
        }
    }
}

/// The lifecycle status of a scheduled event.
#[derive(Clone, Copy, PartialEq, Eq, Structural, Debug)]
pub enum Status {
    Scheduled,
    Active,
    Completed,
    Canceled,
}

/// The wire value of a status.
pub open spec fn spec_status_code(s: Status) -> u64 {
    match s {
        Status::Scheduled => 1,
        Status::Active => 2,
        Status::Completed => 3,
        Status::Canceled => 4,
    }
}

impl Status {
    /// The wire value of this status.
    pub fn code(&self) -> (r: u64)
        ensures
            r == spec_status_code(*self),
    {
        match self {
            Status::Scheduled => 1,
            Status::Active => 2,
            Status::Completed => 3,
            Status::Canceled => 4,
        }
    }
}

/// The location of an external scheduled event.
#[derive(Clone, Debug)]
pub struct EntityMetadata {
    pub location: String,
}

/// The fields every scheduled event carries.
#[derive(Clone, Debug)]
pub struct ScheduledEventCommon {
    pub id: Snowflake,
    pub guild_id: Snowflake,
    pub creator_id: Option<Snowflake>,
    pub name: String,
    pub description: Option<String>,
    pub scheduled_start_time: DiscordTimestamp,
    pub privacy_level: PrivacyLevel,
    pub status: Status,
    pub entity_id: Option<Snowflake>,
    pub creator: Option<User>,
    pub user_count: i32,
}

/// A scheduled event, by the kind of place it happens in.
#[derive(Clone, Debug)]
pub enum GuildScheduledEvent {
    StageInstance {
        d: ScheduledEventCommon,
        channel_id: Snowflake,
        scheduled_end_time: DiscordTimestamp,
    },
    Voice {
        d: ScheduledEventCommon,
        channel_id: Snowflake,
        scheduled_end_time: DiscordTimestamp,
    },
    External {
        d: ScheduledEventCommon,
        entity_metadata: EntityMetadata,
        scheduled_end_time: Option<DiscordTimestamp>,
    },
}

/// A feature flag a guild may carry; the wire spells each as an
/// upper-snake-case name.
#[derive(Clone, Copy, PartialEq, Eq, Structural, Debug)]
pub enum GuildFeature {
    AnimatedIcon,
    Banner,
    Commerce,
    Community,
    Discoverable,
    Featurable,
    InviteSplash,
    MemberVerificationGateEnabled,
    MonetizationEnabled,
    MoreStickers,
    News,
    Partnered,
    PreviewEnabled,
    PrivateThreads,
    RoleIcons,
    SevenDayThreadArchive,
    ThreeDayThreadArchive,
    TicketedEventsEnabled,
    VanityUrl,
    Verified,
    VIPRegions,
    WelcomeScreenEnabled,
}

/// The wire spelling of a feature flag.
pub open spec fn spec_feature_name(f: GuildFeature) -> Seq<char> {
    match f {
        GuildFeature::AnimatedIcon => "ANIMATED_ICON"@,
        GuildFeature::Banner => "BANNER"@,
        GuildFeature::Commerce => "COMMERCE"@,
        GuildFeature::Community => "COMMUNITY"@,
        GuildFeature::Discoverable => "DISCOVERABLE"@,
        GuildFeature::Featurable => "FEATURABLE"@,
        GuildFeature::InviteSplash => "INVITE_SPLASH"@,
        GuildFeature::MemberVerificationGateEnabled => "MEMBER_VERIFICATION_GATE_ENABLED"@,
        GuildFeature::MonetizationEnabled => "MONETIZATION_ENABLED"@,
        GuildFeature::MoreStickers => "MORE_STICKERS"@,
        GuildFeature::News => "NEWS"@,
        GuildFeature::Partnered => "PARTNERED"@,
        GuildFeature::PreviewEnabled => "PREVIEW_ENABLED"@,
        GuildFeature::PrivateThreads => "PRIVATE_THREADS"@,
        GuildFeature::RoleIcons => "ROLE_ICONS"@,
        GuildFeature::SevenDayThreadArchive => "SEVEN_DAY_THREAD_ARCHIVE"@,
        GuildFeature::ThreeDayThreadArchive => "THREE_DAY_THREAD_ARCHIVE"@,
        GuildFeature::TicketedEventsEnabled => "TICKETED_EVENTS_ENABLED"@,
        GuildFeature::VanityUrl => "VANITY_URL"@,
        GuildFeature::Verified => "VERIFIED"@,
        GuildFeature::VIPRegions => "VIP_REGIONS"@,
        GuildFeature::WelcomeScreenEnabled => "WELCOME_SCREEN_ENABLED"@,
    }
}

impl GuildFeature {
    /// The wire spelling of this feature flag.
    pub fn name(&self) -> (r: String)
        ensures
            r@ == spec_feature_name(*self),
    {
        match self {
            GuildFeature::AnimatedIcon => "ANIMATED_ICON".to_owned(),
            GuildFeature::Banner => "BANNER".to_owned(),
            GuildFeature::Commerce => "COMMERCE".to_owned(),
            GuildFeature::Community => "COMMUNITY".to_owned(),
            GuildFeature::Discoverable => "DISCOVERABLE".to_owned(),
            GuildFeature::Featurable => "FEATURABLE".to_owned(),
            GuildFeature::InviteSplash => "INVITE_SPLASH".to_owned(),
            GuildFeature::MemberVerificationGateEnabled => "MEMBER_VERIFICATION_GATE_ENABLED".to_owned(),
            GuildFeature::MonetizationEnabled => "MONETIZATION_ENABLED".to_owned(),
            GuildFeature::MoreStickers => "MORE_STICKERS".to_owned(),
            GuildFeature::News => "NEWS".to_owned(),
            GuildFeature::Partnered => "PARTNERED".to_owned(),
            GuildFeature::PreviewEnabled => "PREVIEW_ENABLED".to_owned(),
            GuildFeature::PrivateThreads => "PRIVATE_THREADS".to_owned(),
            GuildFeature::RoleIcons => "ROLE_ICONS".to_owned(),
            GuildFeature::SevenDayThreadArchive => "SEVEN_DAY_THREAD_ARCHIVE".to_owned(),
            GuildFeature::ThreeDayThreadArchive => "THREE_DAY_THREAD_ARCHIVE".to_owned(),
            GuildFeature::TicketedEventsEnabled => "TICKETED_EVENTS_ENABLED".to_owned(),
            GuildFeature::VanityUrl => "VANITY_URL".to_owned(),
            GuildFeature::Verified => "VERIFIED".to_owned(),
            GuildFeature::VIPRegions => "VIP_REGIONS".to_owned(),
            GuildFeature::WelcomeScreenEnabled => "WELCOME_SCREEN_ENABLED".to_owned(),
        }
    }
}

/// One channel shown on a community guild's welcome screen.
#[derive(Clone, Debug)]
pub struct WelcomeScreenChannel {
    pub channel_id: Snowflake,
    pub description: String,
    pub emoji_id: Option<Snowflake>,
    pub emoji_name: Option<String>,
}

/// The welcome screen of a community guild.
#[derive(Clone, Debug)]
pub struct WelcomeScreen {
    pub description: String,
    pub welcome_channels: Vec<WelcomeScreenChannel>,
}

/// A guild as the gateway and REST API describe it. Fields the gateway
/// only sends inside `GUILD_CREATE` are optional.
#[derive(Clone, Debug)]
pub struct Guild {
    pub id: Snowflake,
    pub name: String,
    pub icon: Option<String>,
    pub icon_hash: Option<String>,
    pub splash: Option<String>,
    pub discovery_splash: Option<String>,
    pub owner: Option<bool>,
    pub owner_id: Snowflake,
    pub permissions: Option<String>,
    pub region: Option<String>,
    pub afk_channel_id: Option<Snowflake>,
    pub afk_timeout: i32,
    pub widget_enabled: Option<bool>,
    pub widget_channel_id: Option<Snowflake>,
    pub verification_level: i32,
    pub default_message_notifications: i32,
    pub explicit_content_filter: i32,
    pub roles: Vec<Role>,
    pub emojis: Vec<Emoji>,
    pub features: Vec<GuildFeature>,
    pub mfa_level: i32,
    pub application_id: Option<Snowflake>,
    pub system_channel_id: Option<Snowflake>,
    pub system_channel_flags: i32,
    pub rules_channel_id: Option<Snowflake>,
    pub joined_at: Option<DiscordTimestamp>,
    pub large: Option<bool>,
    pub unavailable: Option<bool>,
    pub member_count: Option<i32>,
    pub voice_states: Option<Vec<VoiceState>>,
    pub members: Option<Vec<Member>>,
    pub channels: Option<Vec<Channel>>,
    pub threads: Option<Vec<Channel>>,
    pub presences: Option<Vec<PresenceUpdate>>,
    pub max_presences: Option<i32>,
    pub max_members: Option<i32>,
    pub vanity_url_code: Option<String>,
    pub description: Option<String>,
    pub banner: Option<String>,
    pub premium_tier: i32,
    pub premium_subscription_count: Option<i32>,
    pub preferred_locale: String,
    pub public_updates_channel_id: Option<Snowflake>,
    pub max_video_channel_users: Option<i32>,
    pub approximate_member_count: Option<i32>,
    pub approximate_presence_count: Option<i32>,
    pub welcome_screen: Option<WelcomeScreen>,
    pub nsfw_level: i32,
    pub stage_instances: Option<Vec<StageInstance>>,
    pub stickers: Option<Vec<Sticker>>,
    pub guild_scheduled_events: Vec<GuildScheduledEvent>,
}

} // verus!
