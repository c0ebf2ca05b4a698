//! The data schema from outside: the URL resolver over real JSON, the
//! snowflake arithmetic and its calendar reading, permission overwrites,
//! and the fixed wire values.
use discord_gateway::resolve::resolve_url;
use discord_gateway::types::audit_logs::AuditLogEvent;
use discord_gateway::types::guilds::{GuildFeature, PrivacyLevel, Status};
use discord_gateway::types::messages::StickerFormat;
use discord_gateway::types::permissions::{ChannelOverwrite, OverwriteType, Permission};
use discord_gateway::types::snowflakes::{new, snowflake_civil, snowflake_timestamp,
    DISCORD_EPOCH};
use discord_gateway::types::users::User;
use discord_gateway::types::DiscordTimestamp;
use discord_gateway::Bot;

#[test]
fn resolve_url_reads_the_url_field() {
    let body = "{\"url\": \"wss://gateway.example\", \"shards\": 1}";
    assert_eq!(resolve_url(body).unwrap(), "wss://gateway.example".to_owned());
}

#[test]
fn resolve_url_fails_on_other_shapes() {
    assert!(resolve_url("not json at all").is_err());
    assert!(resolve_url("{\"shards\": 1}").is_err());
    assert!(resolve_url("{\"url\": 5}").is_err());
    assert!(resolve_url("[\"url\"]").is_err());
}

#[test]
fn snowflake_timestamp_decodes_the_millisecond_offset() {
    let ts = snowflake_timestamp(175928847299117063);
    assert_eq!(ts.millis, 1462015105796);
}

#[test]
fn snowflake_civil_reads_the_calendar() {
    let civil = snowflake_civil(175928847299117063).unwrap();
    assert_eq!(civil.year, 2016);
    assert_eq!(civil.month, 4);
    assert_eq!(civil.day, 30);
    assert_eq!(civil.hour, 11);
    assert_eq!(civil.minute, 18);
    assert_eq!(civil.second, 25);
}

#[test]
fn snowflake_new_shifts_the_offset_into_place() {
    let sf = new(DiscordTimestamp { millis: DISCORD_EPOCH + 1000 });
    assert_eq!(sf, 1000 * 0x400000);
    // The earliest snowflake of the epoch itself is zero.
    assert_eq!(new(DiscordTimestamp { millis: DISCORD_EPOCH }), 0);
}

#[test]
fn overwrite_allow_sets_and_deny_clears() {
    let mut o = ChannelOverwrite::new(7, OverwriteType::Role);
    o.allow(Permission::SendMessages, true);
    assert_eq!(o.allow, 1 << 11);
    assert_eq!(o.deny, 0);
    o.deny(Permission::SendMessages, true);
    assert_eq!(o.allow, 0);
    assert_eq!(o.deny, 1 << 11);
    o.inherit(Permission::SendMessages, true);
    assert_eq!(o.allow, 0);
    assert_eq!(o.deny, 0);
}

#[test]
fn overwrite_with_false_changes_nothing() {
    let mut o = ChannelOverwrite::new(7, OverwriteType::Member);
    o.allow(Permission::Administrator, true);
    o.allow(Permission::BanMembers, false);
    o.deny(Permission::Administrator, false);
    assert_eq!(o.allow, 1 << 3);
    assert_eq!(o.deny, 0);
}

#[test]
fn overwrite_masks_stay_disjoint() {
    let mut o = ChannelOverwrite::new(7, OverwriteType::Role);
    o.allow(Permission::Speak, true);
    o.allow(Permission::Connect, true);
    o.deny(Permission::Speak, true);
    assert_eq!(o.allow & o.deny, 0);
    assert_eq!(o.allow, 1 << 20);
    assert_eq!(o.deny, 1 << 21);
}

#[test]
fn highest_permission_bit_fits() {
    let mut o = ChannelOverwrite::new(1, OverwriteType::Role);
    o.allow(Permission::StartEmbeddedActivities, true);
    assert_eq!(o.allow, 1 << 39);
}

#[test]
fn wire_codes_match_the_protocol() {
    assert_eq!(AuditLogEvent::GuildUpdate.code(), 1);
    assert_eq!(AuditLogEvent::MessageDelete.code(), 72);
    assert_eq!(AuditLogEvent::ThreadDelete.code(), 112);
    assert_eq!(StickerFormat::Png.code(), 1);
    assert_eq!(StickerFormat::Lottie.code(), 3);
    assert_eq!(PrivacyLevel::GuildOnly.code(), 2);
    assert_eq!(Status::Scheduled.code(), 1);
    assert_eq!(Status::Canceled.code(), 4);
}

#[test]
fn guild_features_spell_their_wire_names() {
    assert_eq!(GuildFeature::AnimatedIcon.name(), "ANIMATED_ICON".to_owned());
    assert_eq!(
        GuildFeature::MemberVerificationGateEnabled.name(),
        "MEMBER_VERIFICATION_GATE_ENABLED".to_owned()
    );
    assert_eq!(GuildFeature::VIPRegions.name(), "VIP_REGIONS".to_owned());
}

#[test]
fn bot_identity_is_read_back_unchanged() {
    let user = User {
        id: 42,
        username: "self".to_owned(),
        discriminator: "0001".to_owned(),
        bot: Some(true),
    };
    let bot = Bot::new("example-token".to_owned(), user);
    assert_eq!(bot.get_token(), "example-token");
    assert_eq!(bot.self_user().id, 42);
    assert_eq!(bot.self_user().username, "self".to_owned());
}
