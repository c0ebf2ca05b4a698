//! Users, guild members, and presences.
use vstd::prelude::*;

use crate::types::snowflakes::Snowflake;
use crate::types::DiscordTimestamp;

verus! {

/// A platform account.
#[derive(Clone, Debug)]
pub struct User {
    pub id: Snowflake,
    pub username: String,
    pub discriminator: String,
    pub bot: Option<bool>,
}

/// A user's membership in one guild.
#[derive(Clone, Debug)]
pub struct Member {
    pub user: Option<User>,
    pub nick: Option<String>,
    pub roles: Vec<Snowflake>,
    pub joined_at: Option<DiscordTimestamp>,
    pub deaf: bool,
    pub mute: bool,
}

/// A member's presence in one guild.
#[derive(Clone, Debug)]
pub struct PresenceUpdate {
    pub user_id: Snowflake,
    pub guild_id: Snowflake,
    pub status: String,
}

} // verus!
