//! Channels and the live objects inside them.
use vstd::prelude::*;

use crate::types::snowflakes::Snowflake;

verus! {

/// A guild channel, thread, or direct-message channel.
#[derive(Clone, Debug)]
pub struct Channel {
    pub id: Snowflake,
    pub channel_type: i32,
    pub guild_id: Option<Snowflake>,
    pub position: Option<i32>,
    pub name: Option<String>,
    pub topic: Option<String>,
    pub nsfw: Option<bool>,
    pub parent_id: Option<Snowflake>,
}

/// A live stage in a stage channel.
#[derive(Clone, Debug)]
pub struct StageInstance {
    pub id: Snowflake,
    pub guild_id: Snowflake,
    pub channel_id: Snowflake,
    pub topic: String,
}

/// A member's voice connection state.
#[derive(Clone, Debug)]
pub struct VoiceState {
    pub guild_id: Option<Snowflake>,
    pub channel_id: Option<Snowflake>,
    pub user_id: Snowflake,
    pub session_id: String,
    pub deaf: bool,
    pub mute: bool,
}

} // verus!
