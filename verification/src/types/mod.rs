//! The domain data schema: plain typed mirrors of the platform's REST and
//! gateway payload objects. Data only; the protocol core treats these as
//! producers and consumers of its typed events.
use vstd::prelude::*;

pub mod audit_logs;
pub mod channels;
pub mod guilds;
pub mod messages;
pub mod permissions;
pub mod snowflakes;
pub mod users;

verus! {

/// A point in time as the platform transmits it: milliseconds since the
/// Unix epoch. The calendar reading lives in `CivilTime`.
#[derive(Clone, Copy, PartialEq, Eq, Structural, Debug)]
pub struct DiscordTimestamp {
    pub millis: i64,
}

/// A calendar reading of a timestamp: year, month, day, hour, minute,
/// second, in UTC.
#[derive(Clone, Copy, PartialEq, Eq, Structural, Debug)]
pub struct CivilTime {
    pub year: i32,
    pub month: u32,
    pub day: u32,
    pub hour: u32,
    pub minute: u32,
    pub second: u32,
}

} // verus!
