//! Snowflake identifiers: 64-bit integers that encode a creation timestamp
//! (milliseconds since the platform's epoch, in the upper bits) plus
//! sequence bits.
use chrono::Datelike;
use chrono::Timelike;
use vstd::prelude::*;

use crate::types::{CivilTime, DiscordTimestamp};

verus! {

pub type Snowflake = i64;

/// The platform's epoch in milliseconds since the Unix epoch.
pub const DISCORD_EPOCH: i64 = 1_420_070_400_000;

/// The timestamp bits of a snowflake sit above the low 22 bits.
pub const TIMESTAMP_SHIFT: i64 = 0x400000;

/// The largest millisecond offset whose snowflake still fits in 64 bits.
pub const MAX_TIMESTAMP_OFFSET: i64 = 0x1FFFFFFFFFF;

/// The creation time a snowflake encodes.
pub fn snowflake_timestamp(snowflake: Snowflake) -> (r: DiscordTimestamp)
    requires
        snowflake >= 0,
    ensures
        r.millis == snowflake / TIMESTAMP_SHIFT + DISCORD_EPOCH,
{
    let t = snowflake / TIMESTAMP_SHIFT;
    proof {
        assert(0 <= t <= MAX_TIMESTAMP_OFFSET) by (nonlinear_arith)
            requires
                t == snowflake / TIMESTAMP_SHIFT && 0 <= snowflake <= i64::MAX && TIMESTAMP_SHIFT
                    == 0x400000 && MAX_TIMESTAMP_OFFSET == 0x1FFFFFFFFFF,
        ;
    }
    DiscordTimestamp { millis: t + DISCORD_EPOCH }
}

/// The earliest snowflake of a given creation time: the millisecond offset
/// shifted into the timestamp bits, sequence bits zero.
pub fn new(timestamp: DiscordTimestamp) -> (r: Snowflake)
    requires
        DISCORD_EPOCH <= timestamp.millis,
        timestamp.millis - DISCORD_EPOCH <= MAX_TIMESTAMP_OFFSET,
    ensures
        r == (timestamp.millis - DISCORD_EPOCH) * TIMESTAMP_SHIFT,
{
    let ms = timestamp.millis - DISCORD_EPOCH;
    proof {
        assert(0 <= ms * TIMESTAMP_SHIFT <= i64::MAX) by (nonlinear_arith)
            requires
                0 <= ms <= MAX_TIMESTAMP_OFFSET && TIMESTAMP_SHIFT == 0x400000
                    && MAX_TIMESTAMP_OFFSET == 0x1FFFFFFFFFF,
        ;
    }
    ms * TIMESTAMP_SHIFT
}

/// The calendar reading of a moment in milliseconds since the Unix epoch;
/// a name for what the calendar library computes from the value alone.
pub uninterp spec fn spec_civil_of_millis(ms: i64) -> Option<CivilTime>;

/// Relies on chrono's `DateTime::from_timestamp_millis` and the `Datelike`
/// and `Timelike` accessors: the UTC calendar decomposition is a function
/// of the millisecond value alone, and is `None` exactly when the value is
/// out of chrono's range.
#[verifier::external_body]
fn chrono_civil_of_millis(ms: i64) -> (r: Option<CivilTime>)
    ensures
        r == spec_civil_of_millis(ms),
{
    match chrono::DateTime::from_timestamp_millis(ms) {
        Some(dt) => Some(
            CivilTime {
                year: dt.year(),
                month: dt.month(),
                day: dt.day(),
                hour: dt.hour(),
                minute: dt.minute(),
                second: dt.second(),
            },
        ),
        None => None,
    }
}

/// The calendar reading of a snowflake's creation time.
pub fn snowflake_civil(snowflake: Snowflake) -> (r: Option<CivilTime>)
    requires
        snowflake >= 0,
    ensures
        r == spec_civil_of_millis((snowflake / TIMESTAMP_SHIFT + DISCORD_EPOCH) as i64),
{
    let ts = snowflake_timestamp(snowflake);
    chrono_civil_of_millis(ts.millis)
}

} // verus!
