//! Unix timestamps and calendar-day arithmetic in the game's fixed timezone.
//!
//! The daily draw is rate-limited per *calendar day* in a fixed target
//! timezone (UTC+9), not per 24-hour window, so the day boundary must be
//! computed from the raw timestamp.  The offset is constant, so a timestamp's
//! calendar day is a plain floor division of the shifted timestamp.

use vstd::arithmetic::div_mod::lemma_hoist_over_denominator;
use vstd::prelude::*;

verus! {

/// Seconds in one calendar day.
pub const SECS_PER_DAY: i64 = 86400;

/// Offset of the target timezone (UTC+9) from UTC, in seconds.
pub const TZ_OFFSET_SECS: i64 = 32400;

// Shift, in whole days and in seconds, that makes every shifted `i64`
// timestamp non-negative, so that the day number can be computed with an
// unsigned division.  SECS_SHIFT == DAY_SHIFT * SECS_PER_DAY.
const DAY_SHIFT: i128 = 106751991167301;
const SECS_SHIFT: i128 = 9223372036854806400;

/// A moment in time: whole seconds since the Unix epoch.
#[derive(Clone, Copy, Debug, PartialEq, Eq, Structural)]
pub struct UnixTime(pub i64);

/// The calendar day that second `t` falls on in the target timezone,
/// counted as whole days since the epoch day.
pub open spec fn day_number(t: int) -> int {
    (t + TZ_OFFSET_SECS) / (SECS_PER_DAY as int)
}

/// Whether seconds `a` and `b` fall on the same target-timezone calendar day.
pub open spec fn same_day(a: int, b: int) -> bool {
    day_number(a) == day_number(b)
}

impl UnixTime {
    /// Relies on `chrono::Utc::now` and `DateTime::timestamp`: the current
    /// moment as whole seconds since the Unix epoch.
    #[verifier::external_body]
    pub fn now() -> UnixTime {
        UnixTime(chrono::Utc::now().timestamp())
    }

    /// The target-timezone calendar day this moment falls on.
    pub fn day_number_jst(&self) -> (d: i64)
        ensures
            d == day_number(self.0 as int),
    {
        let shifted: u128 = ((self.0 as i128) + (TZ_OFFSET_SECS as i128) + SECS_SHIFT) as u128;
        let day_shifted: u128 = shifted / (SECS_PER_DAY as u128);
        proof {
            lemma_hoist_over_denominator(
                self.0 as int + TZ_OFFSET_SECS as int,
                DAY_SHIFT as int,
                SECS_PER_DAY as nat,
            );
        }
        ((day_shifted as i128) - DAY_SHIFT) as i64
    }

    /// Whether this moment and `other` fall on the same target-timezone
    /// calendar day.
    pub fn same_calendar_day_jst(&self, other: &UnixTime) -> (r: bool)
        ensures
            r == same_day(self.0 as int, other.0 as int),
    {
        self.day_number_jst() == other.day_number_jst()
    }
}

} // verus!
