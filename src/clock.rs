//! Instants in whole seconds since the Unix epoch, the local zone's offset,
//! and the 24-hour wall-clock text of an instant.
use vstd::prelude::*;

verus! {

/// The largest distance from the epoch, in seconds, of an instant the board
/// handles: some 250,000 years, inside what chrono represents.
pub const MAX_EPOCH_SECONDS: i64 = 8_000_000_000_000;

/// Seconds in a day.
pub const DAY_SECONDS: i64 = 86_400;

/// Whether `secs` seconds since the epoch lies in the handled range.
pub open spec fn in_range(secs: int) -> bool {
    -MAX_EPOCH_SECONDS <= secs <= MAX_EPOCH_SECONDS
}

/// Whether `offset` seconds is a valid difference between local time and UTC.
pub open spec fn valid_offset(offset: int) -> bool {
    -DAY_SECONDS < offset < DAY_SECONDS
}

/// Nanoseconds in a second.
pub const NANOS_PER_SECOND: i64 = 1_000_000_000;

/// An instant: whole seconds since the epoch and the nanoseconds past them.
#[derive(Debug, Clone, Copy, PartialEq, Eq, Structural)]
pub struct Timestamp {
    pub secs: i64,
    pub nanos: u32,
}

impl Timestamp {
    /// The seconds are in the handled range, the nanoseconds under a second.
    pub open spec fn wf(&self) -> bool {
        in_range(self.secs as int) && self.nanos < NANOS_PER_SECOND
    }
}

/// Two decimal digits of `n`, zero-padded.
pub open spec fn two_digits(n: nat) -> Seq<char> {
    seq![crate::text::digit_char(n / 10), crate::text::digit_char(n % 10)]
}

/// The hour of the day (0 to 23) at `local_secs` local seconds since the epoch.
pub open spec fn hour_of(local_secs: int) -> nat {
    ((local_secs % 86_400) / 3600) as nat
}

/// The minute of the hour (0 to 59) at `local_secs` local seconds since the epoch.
pub open spec fn minute_of(local_secs: int) -> nat {
    ((local_secs % 3600) / 60) as nat
}

/// The 24-hour wall-clock text `HH:MM` of local seconds since the epoch.
pub open spec fn hh_mm_text(local_secs: int) -> Seq<char> {
    two_digits(hour_of(local_secs)) + seq![':'] + two_digits(minute_of(local_secs))
}

/// Relies on chrono's `DateTime::from_timestamp` and `DateTime::with_timezone`
/// to `Local`: the offset of the process's local zone at the instant, as
/// `FixedOffset::local_minus_utc` gives it, which chrono keeps within a day.
/// chrono panics only when the system's zone database cannot be read, which
/// no argument brings about.
#[verifier::external_body]
pub(crate) fn local_offset_at(utc_secs: i64) -> (r: i32)
    requires
        in_range(utc_secs as int),
    ensures
        valid_offset(r as int),
{
    let utc = chrono::DateTime::from_timestamp(utc_secs, 0).unwrap();
    utc.with_timezone(&chrono::Local).offset().local_minus_utc()
}

/// Relies on chrono's `format("%H:%M")` on a `DateTime` in a `FixedOffset` zone:
/// hour (00 to 23) and minute (00 to 59), each zero-padded to two digits.
#[verifier::external_body]
pub(crate) fn clock_text(utc_secs: i64, offset: i32) -> (r: String)
    requires
        in_range(utc_secs as int),
        valid_offset(offset as int),
    ensures
        r@ == hh_mm_text(utc_secs + offset),
{
    let zone = chrono::FixedOffset::east_opt(offset).unwrap();
    let utc = chrono::DateTime::from_timestamp(utc_secs, 0).unwrap();
    utc.with_timezone(&zone).format("%H:%M").to_string()
}

} // verus!
