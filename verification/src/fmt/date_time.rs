//! The calendar fields of a record's time stamp in a given UTC offset, as the `time` crate
//! computes them.

use vstd::prelude::*;

verus! {

/// The broken-down local date and time of an instant.
#[derive(Debug, Clone, Copy, PartialEq, Eq, Structural)]
pub struct DateTimeParts {
    pub year: i32,
    pub month: u8,
    pub day: u8,
    pub hour: u8,
    pub minute: u8,
    pub second: u8,
    pub millisecond: u16,
    pub microsecond: u32,
    pub nanosecond: u32,
    /// The UTC offset as hours, minutes and seconds, all with the sign of the offset.
    pub offset_hours: i8,
    pub offset_minutes: i8,
    pub offset_seconds: i8,
    /// Whole seconds since the Unix epoch.
    pub unix_timestamp: i64,
}

/// The largest Unix time, in seconds, of a date the `time` crate represents (9999-12-31 23:59:59).
pub open spec fn max_unix_seconds() -> int {
    253_402_300_799
}

/// The largest UTC offset, in seconds, that the `time` crate accepts (25:59:59).
pub open spec fn max_offset_seconds() -> int {
    93_599
}

/// Whether an instant, in nanoseconds since the Unix epoch, has a local date in a UTC offset of
/// `offset_seconds` that the `time` crate can represent.
pub open spec fn local_time_in_range(time_stamp: int, offset_seconds: int) -> bool {
    &&& -max_offset_seconds() <= offset_seconds <= max_offset_seconds()
    &&& 0 <= time_stamp
    &&& time_stamp / 1_000_000_000 <= max_unix_seconds()
    &&& time_stamp / 1_000_000_000 + offset_seconds <= max_unix_seconds()
}

/// Division that rounds toward zero, as Rust's `/` on integers does.
pub open spec fn div_toward_zero(a: int, b: int) -> int
    recommends
        b > 0,
{
    if a >= 0 {
        a / b
    } else {
        -((-a) / b)
    }
}

/// The date and time that the `time` crate gives for an instant (in nanoseconds since the
/// Unix epoch) in a UTC offset (in seconds).
pub uninterp spec fn local_date_time(time_stamp: int, offset_seconds: int) -> DateTimeParts;

/// Calls `time::OffsetDateTime::from_unix_timestamp_nanos`, `time::UtcOffset::from_whole_seconds`
/// and `time::OffsetDateTime::to_offset`, then reads the fields of the result.
///
/// Trusted: the result is the named value `local_date_time`; of it the contract also claims the
/// ranges that the crate documents for each field, that the sub-second fields come from the
/// sub-second part of the instant, that the offset fields are the whole-seconds offset split as
/// `UtcOffset::from_whole_seconds` splits it, and that the Unix timestamp is that of the instant.
/// The calendar arithmetic itself is not stated.
#[verifier::external_body]
pub(crate) fn to_local_date_time(time_stamp: u128, offset_seconds: i32) -> (t: DateTimeParts)
    requires
        local_time_in_range(time_stamp as int, offset_seconds as int),
    ensures
        t == local_date_time(time_stamp as int, offset_seconds as int),
        -9999 <= t.year <= 9999,
        1 <= t.month <= 12,
        1 <= t.day <= 31,
        t.hour < 24,
        t.minute < 60,
        t.second < 60,
        t.nanosecond == time_stamp % 1_000_000_000,
        t.millisecond == t.nanosecond / 1_000_000,
        t.microsecond == t.nanosecond / 1_000,
        t.offset_hours == div_toward_zero(offset_seconds as int, 3600),
        t.offset_minutes == div_toward_zero(offset_seconds as int - 3600 * div_toward_zero(offset_seconds as int, 3600), 60),
        t.offset_seconds == offset_seconds as int - 60 * div_toward_zero(offset_seconds as int, 60),
        t.unix_timestamp == time_stamp / 1_000_000_000,
{
    let t = time::OffsetDateTime::from_unix_timestamp_nanos(time_stamp as i128).unwrap()
        .to_offset(time::UtcOffset::from_whole_seconds(offset_seconds).unwrap());
    let (oh, om, os) = t.offset().as_hms();
    DateTimeParts {
        year: t.year(), month: t.month() as u8, day: t.day(),
        hour: t.hour(), minute: t.minute(), second: t.second(),
        millisecond: t.millisecond(), microsecond: t.microsecond(), nanosecond: t.nanosecond(),
        offset_hours: oh, offset_minutes: om, offset_seconds: os,
        unix_timestamp: t.unix_timestamp(),
    }
}

} // verus!
