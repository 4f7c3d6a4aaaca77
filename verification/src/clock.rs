//! The wall clock, read through chrono.

use vstd::prelude::*;

verus! {

/// The RFC 3339 text of the UTC instant `secs` seconds and `nanos`
/// nanoseconds after the Unix epoch (chrono's `DateTime::to_rfc3339`).
pub uninterp spec fn rfc3339_text(secs: i64, nanos: u32) -> Seq<char>;

/// The rendering of the UTC instant `secs` seconds and `nanos` nanoseconds
/// after the Unix epoch under a strftime pattern (chrono's
/// `DateTime::format`).
pub uninterp spec fn utc_format(secs: i64, nanos: u32, pattern: Seq<char>) -> Seq<char>;

/// The milliseconds since the Unix epoch of an instant: its seconds times
/// 1000 plus the whole milliseconds of its nanoseconds.
pub open spec fn clock_millis(secs: i64, nanos: u32) -> int {
    secs * 1000 + nanos / 1_000_000
}

/// The stamp `YYYYMMDD-HHMMSS` of an instant.
pub open spec fn compact_stamp(secs: i64, nanos: u32) -> Seq<char> {
    utc_format(secs, nanos, "%Y%m%d-%H%M%S"@)
}

/// The stamp `YYYYMMDD-HHMMSS-mmm` of an instant.
pub open spec fn compact_millis_stamp(secs: i64, nanos: u32) -> Seq<char> {
    utc_format(secs, nanos, "%Y%m%d-%H%M%S-%3f"@)
}

/// The seconds since the Unix epoch of `DateTime::MAX_UTC`, the last instant
/// a UTC date-time can hold.
pub const MAX_CLOCK_SECS: i64 = 8_210_266_876_799;

/// The milliseconds since the Unix epoch of the last millisecond a UTC
/// date-time can hold.
pub const MAX_CLOCK_MILLIS: u64 = 8_210_266_876_799_999;

/// One reading of the clock: the instant, and its renderings.
pub struct ClockReading {
    /// Whole seconds since the Unix epoch.
    pub secs: i64,
    /// Nanoseconds past them.
    pub nanos: u32,
    /// The instant as an RFC 3339 string.
    pub rfc3339: String,
    /// The instant as milliseconds since the Unix epoch.
    pub millis: i64,
    /// The instant as `YYYYMMDD-HHMMSS`.
    pub compact: String,
    /// The instant as `YYYYMMDD-HHMMSS-mmm`.
    pub compact_millis: String,
}

/// Reads the clock once (chrono's `Utc::now`, built from the system time's
/// seconds and sub-second nanoseconds since the epoch) and renders that one
/// instant with `DateTime::to_rfc3339`, `DateTime::timestamp_millis`
/// (seconds times 1000 plus the whole milliseconds of the nanoseconds) and
/// `DateTime::format` (patterns `%Y%m%d-%H%M%S` and `%Y%m%d-%H%M%S-%3f`, both
/// valid, so the rendering cannot fail). The instant is never before the
/// Unix epoch (`Utc::now` panics on a system clock set before it) nor after
/// `DateTime::MAX_UTC` (`DateTime::from_timestamp` refuses it). Which instant
/// is read depends on the time of the call and is not claimed.
#[verifier::external_body]
pub(crate) fn read_clock() -> (r: ClockReading)
    ensures
        0 <= r.secs <= MAX_CLOCK_SECS,
        r.nanos < 1_000_000_000,
        r.rfc3339@ == rfc3339_text(r.secs, r.nanos),
        r.millis == clock_millis(r.secs, r.nanos),
        r.compact@ == utc_format(r.secs, r.nanos, "%Y%m%d-%H%M%S"@),
        r.compact_millis@ == utc_format(r.secs, r.nanos, "%Y%m%d-%H%M%S-%3f"@),
{
    let now = chrono::Utc::now();
    ClockReading {
        secs: now.timestamp(),
        nanos: now.timestamp_subsec_nanos(),
        rfc3339: now.to_rfc3339(),
        millis: now.timestamp_millis(),
        compact: now.format("%Y%m%d-%H%M%S").to_string(),
        compact_millis: now.format("%Y%m%d-%H%M%S-%3f").to_string(),
    }
}

} // verus!
