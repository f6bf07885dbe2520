//! Trusted boundary to the system clock and to calendar formatting.

use vstd::prelude::*;
use chrono::{DateTime, SecondsFormat, Utc};

verus! {

/// Earliest epoch second this library formats: the first instant of year 1.
pub const RFC3339_SECS_MIN: i64 = -62_135_596_800;

/// Latest epoch second this library formats: the last second of year 9999.
pub const RFC3339_SECS_MAX: i64 = 253_402_300_799;

/// Latest epoch-microsecond value whose instant this library formats.
pub const RFC3339_US_MAX: i64 = RFC3339_SECS_MAX * 1_000_000 + 999_999;

/// The RFC 3339 text, with millisecond precision and a `Z` suffix, of the
/// instant `secs` seconds plus `nanos` nanoseconds after the Unix epoch.
/// The text is a function of the instant alone.
pub uninterp spec fn rfc3339_millis_of(secs: int, nanos: int) -> Seq<char>;

/// Whether `s` renders some formattable instant in RFC 3339 form with
/// millisecond precision: what every clock stamp of this library is.
pub open spec fn is_rfc3339_stamp(s: Seq<char>) -> bool {
    exists|secs: int, nanos: int|
        {
            &&& (RFC3339_SECS_MIN as int) <= secs <= (RFC3339_SECS_MAX as int)
            &&& 0 <= nanos < 1_000_000_000
            &&& s == rfc3339_millis_of(secs, nanos)
        }
}

/// Relies on chrono's `DateTime::from_timestamp` and
/// `DateTime::to_rfc3339_opts`: between the years 1 and 9999 every instant
/// formats, and the text depends on the instant alone.
#[verifier::external_body]
pub fn format_rfc3339_millis(secs: i64, nanos: u32) -> (r: String)
    requires
        RFC3339_SECS_MIN <= secs <= RFC3339_SECS_MAX,
        nanos < 1_000_000_000,
    ensures
        r@ == rfc3339_millis_of(secs as int, nanos as int),
{
    // The precondition keeps the instant in chrono's documented range.
    DateTime::from_timestamp(secs, nanos).unwrap().to_rfc3339_opts(SecondsFormat::Millis, true)
}

/// Relies on chrono's `Utc::now` and `DateTime::timestamp_micros`; nothing
/// is assumed of the value, which depends on the moment of the call.
#[verifier::external_body]
pub fn utc_now_us() -> i64 {
    Utc::now().timestamp_micros()
}

} // verus!
