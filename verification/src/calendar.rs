//! The calendar and the clock, which come from the `chrono` crate. What is
//! stated of them here is taken on trust from that crate; everything else in
//! the library is proved from it.

use crate::instant::{valid_offset, valid_point, MAX_SECS, MIN_SECS, NANOS_PER_SEC};
use vstd::prelude::*;

verus! {

/// The error with which `chrono` turns text down.
#[verifier::external_type_specification]
#[verifier::external_body]
pub struct ExParseError(chrono::format::ParseError);

/// The pattern of the form without an offset, `YYYY-MM-DD HH:MM:SS`.
pub const SIMPLIFIED_PATTERN: &'static str = "%Y-%m-%d %H:%M:%S";

/// The pattern of an offset alone, `+HHMM`.
pub const ZONE_PATTERN: &'static str = "%z";

/// The pattern of the form without an offset, followed by a space and an
/// offset.
pub const ZONED_PATTERN: &'static str = "%Y-%m-%d %H:%M:%S %z";

/// What `chrono::DateTime::parse_from_rfc3339` makes of `text`: nothing, or
/// the seconds since the Unix epoch, the nanoseconds and the offset in
/// seconds east of UTC of the date and time that it reads.
pub uninterp spec fn rfc3339_reading(text: Seq<char>) -> Option<(int, int, int)>;

/// What `chrono::DateTime::parse_from_str` makes of `text` under `pattern`:
/// nothing, or the seconds since the Unix epoch, the nanoseconds and the
/// offset in seconds east of UTC of the date and time that it reads.
pub uninterp spec fn pattern_reading(text: Seq<char>, pattern: Seq<char>) -> Option<(int, int, int)>;

/// What `chrono::DateTime::to_rfc3339` writes for the point in time `secs`
/// seconds and `nanos` nanoseconds after the Unix epoch, shown `offset`
/// seconds east of UTC.
pub uninterp spec fn rfc3339_text(secs: int, nanos: int, offset: int) -> Seq<char>;

/// What `chrono::DateTime::format` writes under `pattern` for the point in
/// time `secs` seconds and `nanos` nanoseconds after the Unix epoch, shown
/// `offset` seconds east of UTC.
pub uninterp spec fn pattern_text(secs: int, nanos: int, offset: int, pattern: Seq<char>) -> Seq<char>;

/// Calls `chrono::DateTime::parse_from_rfc3339` and takes the result apart.
///
/// Trusted: the call depends on `text` alone, so that its outcome has the
/// name [`rfc3339_reading`]; an error stands for no reading.
#[verifier::external_body]
pub(crate) fn read_rfc3339(text: &str) -> (r: Result<(i64, u32, i32), chrono::format::ParseError>)
    ensures
        match r {
            Ok(parts) => rfc3339_reading(text@) == Some(
                (parts.0 as int, parts.1 as int, parts.2 as int),
            ),
            Err(_) => rfc3339_reading(text@) is None,
        },
{
    chrono::DateTime::parse_from_rfc3339(text).map(
        |t| (t.timestamp(), t.timestamp_subsec_nanos(), t.offset().local_minus_utc()),
    )
}

/// Calls `chrono::DateTime::parse_from_str` and takes the result apart.
///
/// Trusted: the call depends on `text` and `pattern` alone, so that its
/// outcome has the name [`pattern_reading`]; an error stands for no reading.
#[verifier::external_body]
pub(crate) fn read_pattern(text: &str, pattern: &str) -> (r: Result<(i64, u32, i32), chrono::format::ParseError>)
    ensures
        match r {
            Ok(parts) => pattern_reading(text@, pattern@) == Some(
                (parts.0 as int, parts.1 as int, parts.2 as int),
            ),
            Err(_) => pattern_reading(text@, pattern@) is None,
        },
{
    chrono::DateTime::parse_from_str(text, pattern).map(
        |t| (t.timestamp(), t.timestamp_subsec_nanos(), t.offset().local_minus_utc()),
    )
}

/// Calls `chrono::DateTime::to_rfc3339` on the instant with the given parts.
///
/// Trusted: the text depends on the three parts alone, so that it has the
/// name [`rfc3339_text`]. The parts must form an instant, for `chrono` makes
/// a date and time of no others.
#[verifier::external_body]
pub(crate) fn write_rfc3339(secs: i64, nanos: u32, offset: i32) -> (r: String)
    requires
        valid_point(secs as int, nanos as int),
        valid_offset(offset as int),
    ensures
        r@ == rfc3339_text(secs as int, nanos as int, offset as int),
{
    let zone = chrono::FixedOffset::east_opt(offset).unwrap();
    chrono::DateTime::from_timestamp(secs, nanos).unwrap().with_timezone(&zone).to_rfc3339()
}

/// Calls `chrono::DateTime::format` on the instant with the given parts and
/// collects what it writes.
///
/// Trusted: the text depends on the three parts and the pattern alone, so
/// that it has the name [`pattern_text`]. The parts must form an instant, and
/// the pattern must be one of the two that the library writes with: `chrono`
/// fails on a pattern that it cannot make sense of.
#[verifier::external_body]
pub(crate) fn write_pattern(secs: i64, nanos: u32, offset: i32, pattern: &str) -> (r: String)
    requires
        valid_point(secs as int, nanos as int),
        valid_offset(offset as int),
        pattern@ == SIMPLIFIED_PATTERN@ || pattern@ == ZONE_PATTERN@,
    ensures
        r@ == pattern_text(secs as int, nanos as int, offset as int, pattern@),
{
    let zone = chrono::FixedOffset::east_opt(offset).unwrap();
    let shown = chrono::DateTime::from_timestamp(secs, nanos).unwrap().with_timezone(&zone);
    shown.format(pattern).to_string()
}

/// Calls `chrono::DateTime::from_timestamp_millis` and takes the result
/// apart.
///
/// Trusted: there is a result exactly when the whole seconds of the count lie
/// within the range of an instant, and then it holds those seconds, rounded
/// towards the past, and the remaining milliseconds as nanoseconds.
#[verifier::external_body]
pub(crate) fn point_of_millis(millis: i64) -> (r: Option<(i64, u32)>)
    ensures
        r is Some <==> MIN_SECS <= millis as int / 1000 <= MAX_SECS,
        r is Some ==> r.unwrap().0 == millis as int / 1000,
        r is Some ==> r.unwrap().1 == (millis as int % 1000) * 1_000_000,
{
    chrono::DateTime::from_timestamp_millis(millis).map(
        |t| (t.timestamp(), t.timestamp_subsec_nanos()),
    )
}

/// Calls `chrono::Local::now` and takes the result apart: the seconds since
/// the Unix epoch, the nanoseconds, and the offset of the machine's zone.
///
/// Trusted: the parts form an instant outside a leap second. Which instant
/// is the clock's matter, and nothing is said of it.
#[verifier::external_body]
pub(crate) fn local_now() -> (r: (i64, u32, i32))
    ensures
        valid_point(r.0 as int, r.1 as int),
        r.1 < NANOS_PER_SEC,
        valid_offset(r.2 as int),
{
    let now = chrono::Local::now();
    (now.timestamp(), now.timestamp_subsec_nanos(), now.offset().local_minus_utc())
}

/// Calls `chrono::DateTime::with_timezone` to move a point in time into the
/// machine's zone, and returns the offset that the zone has there.
///
/// Trusted: the result is an offset that a zone can have. Which one is the
/// machine's matter, and nothing is said of it.
#[verifier::external_body]
pub(crate) fn local_offset_at(secs: i64, nanos: u32) -> (r: i32)
    requires
        valid_point(secs as int, nanos as int),
    ensures
        valid_offset(r as int),
{
    let utc = chrono::DateTime::from_timestamp(secs, nanos).unwrap();
    utc.with_timezone(&chrono::Local).offset().local_minus_utc()
}

} // verus!
