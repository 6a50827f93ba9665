//! ISO 8601 without its zone: `YYYY-MM-DD HH:MM:SS`, taken to be local time.

use crate::calendar::{
    pattern_reading,
    pattern_text,
    read_pattern,
    write_pattern,
    SIMPLIFIED_PATTERN,
    ZONED_PATTERN,
    ZONE_PATTERN,
};
use crate::error::{ConvertError, Failure};
use crate::instant::{Instant, Moment};
use vstd::prelude::*;
use vstd::string::*;

verus! {

/// The offset at which `now` is shown, written as `+HHMM`.
pub open spec fn zone_of(now: Moment) -> Seq<char> {
    pattern_text(now.secs, now.nanos, now.offset, ZONE_PATTERN@)
}

/// `text` with the zone of `now` behind it, after a space.
pub open spec fn zoned(text: Seq<char>, now: Moment) -> Seq<char> {
    text + " "@ + zone_of(now)
}

/// The instant that `text` names as local time in the zone in which `now` is
/// shown, if it names one. The offset is that of `now`, whatever the zone's
/// offset was or will be on the date that the text gives.
pub open spec fn moment_of(text: Seq<char>, now: Moment) -> Option<Moment> {
    Moment::of_parts(pattern_reading(zoned(text, now), ZONED_PATTERN@))
}

/// The date and time of day of `time` at its own offset, at the precision of
/// a second and without the offset.
pub open spec fn text_of(time: Moment) -> Seq<char> {
    pattern_text(time.secs, time.whole_second().nanos, time.offset, SIMPLIFIED_PATTERN@)
}

/// The instant that `time` names as local time in the zone in which `now` is
/// shown. Text that is not of the form `YYYY-MM-DD HH:MM:SS` is
/// `MalformedInput`.
pub fn read(time: &str, now: Instant) -> (r: Result<Instant, ConvertError>)
    ensures
        match r {
            Ok(t) => moment_of(time@, now@) == Some(t@),
            Err(e) => moment_of(time@, now@) is None && e@ == Failure::MalformedInput,
        },
{
    proof {
        use_type_invariant(&now);
    }
    let zone: String = write_pattern(now.secs(), now.nanos(), now.offset(), ZONE_PATTERN);
    let mut with_zone: String = String::from_str(time);
    with_zone.append(" ");
    with_zone.append(zone.as_str());
    match read_pattern(with_zone.as_str(), ZONED_PATTERN) {
        Ok((secs, nanos, offset)) => match Instant::new(secs, nanos, offset) {
            Some(t) => Ok(t),
            None => Err(ConvertError::MalformedInput),
        },
        Err(_) => Err(ConvertError::MalformedInput),
    }
}

/// The instant that `time` names as local time at the offset that the
/// machine's zone has at the time of the call, shown in the machine's zone.
/// Text that is not of the form `YYYY-MM-DD HH:MM:SS` is `MalformedInput`.
///
/// The offset is that of the present, not that of the date in the text: for a
/// date across a change of the zone's offset the result is off by the
/// difference.
pub fn parse(time: String) -> (r: Result<Instant, ConvertError>)
    ensures
        exists|now: Moment| #[trigger]
            now.valid() && match r {
                Ok(t) => moment_of(time@, now) is Some && t@.same_point(
                    moment_of(time@, now).unwrap(),
                ),
                Err(e) => moment_of(time@, now) is None && e@ == Failure::MalformedInput,
            },
{
    let now: Instant = Instant::now();
    proof {
        use_type_invariant(&now);
    }
    match read(time.as_str(), now) {
        Ok(t) => {
            let local: Instant = t.to_local();
            assert(now@.valid() && moment_of(time@, now@) is Some && local@.same_point(
                moment_of(time@, now@).unwrap(),
            ));
            Ok(local)
        },
        Err(e) => {
            assert(now@.valid() && moment_of(time@, now@) is None);
            Err(e)
        },
    }
}

/// The date and time of day of `time` at its own offset, as
/// `YYYY-MM-DD HH:MM:SS`.
pub fn format(time: Instant) -> (r: String)
    ensures
        r@ == text_of(time@),
{
    let start: Instant = time.whole_second();
    proof {
        use_type_invariant(&start);
    }
    write_pattern(start.secs(), start.nanos(), start.offset(), SIMPLIFIED_PATTERN)
}

/// Two instants within one second, shown at one offset, are written alike.
pub proof fn lemma_second_decides(a: Moment, b: Moment)
    requires
        a.whole_second() == b.whole_second(),
    ensures
        text_of(a) == text_of(b),
{
}

} // verus!
