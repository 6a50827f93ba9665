//! RFC 3339: a date, a time and an offset, as in `2023-05-18T00:00:00+09:00`.

use crate::calendar::{read_rfc3339, rfc3339_reading, rfc3339_text, write_rfc3339};
use crate::error::{ConvertError, Failure};
use crate::instant::{Instant, Moment};
use vstd::prelude::*;

verus! {

/// The instant that `text` names in RFC 3339, shown at the offset that the
/// text gives, if it names one.
pub open spec fn moment_of(text: Seq<char>) -> Option<Moment> {
    Moment::of_parts(rfc3339_reading(text))
}

/// `time` in RFC 3339 at the precision of a second: its date and time of day
/// at its own offset, then the offset. What it holds below a second does not
/// show.
pub open spec fn text_of(time: Moment) -> Seq<char> {
    rfc3339_text(time.secs, time.whole_second().nanos, time.offset)
}

/// The instant that `time` names in RFC 3339, shown at the offset that the
/// text gives. Text that is not RFC 3339 is `MalformedInput`.
pub fn read(time: &str) -> (r: Result<Instant, ConvertError>)
    ensures
        match r {
            Ok(t) => moment_of(time@) == Some(t@),
            Err(e) => moment_of(time@) is None && e@ == Failure::MalformedInput,
        },
{
    match read_rfc3339(time) {
        Ok((secs, nanos, offset)) => match Instant::new(secs, nanos, offset) {
            Some(t) => Ok(t),
            None => Err(ConvertError::MalformedInput),
        },
        Err(_) => Err(ConvertError::MalformedInput),
    }
}

/// The instant that `time` names in RFC 3339, shown in the machine's zone.
/// Text that is not RFC 3339 is `MalformedInput`.
pub fn parse(time: String) -> (r: Result<Instant, ConvertError>)
    ensures
        match r {
            Ok(t) => moment_of(time@) is Some && t@.same_point(moment_of(time@).unwrap()),
            Err(e) => moment_of(time@) is None && e@ == Failure::MalformedInput,
        },
{
    match read(time.as_str()) {
        Ok(t) => Ok(t.to_local()),
        Err(e) => Err(e),
    }
}

/// `time` in RFC 3339, at the precision of a second and with its offset
/// written out as hours and minutes.
pub fn format(time: Instant) -> (r: String)
    ensures
        r@ == text_of(time@),
{
    let start: Instant = time.whole_second();
    proof {
        use_type_invariant(&start);
    }
    write_rfc3339(start.secs(), start.nanos(), start.offset())
}

/// Two instants within one second, shown at one offset, are written alike.
pub proof fn lemma_second_decides(a: Moment, b: Moment)
    requires
        a.whole_second() == b.whole_second(),
    ensures
        text_of(a) == text_of(b),
{
}

} // verus!
