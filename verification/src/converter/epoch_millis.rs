//! The count of milliseconds since the Unix epoch.

use crate::calendar::point_of_millis;
use crate::error::{ConvertError, Failure};
use crate::instant::{Instant, Moment, MAX_SECS, MIN_SECS, NANOS_PER_SEC};
use vstd::prelude::*;

verus! {

/// Whether `millis` milliseconds after the Unix epoch is a point in time
/// that an instant can hold.
pub open spec fn in_range(millis: int) -> bool {
    MIN_SECS <= millis / 1000 <= MAX_SECS
}

/// The instant `millis` milliseconds after the Unix epoch, shown in UTC.
pub open spec fn moment_of(millis: int) -> Moment {
    Moment { secs: millis / 1000, nanos: (millis % 1000) * 1_000_000, offset: 0 }
}

/// The whole milliseconds that have passed between the Unix epoch and `time`.
/// What `time` holds below a millisecond is cut off, not rounded.
pub open spec fn millis_of(time: Moment) -> int {
    time.secs * 1000 + time.nanos / 1_000_000
}

/// The instant `epoch_millis` milliseconds after the Unix epoch, shown in
/// UTC. A count outside the range of an instant is `OutOfRange`.
pub fn read(epoch_millis: i64) -> (r: Result<Instant, ConvertError>)
    ensures
        match r {
            Ok(time) => in_range(epoch_millis as int) && time@ == moment_of(epoch_millis as int),
            Err(e) => !in_range(epoch_millis as int) && e@ == Failure::OutOfRange,
        },
{
    match point_of_millis(epoch_millis) {
        Some((secs, nanos)) => match Instant::new(secs, nanos, 0) {
            Some(time) => Ok(time),
            None => Err(ConvertError::OutOfRange),
        },
        None => Err(ConvertError::OutOfRange),
    }
}

/// The instant `epoch_millis` milliseconds after the Unix epoch, shown in the
/// machine's zone. A count outside the range of an instant is `OutOfRange`.
pub fn parse(epoch_millis: i64) -> (r: Result<Instant, ConvertError>)
    ensures
        match r {
            Ok(time) => in_range(epoch_millis as int) && time@.same_point(
                moment_of(epoch_millis as int),
            ),
            Err(e) => !in_range(epoch_millis as int) && e@ == Failure::OutOfRange,
        },
{
    match read(epoch_millis) {
        Ok(time) => Ok(time.to_local()),
        Err(e) => Err(e),
    }
}

/// The whole milliseconds between the Unix epoch and `time`; a part of a
/// millisecond is cut off.
pub fn format(time: Instant) -> (r: i64)
    ensures
        r == millis_of(time@),
{
    proof {
        use_type_invariant(&time);
    }
    let below: u32 = time.nanos() / 1_000_000;
    time.secs() * 1000 + below as i64
}

/// Cutting off, not rounding: the count that is written for an instant is
/// the largest number of whole milliseconds that have passed by then.
pub proof fn lemma_format_cuts_off(time: Moment)
    requires
        time.valid(),
    ensures
        millis_of(time) * 1_000_000 <= time.secs * 1_000_000_000 + time.nanos < (millis_of(time)
            + 1) * 1_000_000,
{
}

/// Writing an instant and reading the count gives the same point in time
/// back, for every instant that holds whole milliseconds and lies outside a
/// leap second.
pub proof fn lemma_read_what_was_written(time: Moment)
    requires
        time.valid(),
        time.nanos < NANOS_PER_SEC,
        time.nanos % 1_000_000 == 0,
    ensures
        in_range(millis_of(time)),
        moment_of(millis_of(time)).same_point(time),
{
}

/// What is read from a count is an instant, and is written as that count.
pub proof fn lemma_write_what_was_read(millis: int)
    requires
        in_range(millis),
    ensures
        moment_of(millis).valid(),
        millis_of(moment_of(millis)) == millis,
{
}

} // verus!
