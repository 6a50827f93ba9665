//! Finding out which form a text has, and writing the instant it names in
//! the form that was asked for.

pub mod epoch_millis;
pub mod iso8601_simplified;
pub mod rfc3339;

use crate::decimal::{integer_reading, integer_text, read_integer, write_integer};
use crate::error::{is_moment, is_point, is_text, ConvertError, Failure};
use crate::instant::{valid_offset, Instant, Moment, NANOS_PER_SEC};
use vstd::prelude::*;
use vstd::string::*;

verus! {

/// The three forms in which a time value is written.
#[derive(Clone, Copy, Debug, PartialEq, Eq, Structural)]
pub enum TimeFormat {
    /// Milliseconds since the Unix epoch, as in `1684805123000`.
    E,
    /// RFC 3339, as in `2023-05-18T00:00:00+09:00`.
    R,
    /// ISO 8601 without its zone, as in `2023-05-18 00:00:00`.
    S,
}

/// What a caller asks for: the time to convert, or none for the present; the
/// form to write it in; and whether to write the result alone.
#[derive(Debug)]
pub struct Args {
    pub time: Option<String>,
    pub format: TimeFormat,
    pub only_formatted: bool,
}

/// A request with its time settled: the text to read, the label that marks
/// a time taken from the clock, the form to write, and whether to write the
/// result alone.
#[derive(Debug, PartialEq)]
pub struct ConvertArgs {
    pub time: String,
    pub label: String,
    pub format: TimeFormat,
    pub only_formatted: bool,
}

/// The mathematical value of [`Args`].
pub ghost struct Request {
    pub time: Option<Seq<char>>,
    pub format: TimeFormat,
    pub only_formatted: bool,
}

/// The mathematical value of [`ConvertArgs`].
pub ghost struct Settled {
    pub time: Seq<char>,
    pub label: Seq<char>,
    pub format: TimeFormat,
    pub only_formatted: bool,
}

impl View for Args {
    type V = Request;

    open spec fn view(&self) -> Request {
        Request {
            time: match self.time {
                Some(text) => Some(text@),
                None => None,
            },
            format: self.format,
            only_formatted: self.only_formatted,
        }
    }
}

impl View for ConvertArgs {
    type V = Settled;

    open spec fn view(&self) -> Settled {
        Settled {
            time: self.time@,
            label: self.label@,
            format: self.format,
            only_formatted: self.only_formatted,
        }
    }
}

impl TimeFormat {
    /// `time` written in this form.
    pub open spec fn rendered(self, time: Moment) -> Seq<char> {
        match self {
            TimeFormat::E => integer_text(epoch_millis::millis_of(time)),
            TimeFormat::R => rfc3339::text_of(time),
            TimeFormat::S => iso8601_simplified::text_of(time),
        }
    }

    /// `time` written in this form.
    pub fn handle(&self, time: Instant) -> (r: String)
        ensures
            r@ == self.rendered(time@),
    {
        match self {
            TimeFormat::E => write_integer(epoch_millis::format(time)),
            TimeFormat::R => rfc3339::format(time),
            TimeFormat::S => iso8601_simplified::format(time),
        }
    }
}

/// Whether `text` is a count of milliseconds that an instant can hold.
pub open spec fn is_count(text: Seq<char>) -> bool {
    integer_reading(text) is Some && epoch_millis::in_range(integer_reading(text).unwrap())
}

/// The instant that `text` names, by the first of the three forms that it
/// fits: a count of milliseconds, then RFC 3339, then local time in the zone
/// in which `now` is shown. Text that fits none of them is of no known form.
pub open spec fn detected(text: Seq<char>, now: Moment) -> Result<Moment, Failure> {
    if is_count(text) {
        Ok(epoch_millis::moment_of(integer_reading(text).unwrap()))
    } else if rfc3339::moment_of(text) is Some {
        Ok(rfc3339::moment_of(text).unwrap())
    } else if iso8601_simplified::moment_of(text, now) is Some {
        Ok(iso8601_simplified::moment_of(text, now).unwrap())
    } else {
        Err(Failure::UnrecognizedFormat(text))
    }
}

/// The request with its time settled: the text as given and no label, or,
/// where none was given, `now` as local time and the label ` now`.
pub open spec fn settled(request: Request, now: Moment) -> Settled {
    Settled {
        time: match request.time {
            Some(text) => text,
            None => iso8601_simplified::text_of(now),
        },
        label: match request.time {
            Some(_) => ""@,
            None => " now"@,
        },
        format: request.format,
        only_formatted: request.only_formatted,
    }
}

/// The line that reports a conversion: the result alone where that was asked
/// for, else the text that was read, its label, an arrow and the result.
pub open spec fn result_line(args: Settled, formatted: Seq<char>) -> Seq<char> {
    if args.only_formatted {
        formatted
    } else {
        args.time + args.label + " -> "@ + formatted
    }
}

/// The outcome of a conversion where the clock read `first` when the request
/// was settled and `second` when its text was read, and the instant is shown
/// at `offset`.
pub open spec fn converted(request: Request, first: Moment, second: Moment, offset: int) -> Result<
    Seq<char>,
    Failure,
> {
    let args = settled(request, first);
    match detected(args.time, second) {
        Ok(time) => Ok(result_line(args, args.format.rendered(time.at_offset(offset)))),
        Err(failure) => Err(failure),
    }
}

/// Whether a request is settled by its text alone: the text is given and
/// is a count of milliseconds or RFC 3339, which carry their own offset, and
/// a count of milliseconds is asked for, which shows none. Neither the clock
/// nor the zone of the machine has a part in the outcome.
pub open spec fn settled_by_text(request: Request) -> bool {
    match request.time {
        Some(text) => request.format == TimeFormat::E && (is_count(text) || rfc3339::moment_of(
            text,
        ) is Some),
        None => false,
    }
}

/// A number comes first: text that is a count of milliseconds is read as
/// that count, whatever else it could be taken for and whatever the clock
/// says.
pub proof fn lemma_count_comes_first(text: Seq<char>, now: Moment)
    requires
        is_count(text),
    ensures
        detected(text, now) == Ok::<Moment, Failure>(
            epoch_millis::moment_of(integer_reading(text).unwrap()),
        ),
{
}

/// Text that is no count and is RFC 3339 is read as RFC 3339, whatever the
/// clock says.
pub proof fn lemma_rfc3339_comes_second(text: Seq<char>, now: Moment)
    requires
        !is_count(text),
        rfc3339::moment_of(text) is Some,
    ensures
        detected(text, now) == Ok::<Moment, Failure>(rfc3339::moment_of(text).unwrap()),
{
}

/// Text that is neither a count nor RFC 3339 is read as local time, and is
/// of no known form where it is not that either.
pub proof fn lemma_simplified_comes_last(text: Seq<char>, now: Moment)
    requires
        !is_count(text),
        rfc3339::moment_of(text) is None,
    ensures
        detected(text, now) == match iso8601_simplified::moment_of(text, now) {
            Some(time) => Ok::<Moment, Failure>(time),
            None => Err::<Moment, Failure>(Failure::UnrecognizedFormat(text)),
        },
{
}

/// Detection fails in one way only: on text that fits none of the three
/// forms, with a failure that carries the text.
pub proof fn lemma_failure_carries_text(text: Seq<char>, now: Moment)
    requires
        detected(text, now) is Err,
    ensures
        detected(text, now) == Err::<Moment, Failure>(Failure::UnrecognizedFormat(text)),
        !is_count(text),
        rfc3339::moment_of(text) is None,
        iso8601_simplified::moment_of(text, now) is None,
{
}

/// What detection reads is an instant.
pub proof fn lemma_detected_is_valid(text: Seq<char>, now: Moment)
    requires
        detected(text, now) is Ok,
    ensures
        detected(text, now) matches Ok(time) && time.valid(),
{
}

/// An instant written as a count of milliseconds is detected as a count and
/// read back as the same point in time, for every instant that holds whole
/// milliseconds and lies outside a leap second.
pub proof fn lemma_count_read_back(time: Moment, now: Moment)
    requires
        time.valid(),
        time.nanos < NANOS_PER_SEC,
        time.nanos % 1_000_000 == 0,
    ensures
        detected(TimeFormat::E.rendered(time), now) matches Ok(read) && read.same_point(time),
{
    crate::decimal::lemma_read_what_was_written(epoch_millis::millis_of(time));
}

/// A count of milliseconds converts to itself: asked for a count, the
/// conversion of the text of a count that an instant can hold gives that
/// text back, on every machine and at every time.
pub proof fn lemma_count_converts_to_itself(
    count: int,
    first: Moment,
    second: Moment,
    offset: int,
)
    requires
        epoch_millis::in_range(count),
    ensures
        converted(
            Request {
                time: Some(integer_text(count)),
                format: TimeFormat::E,
                only_formatted: true,
            },
            first,
            second,
            offset,
        ) == Ok::<Seq<char>, Failure>(integer_text(count)),
{
    crate::decimal::lemma_read_what_was_written(count);
}

/// The outcome of a request that is settled by its text is the same whatever
/// the clock reads and whatever the offset of the zone.
pub proof fn lemma_settled_by_text(
    request: Request,
    first: Moment,
    second: Moment,
    offset: int,
    other_first: Moment,
    other_second: Moment,
    other_offset: int,
)
    requires
        settled_by_text(request),
    ensures
        converted(request, first, second, offset) is Ok,
        converted(request, first, second, offset) == converted(
            request,
            other_first,
            other_second,
            other_offset,
        ),
{
}

/// Finds the form of `time` and reads it: as a count of milliseconds where
/// it is a number that an instant can hold, else as RFC 3339, else as local
/// time in the zone in which `now` is shown. The instant is shown at the
/// offset of the form: UTC, the offset in the text, or that of `now`.
pub fn detect(time: &str, now: Instant) -> (r: Result<Instant, ConvertError>)
    ensures
        is_moment(r, detected(time@, now@)),
{
    match read_integer(time) {
        Some(count) => match epoch_millis::read(count) {
            Ok(t) => {
                return Ok(t);
            },
            Err(_) => {},
        },
        None => {},
    }
    match rfc3339::read(time) {
        Ok(t) => {
            return Ok(t);
        },
        Err(_) => {},
    }
    match iso8601_simplified::read(time, now) {
        Ok(t) => {
            return Ok(t);
        },
        Err(_) => {},
    }
    Err(ConvertError::UnrecognizedFormat(String::from_str(time)))
}

/// Finds the form of `time`, reads it and shows the instant in the machine's
/// zone. A number that an instant can hold is always a count of
/// milliseconds; RFC 3339 comes next; what is left is read as local time at
/// the offset that the machine's zone has at the time of the call.
pub fn parse_time(time: String) -> (r: Result<Instant, ConvertError>)
    ensures
        exists|now: Moment| #[trigger] now.valid() && is_point(r, detected(time@, now)),
        is_count(time@) ==> is_point(
            r,
            Ok(epoch_millis::moment_of(integer_reading(time@).unwrap())),
        ),
        !is_count(time@) && rfc3339::moment_of(time@) is Some ==> is_point(
            r,
            Ok(rfc3339::moment_of(time@).unwrap()),
        ),
        r is Err ==> is_point(r, Err(Failure::UnrecognizedFormat(time@))),
{
    let now: Instant = Instant::now();
    proof {
        use_type_invariant(&now);
    }
    let r: Result<Instant, ConvertError> = match detect(time.as_str(), now) {
        Ok(t) => Ok(t.to_local()),
        Err(e) => Err(e),
    };
    assert(now@.valid() && is_point(r, detected(time@, now@)));
    r
}

/// Settles the time of a request: the text as given, or, where none was
/// given, `now` written as local time, under the label ` now`.
pub fn convert_args_at(args: Args, now: Instant) -> (r: ConvertArgs)
    ensures
        r@ == settled(args@, now@),
{
    let Args { time, format, only_formatted } = args;
    match time {
        Some(text) => ConvertArgs {
            time: text,
            label: String::from_str(""),
            format,
            only_formatted,
        },
        None => ConvertArgs {
            time: iso8601_simplified::format(now),
            label: String::from_str(" now"),
            format,
            only_formatted,
        },
    }
}

/// Settles the time of a request: the text as given, or, where none was
/// given, the time by the machine's clock written as local time, under the
/// label ` now`.
pub fn convert_args(args: Args) -> (r: ConvertArgs)
    ensures
        exists|now: Moment| #[trigger] now.valid() && r@ == settled(args@, now),
        args@.time is Some ==> forall|now: Moment| r@ == #[trigger] settled(args@, now),
{
    let now: Instant = Instant::now();
    proof {
        use_type_invariant(&now);
    }
    let r: ConvertArgs = convert_args_at(args, now);
    assert(now@.valid() && r@ == settled(args@, now@));
    r
}

/// The line that reports a conversion: `formatted` alone where that was
/// asked for, else the text that was read, its label, ` -> ` and `formatted`.
pub fn generate_result(args: ConvertArgs, formatted: String) -> (r: String)
    ensures
        r@ == result_line(args@, formatted@),
{
    if args.only_formatted {
        return formatted;
    }
    let mut line: String = String::new();
    line.append(args.time.as_str());
    line.append(args.label.as_str());
    line.append(" -> ");
    line.append(formatted.as_str());
    assert(line@ =~= args@.time + args@.label + " -> "@ + formatted@);
    line
}

/// Converts as [`handle`] does, with `now` in place of the machine's clock
/// and zone: a time that is not given is `now`, local time is read at the
/// offset of `now`, and the result is shown at that offset.
pub fn handle_at(args: Args, now: Instant) -> (r: Result<String, ConvertError>)
    ensures
        is_text(r, converted(args@, now@, now@, now@.offset)),
{
    let convert_args: ConvertArgs = convert_args_at(args, now);
    match detect(convert_args.time.as_str(), now) {
        Ok(read) => {
            let formatted: String = convert_args.format.handle(read.in_zone_of(&now));
            Ok(generate_result(convert_args, formatted))
        },
        Err(e) => Err(e),
    }
}

/// Converts a time value: settles the time of the request, finds the form of
/// its text and reads it, writes the instant in the form that was asked for
/// as the machine's zone shows it, and reports the result. Text of no known
/// form is `UnrecognizedFormat`, which carries the text.
///
/// The clock is read when the request is settled and again when its text is
/// read, and the zone gives the offset at the instant that was read.
pub fn handle(args: Args) -> (r: Result<String, ConvertError>)
    ensures
        exists|first: Moment, second: Moment, offset: int|
            first.valid() && second.valid() && valid_offset(offset) && is_text(
                r,
                #[trigger] converted(args@, first, second, offset),
            ),
        settled_by_text(args@) ==> forall|first: Moment, second: Moment, offset: int|
            is_text(r, #[trigger] converted(args@, first, second, offset)),
        args@.time is Some && r is Err ==> is_text(
            r,
            Err(Failure::UnrecognizedFormat(args@.time.unwrap())),
        ),
{
    let first: Instant = Instant::now();
    let second: Instant = Instant::now();
    proof {
        use_type_invariant(&first);
        use_type_invariant(&second);
    }
    let convert_args: ConvertArgs = convert_args_at(args, first);
    match detect(convert_args.time.as_str(), second) {
        Ok(read) => {
            let local: Instant = read.to_local();
            proof {
                use_type_invariant(&local);
            }
            let formatted: String = convert_args.format.handle(local);
            let r: Result<String, ConvertError> = Ok(generate_result(convert_args, formatted));
            assert(local@ == read@.at_offset(local@.offset));
            assert(first@.valid() && second@.valid() && valid_offset(local@.offset) && is_text(
                r,
                converted(args@, first@, second@, local@.offset),
            ));
            r
        },
        Err(e) => {
            let r: Result<String, ConvertError> = Err(e);
            assert(first@.valid() && second@.valid() && valid_offset(0) && is_text(
                r,
                converted(args@, first@, second@, 0),
            ));
            r
        },
    }
}

} // verus!
