use chrono::{DateTime, FixedOffset, Local, Offset, TimeZone};
use timeconv::converter::{epoch_millis, iso8601_simplified, rfc3339};
use timeconv::error::ConvertError;
use timeconv::instant::{Instant, MAX_SECS, MIN_SECS};

/// The zone nine hours east of UTC, in which the expected values are given.
fn nine_east() -> FixedOffset {
    FixedOffset::east_opt(9 * 3600).unwrap()
}

fn to_instant<Tz: TimeZone>(time: DateTime<Tz>) -> Instant {
    Instant::new(
        time.timestamp(),
        time.timestamp_subsec_nanos(),
        time.offset().fix().local_minus_utc(),
    )
    .unwrap()
}

/// Some moment of a clock that runs nine hours east of UTC.
fn nine_east_now() -> Instant {
    to_instant(nine_east().with_ymd_and_hms(2024, 02, 29, 12, 34, 56).unwrap())
}

fn parts(time: Instant) -> (i64, u32, i32) {
    (time.secs(), time.nanos(), time.offset())
}

#[test]
fn epoch_millis_test_zero() {
    let result = epoch_millis::parse(0);
    let expected = to_instant(Local.timestamp_opt(0, 0).unwrap());
    assert_eq!(result.unwrap(), expected);
    assert_eq!(parts(epoch_millis::read(0).unwrap()), (0, 0, 0));
}

#[test]
fn epoch_millis_test_normal() {
    let result = epoch_millis::parse(1684805123000);
    let expected = to_instant(nine_east().with_ymd_and_hms(2023, 05, 23, 10, 25, 23).unwrap());
    assert_eq!(result.unwrap(), expected);

    let expected_dt = 1684805123000;
    assert_eq!(
        epoch_millis::format(to_instant(
            nine_east().with_ymd_and_hms(2023, 05, 23, 10, 25, 23).unwrap()
        )),
        expected_dt
    );
}

#[test]
fn epoch_millis_test_err() {
    let result = epoch_millis::parse(1000000000000000000);
    assert!(result.is_err());
    assert_eq!(result, Err(ConvertError::OutOfRange));
    assert_eq!(epoch_millis::read(1000000000000000000), Err(ConvertError::OutOfRange));
}

#[test]
fn test_unix_epoch() {
    let expected_dt = 0;
    assert_eq!(epoch_millis::format(to_instant(Local.timestamp_opt(0, 0).unwrap())), expected_dt);
}

#[test]
fn epoch_millis_test_range() {
    let first = MIN_SECS * 1000;
    let last = MAX_SECS * 1000 + 999;
    assert_eq!(parts(epoch_millis::read(first).unwrap()), (MIN_SECS, 0, 0));
    assert_eq!(parts(epoch_millis::read(last).unwrap()), (MAX_SECS, 999_000_000, 0));
    assert_eq!(epoch_millis::read(first - 1), Err(ConvertError::OutOfRange));
    assert_eq!(epoch_millis::read(last + 1), Err(ConvertError::OutOfRange));
    assert_eq!(epoch_millis::read(i64::MIN), Err(ConvertError::OutOfRange));
    assert_eq!(epoch_millis::read(i64::MAX), Err(ConvertError::OutOfRange));
    assert_eq!(epoch_millis::format(epoch_millis::read(first).unwrap()), first);
    assert_eq!(epoch_millis::format(epoch_millis::read(last).unwrap()), last);
    assert_eq!(epoch_millis::parse(first).unwrap().secs(), MIN_SECS);
    assert_eq!(epoch_millis::parse(last).unwrap().secs(), MAX_SECS);
}

#[test]
fn epoch_millis_test_before_epoch() {
    assert_eq!(parts(epoch_millis::read(-1).unwrap()), (-1, 999_000_000, 0));
    assert_eq!(parts(epoch_millis::read(-1000).unwrap()), (-1, 0, 0));
    assert_eq!(parts(epoch_millis::read(-1001).unwrap()), (-2, 999_000_000, 0));
    assert_eq!(parts(epoch_millis::read(1999).unwrap()), (1, 999_000_000, 0));
}

#[test]
fn epoch_millis_test_cuts_off() {
    assert_eq!(epoch_millis::format(Instant::new(0, 999_999, 0).unwrap()), 0);
    assert_eq!(epoch_millis::format(Instant::new(0, 1_999_999, 0).unwrap()), 1);
    assert_eq!(epoch_millis::format(Instant::new(1, 500_000, 0).unwrap()), 1000);
    assert_eq!(epoch_millis::format(Instant::new(1, 999_500_000, 0).unwrap()), 1999);
    assert_eq!(epoch_millis::format(Instant::new(-1, 999_999_999, 0).unwrap()), -1);
    assert_eq!(epoch_millis::format(Instant::new(-1, 0, 32400).unwrap()), -1000);
    assert_eq!(epoch_millis::format(Instant::new(59, 1_000_000_000, 0).unwrap()), 60_000);
}

#[test]
fn epoch_millis_test_round_trip() {
    for millis in [0, 1, -1, 999, 1000, 1684805123000, -1684805123001, MIN_SECS * 1000] {
        let time = epoch_millis::read(millis).unwrap();
        assert_eq!(epoch_millis::format(time), millis);
        assert_eq!(epoch_millis::read(epoch_millis::format(time)).unwrap(), time);
        assert_eq!(epoch_millis::parse(epoch_millis::format(time)).unwrap(), time);
    }
}

#[test]
fn rfc3339_test_zero() {
    let result = rfc3339::parse("1970-01-01T09:00:00+09:00".to_owned());
    let expected = to_instant(Local.timestamp_opt(0, 0).unwrap());
    assert_eq!(result.unwrap(), expected);

    let result = rfc3339::format(to_instant(nine_east().timestamp_opt(0, 0).unwrap()));
    let expected = "1970-01-01T09:00:00+09:00";
    assert_eq!(result, expected);
}

#[test]
fn rfc3339_test_normal() {
    let result = rfc3339::parse("2023-05-18T00:00:00+09:00".to_owned());
    let expected = to_instant(nine_east().with_ymd_and_hms(2023, 05, 18, 00, 00, 00).unwrap());
    assert_eq!(result.unwrap(), expected);

    let result = rfc3339::format(to_instant(
        nine_east().with_ymd_and_hms(2023, 05, 18, 00, 00, 00).unwrap(),
    ));
    let expected = "2023-05-18T00:00:00+09:00";
    assert_eq!(result, expected);
}

#[test]
fn rfc3339_test_err() {
    let result = rfc3339::parse("xxxxxxx".to_owned());
    assert!(result.is_err());
    assert_eq!(result, Err(ConvertError::MalformedInput));
}

#[test]
fn rfc3339_test_read() {
    let read = rfc3339::read("2023-05-18T00:00:00+09:00").unwrap();
    assert_eq!(parts(read), (1684335600, 0, 32400));
    let read = rfc3339::read("2023-05-17T15:00:00Z").unwrap();
    assert_eq!(parts(read), (1684335600, 0, 0));
    let read = rfc3339::read("2023-05-17T09:30:00.123456789-05:30").unwrap();
    assert_eq!(parts(read), (1684335600, 123_456_789, -19800));
    let read = rfc3339::read("2016-12-31T23:59:60+00:00").unwrap();
    assert_eq!(parts(read), (1483228799, 1_000_000_000, 0));
}

#[test]
fn rfc3339_test_malformed() {
    for text in [
        "",
        "2023-05-18",
        "2023-05-18T00:00:00",
        "2023-05-18 00:00:00",
        "2023/05/18T00:00:00+09:00",
        "2023-02-30T00:00:00+09:00",
        "2023-05-18T24:00:00+09:00",
        "2023-05-18T00:00:00+09:00 ",
        "1684335600000",
    ] {
        assert_eq!(rfc3339::read(text), Err(ConvertError::MalformedInput), "{}", text);
        assert_eq!(rfc3339::parse(text.to_owned()), Err(ConvertError::MalformedInput));
    }
}

#[test]
fn rfc3339_test_format_offsets() {
    let time = Instant::new(1684335600, 0, 0).unwrap();
    assert_eq!(rfc3339::format(time), "2023-05-17T15:00:00+00:00");
    let time = Instant::new(1684335600, 0, -19800).unwrap();
    assert_eq!(rfc3339::format(time), "2023-05-17T09:30:00-05:30");
    let time = Instant::new(-1, 0, 3600).unwrap();
    assert_eq!(rfc3339::format(time), "1970-01-01T00:59:59+01:00");
}

#[test]
fn rfc3339_test_format_whole_seconds() {
    let time = Instant::new(1684335600, 123_456_789, 32400).unwrap();
    assert_eq!(rfc3339::format(time), "2023-05-18T00:00:00+09:00");
    let time = Instant::new(1684335600, 999_999_999, 32400).unwrap();
    assert_eq!(rfc3339::format(time), "2023-05-18T00:00:00+09:00");
    let time = Instant::new(1483228799, 1_250_000_000, 0).unwrap();
    assert_eq!(rfc3339::format(time), "2016-12-31T23:59:60+00:00");
}

#[test]
fn rfc3339_test_round_trip() {
    for (secs, offset) in [(0, 0), (1684335600, 32400), (-1, -3600), (951827696, 19800)] {
        let time = Instant::new(secs, 0, offset).unwrap();
        let read = rfc3339::read(&rfc3339::format(time)).unwrap();
        assert_eq!(parts(read), (secs, 0, offset));
        assert_eq!(rfc3339::parse(rfc3339::format(time)).unwrap(), time);
    }
}

#[test]
fn iso8601_simplified_test_zero() {
    let result = iso8601_simplified::read("1970-01-01 09:00:00", nine_east_now());
    let expected = to_instant(Local.timestamp_opt(0, 0).unwrap());
    assert_eq!(result.unwrap(), expected);

    let result = iso8601_simplified::format(to_instant(nine_east().timestamp_opt(0, 0).unwrap()));
    let expected = "1970-01-01 09:00:00";
    assert_eq!(result, expected);
}

#[test]
fn iso8601_simplified_test_normal() {
    let result = iso8601_simplified::read("2023-05-18 00:00:00", nine_east_now());
    let expected = to_instant(nine_east().with_ymd_and_hms(2023, 05, 18, 00, 00, 00).unwrap());
    assert_eq!(result.unwrap(), expected);

    let result = iso8601_simplified::format(to_instant(
        nine_east().with_ymd_and_hms(2023, 05, 18, 00, 00, 00).unwrap(),
    ));
    let expected = "2023-05-18 00:00:00";
    assert_eq!(result, expected);
}

#[test]
fn iso8601_simplified_test_err() {
    let result = iso8601_simplified::parse("xxxxx".to_owned());
    assert!(result.is_err());
    assert_eq!(result, Err(ConvertError::MalformedInput));
    let result = iso8601_simplified::read("xxxxx", nine_east_now());
    assert_eq!(result, Err(ConvertError::MalformedInput));
}

#[test]
fn iso8601_simplified_test_by_the_clock() {
    let now = Instant::now();
    let by_the_clock = iso8601_simplified::parse("2023-05-18 00:00:00".to_owned()).unwrap();
    let read = iso8601_simplified::read("2023-05-18 00:00:00", now).unwrap();
    assert_eq!(by_the_clock, read);
    assert_eq!(read.secs(), 1684368000 - i64::from(now.offset()));
}

#[test]
fn iso8601_simplified_test_offset_of_now() {
    let west = Instant::new(0, 0, -5 * 3600).unwrap();
    let read = iso8601_simplified::read("2023-05-18 00:00:00", west).unwrap();
    assert_eq!(parts(read), (1684386000, 0, -18000));
    let half = Instant::new(1700000000, 5, 19800).unwrap();
    let read = iso8601_simplified::read("2023-05-18 00:00:00", half).unwrap();
    assert_eq!(parts(read), (1684348200, 0, 19800));
    let utc = Instant::new(0, 0, 0).unwrap();
    let read = iso8601_simplified::read("2023-05-18 00:00:00", utc).unwrap();
    assert_eq!(parts(read), (1684368000, 0, 0));
}

#[test]
fn iso8601_simplified_test_malformed() {
    for text in [
        "",
        "2023-05-18",
        "2023-05-18T00:00:00",
        "2023-05-18 00:00",
        "2023-13-18 00:00:00",
        "2023-02-29 00:00:00",
        "2023-05-18 00:00:00 +0900",
        "2023-05-18T00:00:00+09:00",
    ] {
        assert_eq!(
            iso8601_simplified::read(text, nine_east_now()),
            Err(ConvertError::MalformedInput),
            "{}",
            text
        );
    }
}

#[test]
fn iso8601_simplified_test_format_whole_seconds() {
    let time = Instant::new(1684335600, 987_654_321, 32400).unwrap();
    assert_eq!(iso8601_simplified::format(time), "2023-05-18 00:00:00");
    let time = Instant::new(1684335600, 0, 0).unwrap();
    assert_eq!(iso8601_simplified::format(time), "2023-05-17 15:00:00");
    let time = Instant::new(-62135596800, 0, 0).unwrap();
    assert_eq!(iso8601_simplified::format(time), "0001-01-01 00:00:00");
}

#[test]
fn iso8601_simplified_test_round_trip() {
    for (secs, offset) in [(0, 0), (1684335600, 32400), (-1, -3600), (951827696, 19800)] {
        let time = Instant::new(secs, 0, offset).unwrap();
        let read = iso8601_simplified::read(&iso8601_simplified::format(time), time).unwrap();
        assert_eq!(parts(read), (secs, 0, offset));
    }
}

#[test]
fn test_format_at_the_ends_of_the_range() {
    let last = Instant::new(MAX_SECS, 999_999_999, 0).unwrap();
    assert_eq!(rfc3339::format(last), "+262142-12-31T23:59:59+00:00");
    assert_eq!(iso8601_simplified::format(last), "+262142-12-31 23:59:59");
    assert_eq!(epoch_millis::format(last), 8_210_266_876_799_999);
    let first = Instant::new(MIN_SECS, 0, 0).unwrap();
    assert_eq!(rfc3339::format(first), "-262143-01-01T00:00:00+00:00");
    assert_eq!(iso8601_simplified::format(first), "-262143-01-01 00:00:00");
    assert_eq!(epoch_millis::format(first), -8_334_601_228_800_000);
    let beyond = Instant::new(MAX_SECS, 1_999_999_999, 86399).unwrap();
    assert_eq!(rfc3339::format(beyond), "+262143-01-01T23:59:59+24:00");
    assert_eq!(iso8601_simplified::format(beyond), "+262143-01-01 23:59:59");
    let before = Instant::new(MIN_SECS, 0, -86399).unwrap();
    assert_eq!(rfc3339::format(before), "-262144-12-31T00:00:01-24:00");
    assert_eq!(iso8601_simplified::format(before), "-262144-12-31 00:00:01");
    assert_eq!(first.to_local().secs(), MIN_SECS);
    assert_eq!(last.to_local().secs(), MAX_SECS);
}

#[test]
fn rfc3339_test_years_of_more_than_four_digits_are_not_read_back() {
    let time = Instant::new(253402300800, 0, 0).unwrap();
    assert_eq!(rfc3339::format(time), "+10000-01-01T00:00:00+00:00");
    assert_eq!(rfc3339::read("+10000-01-01T00:00:00+00:00"), Err(ConvertError::MalformedInput));
    let time = Instant::new(-62167219201, 0, 0).unwrap();
    assert_eq!(rfc3339::format(time), "-0001-12-31T23:59:59+00:00");
    assert_eq!(rfc3339::read("-0001-12-31T23:59:59+00:00"), Err(ConvertError::MalformedInput));
    let time = Instant::new(253402300799, 0, 0).unwrap();
    assert_eq!(rfc3339::format(time), "9999-12-31T23:59:59+00:00");
    assert_eq!(parts(rfc3339::read("9999-12-31T23:59:59+00:00").unwrap()), (253402300799, 0, 0));
}

#[test]
fn test_offsets_are_written_to_the_minute() {
    let time = Instant::new(1684335600, 0, 12345).unwrap();
    assert_eq!(rfc3339::format(time), "2023-05-17T18:25:45+03:26");
    assert_eq!(iso8601_simplified::format(time), "2023-05-17 18:25:45");
    let read = rfc3339::read("2023-05-17T18:25:45+03:26").unwrap();
    assert_eq!(parts(read), (1684335585, 0, 12360));
    let read = iso8601_simplified::read("2023-05-17 18:25:45", time).unwrap();
    assert_eq!(parts(read), (1684335585, 0, 12360));
}
