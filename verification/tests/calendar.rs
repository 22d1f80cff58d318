use gpscandump::calendar::{AbsoluteTime, CivilDate, TimeOfDay};

fn date(year: i32, month: u32, day: u32) -> CivilDate {
    CivilDate { year, month, day }
}

fn time(hour: u32, minute: u32, second: u32, nanosecond: u32) -> TimeOfDay {
    TimeOfDay { hour, minute, second, nanosecond }
}

fn instant(seconds: i64, nanos: u32) -> AbsoluteTime {
    AbsoluteTime { seconds, nanos }
}

#[test]
fn two_digit_year_23_becomes_2023() {
    assert_eq!(date(23, 3, 15).normalized(), date(2023, 3, 15));
}

#[test]
fn two_digit_years_lie_in_one_century() {
    assert_eq!(date(0, 1, 1).normalized(), date(2000, 1, 1));
    assert_eq!(date(99, 12, 31).normalized(), date(2099, 12, 31));
    assert_eq!(date(94, 11, 19).normalized(), date(2094, 11, 19));
    assert_eq!(date(0, 2, 29).normalized(), date(2000, 2, 29));
    assert_eq!(date(96, 2, 29).normalized(), date(2096, 2, 29));
}

#[test]
fn a_date_that_cannot_move_is_kept() {
    assert_eq!(date(23, 2, 30).normalized(), date(23, 2, 30));
    assert_eq!(date(23, 13, 1).normalized(), date(23, 13, 1));
    assert_eq!(date(23, 0, 0).normalized(), date(23, 0, 0));
    assert_eq!(date(262_000, 1, 1).normalized(), date(262_000, 1, 1));
    assert_eq!(date(i32::MAX, 1, 1).normalized(), date(i32::MAX, 1, 1));
    assert_eq!(date(i32::MAX - 1999, 1, 1).normalized(), date(i32::MAX - 1999, 1, 1));
}

#[test]
fn a_fix_gives_the_instant_of_its_date_in_the_century() {
    assert_eq!(
        AbsoluteTime::of_fix(date(23, 3, 15), time(12, 35, 19, 0)),
        Some(instant(1_678_883_719, 0))
    );
    assert_eq!(
        AbsoluteTime::of_fix(date(94, 11, 19), time(22, 54, 46, 330_000_000)),
        Some(instant(3_941_045_686, 330_000_000))
    );
    assert_eq!(
        AbsoluteTime::of_fix(date(0, 2, 29), time(0, 0, 0, 0)),
        Some(instant(951_782_400, 0))
    );
}

#[test]
fn a_fix_that_the_calendar_does_not_have_gives_nothing() {
    assert_eq!(AbsoluteTime::of_fix(date(23, 2, 30), time(12, 0, 0, 0)), None);
    assert_eq!(AbsoluteTime::of_fix(date(23, 3, 15), time(24, 0, 0, 0)), None);
    assert_eq!(AbsoluteTime::of_fix(date(23, 3, 15), time(12, 60, 0, 0)), None);
    assert_eq!(AbsoluteTime::of_fix(date(23, 3, 15), time(12, 0, 60, 0)), None);
    assert_eq!(AbsoluteTime::of_fix(date(23, 3, 15), time(12, 0, 0, 1_000_000_000)), None);
    assert_eq!(AbsoluteTime::of_fix(date(23, 3, 15), time(12, 0, 59, 2_000_000_000)), None);
}

#[test]
fn a_leap_second_runs_into_the_next_second() {
    assert_eq!(
        AbsoluteTime::of_fix(date(99, 12, 31), time(23, 59, 59, 1_200_000_000)),
        Some(instant(4_102_444_800, 200_000_000))
    );
    assert_eq!(AbsoluteTime::from_parts(10, 1_999_999_999), Some(instant(11, 999_999_999)));
    assert_eq!(AbsoluteTime::from_parts(10, 999_999_999), Some(instant(10, 999_999_999)));
    assert_eq!(AbsoluteTime::from_parts(-1, 0), Some(instant(-1, 0)));
    assert_eq!(AbsoluteTime::from_parts(i64::MAX, 999_999_999), Some(instant(i64::MAX, 999_999_999)));
    assert_eq!(AbsoluteTime::from_parts(i64::MAX, 1_000_000_000), None);
}

#[test]
fn advancing_adds_the_time_between_two_readings() {
    let base = instant(100, 999_999_999);
    assert_eq!(base.advanced(52, 50), Some(instant(101, 1)));
    assert_eq!(base.advanced(50, 50), Some(base));
    assert_eq!(base.advanced(1_500_000_050, 50), Some(instant(102, 499_999_999)));
    assert_eq!(base.advanced(u64::MAX, 0), Some(instant(18_446_744_174, 709_551_614)));
}

#[test]
fn advancing_goes_back_where_the_reading_is_earlier() {
    let base = instant(100, 5);
    assert_eq!(base.advanced(0, 5), Some(instant(100, 0)));
    assert_eq!(base.advanced(0, 6), Some(instant(99, 999_999_999)));
    assert_eq!(base.advanced(0, 2_000_000_005), Some(instant(98, 0)));
    assert_eq!(instant(0, 0).advanced(0, 1), Some(instant(-1, 999_999_999)));
    assert_eq!(base.advanced(0, u64::MAX), Some(instant(-18_446_743_974, 290_448_390)));
}

#[test]
fn advancing_stops_where_the_seconds_end() {
    assert_eq!(instant(i64::MAX, 0).advanced(999_999_999, 0), Some(instant(i64::MAX, 999_999_999)));
    assert_eq!(instant(i64::MAX, 0).advanced(1_000_000_000, 0), None);
    assert_eq!(instant(i64::MIN, 0).advanced(0, 0), Some(instant(i64::MIN, 0)));
    assert_eq!(instant(i64::MIN, 0).advanced(0, 1), None);
}

#[test]
fn advancing_brings_the_nanoseconds_below_a_second() {
    assert_eq!(instant(5, 4_000_000_001).advanced(0, 0), Some(instant(9, 1)));
    assert_eq!(instant(5, 4_000_000_001).advanced(0, 2), Some(instant(8, 999_999_999)));
}

#[test]
fn unix_text_has_nine_places_behind_the_comma() {
    assert_eq!(instant(1_678_883_720, 500_000_000).unix_text(), "1678883720,500000000");
    assert_eq!(instant(1_679_574_920, 50_000_000).unix_text(), "1679574920,050000000");
    assert_eq!(instant(0, 0).unix_text(), "0,000000000");
    assert_eq!(instant(12, 5000).unix_text(), "12,000005000");
    assert_eq!(instant(12, 1).unix_text(), "12,000000001");
    assert_eq!(instant(12, 999_999_999).unix_text(), "12,999999999");
    assert_eq!(instant(i64::MAX, 1).unix_text(), "9223372036854775807,000000001");
}

#[test]
fn unix_text_reads_as_a_decimal_number() {
    for (seconds, nanos) in [(0i64, 0u32), (1_679_574_920, 50_000_000), (7, 1), (7, 999_999_999), (123_456, 120_000_000)] {
        let text = instant(seconds, nanos).unix_text().replace(',', ".");
        let read: f64 = text.parse().unwrap();
        let meant = seconds as f64 + nanos as f64 / 1e9;
        assert!((read - meant).abs() <= 1e-6 * meant.abs().max(1.0));
        let (whole, part) = text.split_once('.').unwrap();
        assert_eq!(whole.parse::<i64>().unwrap(), seconds);
        assert_eq!(part.len(), 9);
        assert_eq!(part.parse::<u32>().unwrap(), nanos);
    }
}

#[test]
fn unix_text_before_the_epoch_is_a_negative_number() {
    assert_eq!(instant(-1, 500_000_000).unix_text(), "-0,500000000");
    assert_eq!(instant(-1, 0).unix_text(), "-1,000000000");
    assert_eq!(instant(-5, 123).unix_text(), "-4,999999877");
    assert_eq!(instant(-2, 999_999_999).unix_text(), "-1,000000001");
    assert_eq!(instant(i64::MIN, 0).unix_text(), "-9223372036854775808,000000000");
    assert_eq!(instant(i64::MIN, 999_999_999).unix_text(), "-9223372036854775807,000000001");
}

#[test]
fn unix_text_counts_nanoseconds_beyond_a_second_as_seconds() {
    assert_eq!(instant(5, 1_500_000_000).unix_text(), "6,500000000");
    assert_eq!(instant(-1, 1_000_000_000).unix_text(), "0,000000000");
    assert_eq!(instant(i64::MAX, u32::MAX).unix_text(), "9223372036854775811,294967295");
}

#[test]
fn calendar_text_is_rfc_3339_in_utc() {
    assert_eq!(
        instant(1_678_883_719, 0).calendar_text(),
        Some("2023-03-15T12:35:19+00:00".to_string())
    );
    assert_eq!(
        instant(1_678_883_720, 500_000_000).calendar_text(),
        Some("2023-03-15T12:35:20.500+00:00".to_string())
    );
    assert_eq!(
        instant(3_941_045_686, 330_000_000).calendar_text(),
        Some("2094-11-19T22:54:46.330+00:00".to_string())
    );
    assert_eq!(instant(0, 1).calendar_text(), Some("1970-01-01T00:00:00.000000001+00:00".to_string()));
    assert_eq!(instant(-1, 0).calendar_text(), Some("1969-12-31T23:59:59+00:00".to_string()));
}

#[test]
fn calendar_text_ends_where_the_calendar_ends() {
    assert_eq!(instant(i64::MAX, 0).calendar_text(), None);
    assert_eq!(instant(i64::MIN, 0).calendar_text(), None);
    assert_eq!(instant(0, 1_000_000_000).calendar_text(), None);
}

#[test]
fn calendar_text_agrees_with_chrono() {
    let moment = chrono::DateTime::from_timestamp(1_678_883_719, 250_000_000).unwrap();
    assert_eq!(instant(1_678_883_719, 250_000_000).calendar_text(), Some(moment.to_rfc3339()));
    assert_eq!(moment.timestamp(), 1_678_883_719);
    assert_eq!(moment.timestamp_subsec_nanos(), 250_000_000);
}

fn leap(year: i64) -> bool {
    year.rem_euclid(4) == 0 && (year.rem_euclid(100) != 0 || year.rem_euclid(400) == 0)
}

fn has_day(year: i64, month: u32, day: u32) -> bool {
    let days = match month {
        2 => {
            if leap(year) {
                29
            } else {
                28
            }
        }
        4 | 6 | 9 | 11 => 30,
        _ => 31,
    };
    (-262_143..=262_142).contains(&year) && (1..=12).contains(&month) && 1 <= day && day <= days
}

#[test]
fn a_date_moves_exactly_if_the_calendar_has_the_day_in_both_years() {
    let years = [
        0, 1, 4, 23, 96, 99, 100, 400, 1900, 2000, 2023, -1, -4, -100, -400, -2000, -1996,
        260_141, 260_142, 260_143, 262_142, 262_143, -262_143, -262_144, -264_143, i32::MIN,
        i32::MAX, i32::MAX - 2000,
    ];
    for year in years {
        for month in 0..=13u32 {
            for day in [0u32, 1, 28, 29, 30, 31, 32] {
                let given = date(year, month, day);
                let moves = has_day(year as i64, month, day) && has_day(year as i64 + 2000, month, day);
                let expected = if moves { date(year + 2000, month, day) } else { given };
                assert_eq!(given.normalized(), expected);
                assert_eq!(
                    chrono::NaiveDate::from_ymd_opt(year, month, day).is_some(),
                    has_day(year as i64, month, day)
                );
            }
        }
    }
}

#[test]
fn a_fix_has_an_instant_exactly_if_the_calendar_has_its_day_and_time() {
    for (day_of_month, day_exists) in [(0u32, false), (1, true), (28, true), (29, false), (31, false)] {
        for (hour, minute, second, nanosecond, time_exists) in [
            (0u32, 0u32, 0u32, 0u32, true),
            (23, 59, 59, 999_999_999, true),
            (23, 59, 59, 1_999_999_999, true),
            (12, 30, 59, 1_000_000_000, true),
            (12, 30, 58, 1_000_000_000, false),
            (12, 30, 59, 2_000_000_000, false),
            (24, 0, 0, 0, false),
            (0, 60, 0, 0, false),
            (0, 0, 60, 0, false),
        ] {
            let fix = AbsoluteTime::of_fix(date(23, 2, day_of_month), time(hour, minute, second, nanosecond));
            assert_eq!(fix.is_some(), day_exists && time_exists);
        }
    }
}
