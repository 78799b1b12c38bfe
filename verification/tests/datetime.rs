use calendar::{CalendarError, Civil, DateTime};
use chrono::{NaiveDate, NaiveDateTime};

fn civil(year: i32, month: u32, day: u32, hour: u32, minute: u32, second: u32) -> Civil {
    Civil { year, month, day, hour, minute, second, nanosecond: 0 }
}

fn with_chrono(c: &Civil) -> Option<NaiveDateTime> {
    NaiveDate::from_ymd_opt(c.year, c.month, c.day)
        .and_then(|date| date.and_hms_nano_opt(c.hour, c.minute, c.second, c.nanosecond))
}

#[test]
fn a_day_that_exists_is_taken() {
    let given = civil(2024, 2, 29, 23, 59, 59);
    let moment = DateTime::from_civil(given).unwrap();
    assert_eq!(moment.civil(), given);
}

#[test]
fn a_day_that_does_not_exist_is_refused() {
    assert_eq!(DateTime::from_civil(civil(2023, 2, 29, 0, 0, 0)), None);
    assert_eq!(DateTime::from_civil(civil(2023, 4, 31, 0, 0, 0)), None);
    assert_eq!(DateTime::from_civil(civil(2024, 0, 1, 0, 0, 0)), None);
    assert_eq!(DateTime::from_civil(civil(2024, 13, 1, 0, 0, 0)), None);
    assert_eq!(DateTime::from_civil(civil(2024, 1, 0, 0, 0, 0)), None);
    assert_eq!(DateTime::from_civil(civil(2024, 1, 32, 0, 0, 0)), None);
    assert_eq!(DateTime::from_civil(civil(1900, 2, 29, 0, 0, 0)), None);
    assert!(DateTime::from_civil(civil(2000, 2, 29, 0, 0, 0)).is_some());
    assert!(DateTime::from_civil(civil(-4, 2, 29, 0, 0, 0)).is_some());
}

#[test]
fn a_time_that_does_not_exist_is_refused() {
    assert_eq!(DateTime::from_civil(civil(2024, 1, 1, 24, 0, 0)), None);
    assert_eq!(DateTime::from_civil(civil(2024, 1, 1, 0, 60, 0)), None);
    assert_eq!(DateTime::from_civil(civil(2024, 1, 1, 0, 0, 60)), None);
    let leap = Civil { nanosecond: 1_500_000_000, ..civil(2024, 1, 1, 23, 59, 59) };
    assert!(DateTime::from_civil(leap).is_some());
    let not_at_59 = Civil { nanosecond: 1_000_000_000, ..civil(2024, 1, 1, 23, 59, 58) };
    assert_eq!(DateTime::from_civil(not_at_59), None);
    let too_far = Civil { nanosecond: 2_000_000_000, ..civil(2024, 1, 1, 23, 59, 59) };
    assert_eq!(DateTime::from_civil(too_far), None);
}

#[test]
fn the_years_end_where_they_should() {
    assert!(DateTime::from_civil(civil(-262_143, 1, 1, 0, 0, 0)).is_some());
    assert_eq!(DateTime::from_civil(civil(-262_144, 12, 31, 0, 0, 0)), None);
    assert!(DateTime::from_civil(civil(262_142, 12, 31, 23, 59, 59)).is_some());
    assert_eq!(DateTime::from_civil(civil(262_143, 1, 1, 0, 0, 0)), None);
    assert_eq!(DateTime::from_civil(civil(i32::MAX, 1, 1, 0, 0, 0)), None);
    assert_eq!(DateTime::from_civil(civil(i32::MIN, 1, 1, 0, 0, 0)), None);
}

#[test]
fn validity_is_chronos_for_dates() {
    let years = [
        -262_144, -262_143, -401, -400, -100, -4, -1, 0, 1, 4, 100, 400, 1900, 1999, 2000, 2023,
        2024, 2100, 262_142, 262_143,
    ];
    for year in years {
        for month in 0..=13 {
            for day in 0..=32 {
                let c = civil(year, month, day, 12, 0, 0);
                assert_eq!(c.is_valid(), with_chrono(&c).is_some(), "{c:?}");
                assert_eq!(DateTime::from_civil(c).is_some(), c.is_valid());
            }
        }
    }
}

#[test]
fn validity_is_chronos_for_times() {
    let nanoseconds =
        [0, 1, 999_999_999, 1_000_000_000, 1_999_999_999, 2_000_000_000, u32::MAX];
    for hour in [0, 1, 23, 24, u32::MAX] {
        for minute in [0, 59, 60, u32::MAX] {
            for second in [0, 58, 59, 60, u32::MAX] {
                for nanosecond in nanoseconds {
                    let c = Civil { year: 2024, month: 6, day: 30, hour, minute, second, nanosecond };
                    assert_eq!(c.is_valid(), with_chrono(&c).is_some(), "{c:?}");
                }
            }
        }
    }
}

#[test]
fn the_order_is_chronos() {
    let mut samples: Vec<Civil> = Vec::new();
    for (year, month, day) in
        [(-262_143, 1, 1), (-1, 12, 31), (0, 1, 1), (2023, 12, 31), (2024, 1, 1), (2024, 1, 2),
            (2024, 2, 1), (2024, 12, 8), (2024, 12, 15), (262_142, 12, 31)]
    {
        for (hour, minute, second, nanosecond) in [
            (0, 0, 0, 0),
            (0, 0, 0, 1),
            (0, 0, 1, 0),
            (0, 1, 0, 0),
            (1, 0, 0, 0),
            (9, 30, 0, 0),
            (10, 0, 59, 999_999_999),
            (23, 59, 59, 999_999_999),
            (23, 59, 59, 1_000_000_000),
        ] {
            samples.push(Civil { year, month, day, hour, minute, second, nanosecond });
        }
    }
    for a in &samples {
        for b in &samples {
            let ours = DateTime::from_civil(*a).unwrap().is_before(&DateTime::from_civil(*b).unwrap());
            let theirs = with_chrono(a).unwrap() < with_chrono(b).unwrap();
            assert_eq!(ours, theirs, "{a:?} {b:?}");
        }
    }
}

#[test]
fn the_order_is_strict_and_total() {
    let a = DateTime::from_civil(civil(2024, 1, 1, 9, 0, 0)).unwrap();
    let b = DateTime::from_civil(civil(2024, 1, 1, 9, 0, 1)).unwrap();
    let c = DateTime::from_civil(civil(2025, 1, 1, 0, 0, 0)).unwrap();
    assert!(!a.is_before(&a));
    assert!(a.is_before(&b) && !b.is_before(&a));
    assert!(b.is_before(&c) && a.is_before(&c));
    // A later month outweighs an earlier day, and so on down.
    let late_day = DateTime::from_civil(civil(2024, 1, 31, 23, 0, 0)).unwrap();
    let next_month = DateTime::from_civil(civil(2024, 2, 1, 0, 0, 0)).unwrap();
    assert!(late_day.is_before(&next_month));
    assert!(!next_month.is_before(&late_day));
}

#[test]
fn a_text_is_read_as_a_date_time() {
    let moment = DateTime::parse("2024-01-01T09:00:00").unwrap();
    assert_eq!(moment.civil(), civil(2024, 1, 1, 9, 0, 0));
    let fine = DateTime::parse("2015-09-18T23:56:04.25").unwrap();
    assert_eq!(fine.civil(), Civil { nanosecond: 250_000_000, ..civil(2015, 9, 18, 23, 56, 4) });
}

#[test]
fn a_leap_second_is_read_as_second_59() {
    let moment = DateTime::parse("2015-06-30T23:59:60").unwrap();
    assert_eq!(
        moment.civil(),
        Civil { nanosecond: 1_000_000_000, ..civil(2015, 6, 30, 23, 59, 59) }
    );
}

#[test]
fn a_text_that_is_no_date_time_is_malformed_input() {
    for text in ["", "foo", "2024-01-01", "2024-01-01 09:00:00", "2024-02-30T09:00:00",
        "2024-01-01T24:00:00", "2024-01-01T09:00:00Z"]
    {
        assert_eq!(DateTime::parse(text), Err(CalendarError::MalformedInput), "{text}");
    }
}

#[test]
fn a_reading_is_taken_if_it_names_a_date_time() {
    let good = civil(2024, 1, 1, 9, 0, 0);
    assert_eq!(DateTime::from_reading(Some(good)).map(|moment| moment.civil()), Ok(good));
    assert_eq!(DateTime::from_reading(None), Err(CalendarError::MalformedInput));
    assert_eq!(
        DateTime::from_reading(Some(civil(2024, 2, 30, 9, 0, 0))),
        Err(CalendarError::MalformedInput)
    );
}

#[test]
fn a_date_time_is_shown_with_a_space() {
    let moment = DateTime::from_civil(civil(2024, 1, 1, 9, 0, 0)).unwrap();
    assert_eq!(moment.to_text(), "2024-01-01 09:00:00");
    let fine = DateTime::from_civil(Civil { nanosecond: 500_000_000, ..civil(2016, 11, 15, 7, 39, 24) });
    assert_eq!(fine.unwrap().to_text(), "2016-11-15 07:39:24.500");
}

#[test]
fn a_date_time_is_stored_with_a_t() {
    let moment = DateTime::from_civil(civil(2024, 1, 1, 9, 0, 0)).unwrap();
    assert_eq!(moment.to_iso_text(), "2024-01-01T09:00:00");
    let leap = DateTime::from_civil(Civil { nanosecond: 1_500_000_000, ..civil(2015, 6, 30, 23, 59, 59) });
    assert_eq!(leap.unwrap().to_iso_text(), "2015-06-30T23:59:60.500");
}

#[test]
fn what_is_stored_is_read_back() {
    let samples = [
        civil(2024, 1, 1, 9, 0, 0),
        civil(1, 1, 1, 0, 0, 0),
        civil(0, 12, 31, 23, 59, 59),
        civil(-1, 1, 1, 0, 0, 0),
        civil(10_000, 12, 31, 1, 2, 3),
        civil(262_142, 12, 31, 23, 59, 59),
        civil(-262_143, 1, 1, 0, 0, 0),
        Civil { nanosecond: 1, ..civil(2024, 2, 29, 12, 0, 0) },
        Civil { nanosecond: 123_456_000, ..civil(2024, 2, 29, 12, 0, 0) },
        Civil { nanosecond: 1_999_999_999, ..civil(2016, 12, 31, 23, 59, 59) },
    ];
    for sample in samples {
        let moment = DateTime::from_civil(sample).unwrap();
        let text = moment.to_iso_text();
        assert_eq!(DateTime::parse(&text), Ok(moment), "{text}");
    }
}
