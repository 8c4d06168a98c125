use chrono::{NaiveDate, TimeZone, Utc};
use scannit_core::en1545date::{from_en1545_date, from_en1545_date_and_time, pick_instant, UtcDate, UtcDateTime};
use scannit_core::error::DecodeError;

fn utc(y: i32, mo: u32, d: u32, h: u32, mi: u32) -> UtcDateTime {
    UtcDateTime { unix_seconds: Utc.with_ymd_and_hms(y, mo, d, h, mi, 0).unwrap().timestamp() }
}

fn days_since_epoch(y: i32, m: u32, d: u32) -> u16 {
    let epoch = NaiveDate::from_ymd_opt(1997, 1, 1).unwrap();
    (NaiveDate::from_ymd_opt(y, m, d).unwrap() - epoch).num_days() as u16
}

#[test]
fn should_handle_summer_dates() {
    // 2050-06-06 in Helsinki, summer time: -3h in UTC.
    let value = from_en1545_date(19514);
    let expected = utc(2050, 6, 5, 21, 0);
    assert_eq!(value, Ok(expected));
}

#[test]
fn should_handle_winter_dates() {
    // 1997-01-01 in Helsinki: only -2h in UTC.
    let actual = from_en1545_date(0);
    let expected = utc(1996, 12, 31, 22, 0);
    assert_eq!(actual, Ok(expected));
}

#[test]
fn should_handle_summer_datetimes() {
    // 2050-06-06 2:30 in Helsinki, summer time.
    let value = from_en1545_date_and_time(19514, 150);
    let expected = utc(2050, 6, 5, 23, 30);
    assert_eq!(value, Ok(expected));
}

#[test]
fn should_handle_winter_datetimes() {
    // 1997-01-01 4:00 in Helsinki, winter time.
    let value = from_en1545_date_and_time(0, 240);
    let expected = utc(1997, 1, 1, 2, 0);
    assert_eq!(value, Ok(expected));
}

#[test]
fn gap_time_is_read_with_the_offset_before_the_gap() {
    // Clocks went from 03:00 to 04:00 on 2020-03-29; 03:30 does not exist.
    let day = days_since_epoch(2020, 3, 29);
    assert_eq!(from_en1545_date_and_time(day, 210), Ok(utc(2020, 3, 29, 1, 30)));
    assert_eq!(from_en1545_date_and_time(day, 240), Ok(utc(2020, 3, 29, 1, 0)));
}

#[test]
fn ambiguous_time_takes_the_earliest_instant() {
    // Clocks went from 04:00 back to 03:00 on 2020-10-25; 03:30 happened twice.
    let day = days_since_epoch(2020, 10, 25);
    assert_eq!(from_en1545_date_and_time(day, 210), Ok(utc(2020, 10, 25, 0, 30)));
}

#[test]
fn minutes_past_a_day_roll_over() {
    assert_eq!(from_en1545_date_and_time(0, 24 * 60), from_en1545_date(1));
}

#[test]
fn pick_instant_prefers_the_direct_reading() {
    assert_eq!(pick_instant(Some(1000), Some(5)), Ok(UtcDateTime { unix_seconds: 1000 }));
    assert_eq!(pick_instant(None, Some(1000)), Ok(UtcDateTime { unix_seconds: 4600 }));
    assert_eq!(pick_instant(None, None), Err(DecodeError::InvalidCalendarValue));
    assert_eq!(pick_instant(None, Some(i64::MAX)), Err(DecodeError::InvalidCalendarValue));
}

#[test]
fn utc_date_floors_to_the_day() {
    assert_eq!(utc(1996, 12, 31, 22, 0).date(), UtcDate { unix_days: 9861 });
    assert_eq!(UtcDateTime { unix_seconds: -1 }.date(), UtcDate { unix_days: -1 });
    assert_eq!(UtcDateTime { unix_seconds: 86400 }.date(), UtcDate { unix_days: 1 });
}
