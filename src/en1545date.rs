use chrono::TimeZone;
use chrono_tz::Europe::Helsinki;
use vstd::prelude::*;

use crate::error::DecodeError;

verus! {

/// An instant, as whole seconds since 1970-01-01T00:00:00Z.
#[derive(Debug, Clone, Copy, PartialEq, Eq, Structural)]
pub struct UtcDateTime {
    pub unix_seconds: i64,
}

/// A calendar day in UTC, as days since 1970-01-01.
#[derive(Debug, Clone, Copy, PartialEq, Eq, Structural)]
pub struct UtcDate {
    pub unix_days: i64,
}

/// EN1545 day 0, 1997-01-01 at midnight, as a wall-clock reading counted in
/// seconds from 1970-01-01 at midnight.
pub const EN1545_EPOCH_LOCAL_SECONDS: i64 = 852076800;

pub const SECONDS_PER_DAY: i64 = 86400;

pub const SECONDS_PER_MINUTE: i64 = 60;

/// The length of a daylight-saving gap in Finland.
pub const GAP_SECONDS: i64 = 3600;

/// The Helsinki wall-clock reading `days` days and `minutes` minutes after
/// the EN1545 epoch, in seconds from 1970-01-01 at midnight.
pub open spec fn local_seconds(days: u16, minutes: u16) -> int {
    EN1545_EPOCH_LOCAL_SECONDS + days * SECONDS_PER_DAY + minutes * SECONDS_PER_MINUTE
}

/// The earliest instant, in seconds since the Unix epoch, at which a clock in
/// Helsinki reads `local` (in seconds from 1970-01-01 at midnight), if any
/// does.
pub uninterp spec fn helsinki_earliest_utc(local: i64) -> Option<i64>;

/// Relies on chrono's `TimeZone::from_local_datetime` for chrono_tz's
/// `Europe::Helsinki`, and on `MappedLocalTime::earliest`: the earliest of
/// the instants at which Helsinki's clocks show the given reading, or none
/// when the reading falls in a gap.
#[verifier::external_body]
fn helsinki_to_utc(local: i64) -> (r: Option<i64>)
    ensures
        r == helsinki_earliest_utc(local),
{
    let reading = match chrono::DateTime::from_timestamp(local, 0) {
        Some(t) => t.naive_utc(),
        None => return None,
    };
    match Helsinki.from_local_datetime(&reading).earliest() {
        Some(t) => Some(t.timestamp()),
        None => None,
    }
}

/// The instant for a wall-clock reading, from the earliest instant that
/// shows it (`at`) and, for a reading that no instant shows, the earliest
/// one that shows the reading an hour before (`hour_before`): a time in the
/// spring-forward gap is read with the offset in force before the gap.
pub open spec fn resolve_instant(at: Option<i64>, hour_before: Option<i64>) -> Result<UtcDateTime, DecodeError> {
    match at {
        Some(t) => Ok(UtcDateTime { unix_seconds: t }),
        None => match hour_before {
            Some(t) => if t <= i64::MAX - GAP_SECONDS {
                Ok(UtcDateTime { unix_seconds: (t + GAP_SECONDS) as i64 })
            } else {
                Err(DecodeError::InvalidCalendarValue)
            },
            None => Err(DecodeError::InvalidCalendarValue),
        },
    }
}

/// The instant of an EN1545 day and minute count, read on Helsinki's clocks.
pub open spec fn en1545_instant(days: u16, minutes: u16) -> Result<UtcDateTime, DecodeError> {
    let local = local_seconds(days, minutes);
    resolve_instant(
        helsinki_earliest_utc(local as i64),
        helsinki_earliest_utc((local - GAP_SECONDS) as i64),
    )
}

/// Picks the instant for a wall-clock reading, as `resolve_instant` says.
pub fn pick_instant(at: Option<i64>, hour_before: Option<i64>) -> (r: Result<UtcDateTime, DecodeError>)
    ensures
        r == resolve_instant(at, hour_before),
{
    match at {
        Some(t) => Ok(UtcDateTime { unix_seconds: t }),
        None => match hour_before {
            Some(t) => if t <= i64::MAX - GAP_SECONDS {
                Ok(UtcDateTime { unix_seconds: t + GAP_SECONDS })
            } else {
                Err(DecodeError::InvalidCalendarValue)
            },
            None => Err(DecodeError::InvalidCalendarValue),
        },
    }
}

/// The instant at which Helsinki's clocks read `time` minutes past midnight
/// of the day `date` days after 1997-01-01.
pub fn from_en1545_date_and_time(date: u16, time: u16) -> (r: Result<UtcDateTime, DecodeError>)
    ensures
        r == en1545_instant(date, time),
{
    let local = EN1545_EPOCH_LOCAL_SECONDS + date as i64 * SECONDS_PER_DAY + time as i64 * SECONDS_PER_MINUTE;
    let at = helsinki_to_utc(local);
    match at {
        Some(_) => pick_instant(at, None),
        None => pick_instant(at, helsinki_to_utc(local - GAP_SECONDS)),
    }
}

/// The instant of Helsinki midnight starting the day `date` days after
/// 1997-01-01.
pub fn from_en1545_date(date: u16) -> (r: Result<UtcDateTime, DecodeError>)
    ensures
        r == en1545_instant(date, 0),
{
    from_en1545_date_and_time(date, 0)
}

/// The UTC day on which an instant falls.
pub open spec fn utc_day(unix_seconds: i64) -> int {
    unix_seconds as int / SECONDS_PER_DAY as int
}

impl UtcDateTime {
    /// The UTC calendar day of this instant.
    pub fn date(&self) -> (r: UtcDate)
        ensures
            r.unix_days == utc_day(self.unix_seconds),
    {
        let q = self.unix_seconds / SECONDS_PER_DAY;
        let rem = self.unix_seconds % SECONDS_PER_DAY;
        if rem < 0 {
            UtcDate { unix_days: q - 1 }
        } else {
            UtcDate { unix_days: q }
        }
    }
}

} // verus!
