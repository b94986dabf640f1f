//! Resolving the target moment and the length of the countdown.
use vstd::prelude::*;
use crate::timeparse::{parse_time, parse_time_spec};

verus! {

pub const SECONDS_PER_DAY: u32 = 86400;

pub const NANOS_PER_SECOND: u32 = 1_000_000_000;

/// A moment on the local wall clock: a day number (day 1 is 0001-01-01 of the
/// proleptic Gregorian calendar), the second within that day, and the
/// nanosecond within that second.
#[derive(Debug, Clone, Copy, PartialEq, Eq, Structural)]
pub struct LocalDateTime {
    pub days: i32,
    pub seconds: u32,
    pub nanos: u32,
}

/// The moment as nanoseconds since the start of day 0.
pub open spec fn instant_nanos(t: LocalDateTime) -> int {
    (t.days * SECONDS_PER_DAY + t.seconds) * NANOS_PER_SECOND + t.nanos
}

/// Seconds since midnight of a valid time of day: hour under 24, minute and
/// second under 60.
pub open spec fn seconds_of_day_spec(hour: u32, minute: u32, second: u32) -> Option<u32> {
    if hour < 24 && minute < 60 && second < 60 {
        Some((hour * 3600 + minute * 60 + second) as u32)
    } else {
        None
    }
}

/// Relies on chrono's `NaiveTime::from_hms_opt`, which accepts exactly
/// hour < 24, minute < 60 and second < 60, and on the seconds since midnight
/// that such a time holds (`hour * 3600 + minute * 60 + second`).
#[verifier::external_body]
fn seconds_of_day(hour: u32, minute: u32, second: u32) -> (r: Option<u32>)
    ensures
        r == seconds_of_day_spec(hour, minute, second),
{
    match chrono::NaiveTime::from_hms_opt(hour, minute, second) {
        Some(t) => Some(chrono::Timelike::num_seconds_from_midnight(&t)),
        None => None,
    }
}

/// The target moment: `now` when no time is given, else the given time of day
/// on day `date_days`, or the message of the first thing wrong with the time.
pub open spec fn validate_datetime_spec(
    date_days: i32,
    time: Option<Seq<char>>,
    now: LocalDateTime,
) -> Result<LocalDateTime, Seq<char>> {
    match time {
        None => Ok(now),
        Some(t) => match parse_time_spec(t) {
            Err(msg) => Err(msg),
            Ok((h, m, s)) => match seconds_of_day_spec(h, m, s) {
                None => Err("Invalid time"@),
                Some(secs) => Ok(LocalDateTime { days: date_days, seconds: secs, nanos: 0 }),
            },
        },
    }
}

/// The characters of an optional string.
pub open spec fn optional_text(s: Option<&str>) -> Option<Seq<char>> {
    match s {
        Some(t) => Some(t@),
        None => None,
    }
}

/// Combines a date (as a day number) with an optional time of day written
/// `HH[:MM[:SS]]` into the target moment.
pub fn validate_datetime(date_days: i32, time: Option<&str>, now: LocalDateTime) -> (r: Result<
    LocalDateTime,
    String,
>)
    ensures
        match r {
            Ok(t) => validate_datetime_spec(date_days, optional_text(time), now) == Ok::<
                LocalDateTime,
                Seq<char>,
            >(t),
            Err(msg) => validate_datetime_spec(date_days, optional_text(time), now) == Err::<
                LocalDateTime,
                Seq<char>,
            >(msg@),
        },
{
    match time {
        None => Ok(now),
        Some(t) => match parse_time(t) {
            Err(msg) => Err(msg),
            Ok((h, m, s)) => match seconds_of_day(h, m, s) {
                None => Err(String::from_str("Invalid time")),
                Some(secs) => Ok(LocalDateTime { days: date_days, seconds: secs, nanos: 0 }),
            },
        },
    }
}

/// Why a deadline cannot be counted down to.
#[derive(Debug, Clone, Copy, PartialEq, Eq, Structural)]
pub enum DeadlineError {
    /// The deadline is not strictly later than now.
    NotInFuture,
}

/// Whole seconds from `now` to `deadline`, rounded down; an error unless the
/// deadline is strictly later than now.
pub fn compute_total_seconds(deadline: LocalDateTime, now: LocalDateTime) -> (r: Result<
    u64,
    DeadlineError,
>)
    ensures
        r is Ok <==> instant_nanos(deadline) > instant_nanos(now),
        r is Err ==> r == Err::<u64, DeadlineError>(DeadlineError::NotInFuture),
        r is Ok ==> r->Ok_0 == (instant_nanos(deadline) - instant_nanos(now)) / (
        NANOS_PER_SECOND as int),
{
    let d = instant_of(deadline);
    let n = instant_of(now);
    if d <= n {
        Err(DeadlineError::NotInFuture)
    } else {
        let diff: i128 = d - n;
        let secs: i128 = diff / (NANOS_PER_SECOND as i128);
        assert(diff / 1_000_000_000 <= 4_000_000_000_000_000) by (nonlinear_arith)
            requires 0 < diff <= 4_000_000_000_000_000_000_000_000;
        Ok(secs as u64)
    }
}

/// The moment as nanoseconds since the start of day 0.
fn instant_of(t: LocalDateTime) -> (r: i128)
    ensures
        r == instant_nanos(t),
        -2_000_000_000_000_000_000_000_000 <= r <= 2_000_000_000_000_000_000_000_000,
{
    let days = t.days as i128;
    let seconds = t.seconds as i128;
    let nanos = t.nanos as i128;
    assert(-200_000_000_000_000 <= days * 86400 <= 200_000_000_000_000) by (nonlinear_arith)
        requires -2_147_483_648 <= days <= 2_147_483_647;
    let secs: i128 = days * 86400 + seconds;
    assert(-1_000_000_000_000_000_000_000_000 <= secs * 1_000_000_000
        <= 1_000_000_000_000_000_000_000_000) by (nonlinear_arith)
        requires -300_000_000_000_000 <= secs <= 300_000_000_000_000;
    secs * 1_000_000_000 + nanos
}

} // verus!
