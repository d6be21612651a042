//! When the reminders go off: the two trigger minutes of every hour, and the
//! countdown to the next one.

use vstd::prelude::*;
use crate::clock::LocalTime;

verus! {

/// Which of the two recurring check-ins is due.
#[derive(Clone, Copy, Debug, PartialEq, Eq, Structural)]
pub enum CheckType {
    /// The check at minute 30 of each hour.
    HalfHour,
    /// The check at minute 55 of each hour.
    Hour,
}

/// Minute of the hour at which the half-hour check goes off.
pub const HALF_HOUR_MINUTE: u32 = 30;

/// Minute of the hour at which the hourly check goes off.
pub const HOUR_MINUTE: u32 = 55;

/// The check that goes off at minute `minute` of an hour, if any.
pub open spec fn trigger_at(minute: int) -> Option<CheckType> {
    if minute == 30 {
        Some(CheckType::HalfHour)
    } else if minute == 55 {
        Some(CheckType::Hour)
    } else {
        None
    }
}

/// The next check after minute `minute` of an hour, with the whole minutes
/// until it; from minute 55 on, the next one is at minute 30 of the next hour.
pub open spec fn next_check_at(minute: int) -> (CheckType, int) {
    if minute < 30 {
        (CheckType::HalfHour, 30 - minute)
    } else if minute < 55 {
        (CheckType::Hour, 55 - minute)
    } else {
        (CheckType::HalfHour, 90 - minute)
    }
}

impl CheckType {
    /// A human-readable name for the check.
    pub fn label(&self) -> (r: &'static str)
        ensures
            *self == CheckType::Hour ==> r@ == "One hour check"@,
            *self == CheckType::HalfHour ==> r@ == "Half hour check"@,
    {
        match self {
            CheckType::Hour => "One hour check",
            CheckType::HalfHour => "Half hour check",
        }
    }
}

/// The check whose trigger minute `now` falls on: the half-hour check at
/// minute 30, the hourly check at minute 55, none at any other minute.
pub fn check_time(now: LocalTime) -> (r: Option<CheckType>)
    ensures
        r == trigger_at(now.minute_spec()),
        now.minute_spec() == 30 <==> r == Some(CheckType::HalfHour),
        now.minute_spec() == 55 <==> r == Some(CheckType::Hour),
        r is None <==> (now.minute_spec() != 30 && now.minute_spec() != 55),
{
    let minute = now.minute();
    if minute == HALF_HOUR_MINUTE {
        Some(CheckType::HalfHour)
    } else if minute == HOUR_MINUTE {
        Some(CheckType::Hour)
    } else {
        None
    }
}

/// Which check comes next after `now`, and in how many whole minutes.
pub fn minutes_until_next_check(now: LocalTime) -> (r: (CheckType, i64))
    ensures
        (r.0, r.1 as int) == next_check_at(now.minute_spec()),
        now.minute_spec() < 30 ==> r.0 == CheckType::HalfHour && r.1 == 30 - now.minute_spec(),
        30 <= now.minute_spec() < 55 ==> r.0 == CheckType::Hour && r.1 == 55 - now.minute_spec(),
        55 <= now.minute_spec() ==> r.0 == CheckType::HalfHour && r.1 == 90 - now.minute_spec(),
        1 <= r.1 <= 35,
{
    let m = now.minute();
    if m < HALF_HOUR_MINUTE {
        (CheckType::HalfHour, (HALF_HOUR_MINUTE - m) as i64)
    } else if m < HOUR_MINUTE {
        (CheckType::Hour, (HOUR_MINUTE - m) as i64)
    } else {
        (CheckType::HalfHour, (60 - m + HALF_HOUR_MINUTE) as i64)
    }
}

/// Whole seconds from `now` until the next check goes off; never zero, since
/// a trigger minute counts toward the check after it.
pub fn seconds_until_next_check(now: LocalTime) -> (r: u64)
    ensures
        r == next_check_at(now.minute_spec()).1 * 60 - now.second_spec(),
        1 <= r <= 2100,
{
    let (_, minutes) = minutes_until_next_check(now);
    (minutes as u64) * 60 - (now.second() as u64)
}

} // verus!
