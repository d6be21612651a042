//! Local wall-clock time, held as a plain count of seconds.

use vstd::prelude::*;

verus! {

/// Seconds in one minute.
pub const SECS_PER_MINUTE: u64 = 60;

/// Seconds in one hour.
pub const SECS_PER_HOUR: u64 = 3600;

/// Seconds in one day.
pub const SECS_PER_DAY: u64 = 86400;

/// Relies on chrono's Local::now, taken as a naive local date-time
/// (DateTime::naive_local) and counted in seconds from 1970-01-01 00:00:00
/// (NaiveDateTime::and_utc, DateTime::timestamp): the machine's clock read in
/// its time zone. Nothing is known of the value.
#[verifier::external_body]
fn local_clock_secs() -> (r: i64) {
    chrono::Local::now().naive_local().and_utc().timestamp()
}

/// A local wall-clock instant: the seconds elapsed since local midnight that
/// began day zero. Hour, minute and second of the wall clock are read off it
/// by division, so the time zone has already been applied by whoever built it.
#[derive(Clone, Copy, Debug, PartialEq, Eq, Structural)]
pub struct LocalTime {
    pub secs: u64,
}

impl LocalTime {
    /// Hour of the day, 0 to 23.
    pub open spec fn hour_spec(self) -> int {
        ((self.secs / 3600) % 24) as int
    }

    /// Minute of the hour, 0 to 59.
    pub open spec fn minute_spec(self) -> int {
        ((self.secs / 60) % 60) as int
    }

    /// Second of the minute, 0 to 59.
    pub open spec fn second_spec(self) -> int {
        (self.secs % 60) as int
    }

    pub fn new(secs: u64) -> (r: LocalTime)
        ensures
            r.secs == secs,
    {
        LocalTime { secs }
    }

    /// The instant `secs` seconds after day zero began; none for a count
    /// before it.
    pub fn from_clock_secs(secs: i64) -> (r: Option<LocalTime>)
        ensures
            r is Some <==> secs >= 0,
            r matches Some(t) ==> t.secs == secs,
    {
        if secs >= 0 {
            Some(LocalTime { secs: secs as u64 })
        } else {
            None
        }
    }

    /// The machine's local wall clock now; none when it reads before day
    /// zero.
    pub fn now() -> (r: Option<LocalTime>)
        ensures
            r matches Some(t) ==> t.secs <= i64::MAX,
    {
        LocalTime::from_clock_secs(local_clock_secs())
    }

    /// The instant at `hour:minute:second` on day `day`.
    pub fn from_hms(day: u64, hour: u64, minute: u64, second: u64) -> (r: LocalTime)
        requires
            hour < 24,
            minute < 60,
            second < 60,
            day * 86400 + hour * 3600 + minute * 60 + second <= u64::MAX,
        ensures
            r.secs == day * 86400 + hour * 3600 + minute * 60 + second,
            r.hour_spec() == hour,
            r.minute_spec() == minute,
            r.second_spec() == second,
    {
        proof {
            assert(0 <= day * 86400) by (nonlinear_arith);
        }
        let secs = day * SECS_PER_DAY + hour * SECS_PER_HOUR + minute * SECS_PER_MINUTE + second;
        proof {
            let t = hour * 3600 + minute * 60 + second;
            assert(t < 86400);
            assert((day * 86400 + t) / 3600 == day * 24 + hour) by (nonlinear_arith)
                requires
                    t == hour * 3600 + minute * 60 + second,
                    hour < 24,
                    minute < 60,
                    second < 60,
            ;
            assert((day * 24 + hour) % 24 == hour) by (nonlinear_arith)
                requires
                    hour < 24,
            ;
            assert((day * 86400 + t) / 60 == day * 1440 + hour * 60 + minute) by (nonlinear_arith)
                requires
                    t == hour * 3600 + minute * 60 + second,
                    minute < 60,
                    second < 60,
            ;
            assert((day * 1440 + hour * 60 + minute) % 60 == minute) by (nonlinear_arith)
                requires
                    minute < 60,
            ;
            assert((day * 86400 + t) % 60 == second) by (nonlinear_arith)
                requires
                    t == hour * 3600 + minute * 60 + second,
                    second < 60,
            ;
        }
        LocalTime { secs }
    }

    pub fn hour(&self) -> (r: u32)
        ensures
            r == self.hour_spec(),
    {
        ((self.secs / SECS_PER_HOUR) % 24) as u32
    }

    pub fn minute(&self) -> (r: u32)
        ensures
            r == self.minute_spec(),
    {
        ((self.secs / SECS_PER_MINUTE) % 60) as u32
    }

    pub fn second(&self) -> (r: u32)
        ensures
            r == self.second_spec(),
    {
        (self.secs % SECS_PER_MINUTE) as u32
    }

    /// This instant moved `secs` seconds later.
    pub fn plus_secs(&self, secs: u64) -> (r: LocalTime)
        requires
            self.secs + secs <= u64::MAX,
        ensures
            r.secs == self.secs + secs,
    {
        LocalTime { secs: self.secs + secs }
    }

    /// Whether this instant comes strictly before `other`.
    pub fn is_before(&self, other: &LocalTime) -> (r: bool)
        ensures
            r == (self.secs < other.secs),
    {
        self.secs < other.secs
    }
}

} // verus!
