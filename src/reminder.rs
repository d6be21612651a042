//! The reminder state machine: what one tick of the clock does to the
//! reminder, and what the user's answers to an alert do.

use vstd::prelude::*;
use crate::clock::LocalTime;
use crate::scheduler::{check_time, minutes_until_next_check, next_check_at, trigger_at, CheckType};

verus! {

/// Minutes ahead of a check during which it is shown as upcoming.
pub const PENDING_WINDOW_MINUTES: i64 = 5;

/// Where the reminder stands.
#[derive(Clone, Copy, Debug, PartialEq, Eq, Structural)]
pub enum ReminderState {
    /// No check is upcoming or due.
    Idle,
    /// A check goes off within the next few minutes.
    Pending(CheckType),
    /// A check has gone off and waits for the user.
    Active(CheckType),
    /// The user put the check off until a stored time.
    Snoozed(CheckType),
}

/// The reminder's state together with the latches that one tick reads.
#[derive(Clone, Copy, Debug, PartialEq, Eq, Structural)]
pub struct ReminderMachine {
    /// Where the reminder stands now.
    pub state: ReminderState,
    /// The state at the end of the last tick, to see an alert begin.
    pub previous_state: ReminderState,
    /// Set when an alert goes off, cleared once the clock leaves the trigger
    /// minute; keeps the alert from going off again within that minute.
    pub trigger_consumed: bool,
    /// While set and not yet reached, ticks leave the reminder alone.
    pub snooze_until: Option<LocalTime>,
}

/// Whether a snooze is set that `now` has not reached yet.
pub open spec fn snooze_holds(m: ReminderMachine, now: LocalTime) -> bool {
    m.snooze_until matches Some(until) && now.secs < until.secs
}

/// One tick at `now`: the machine after it, and whether an alert began in it,
/// which is when the sound is to start. The rules apply in this order:
/// 1. a snooze not yet reached ends the tick with nothing changed; one that
///    is reached is cleared and the reminder goes back to idle;
/// 2. off a trigger minute the latch is cleared;
/// 3. a check due in one to five minutes shows as pending, unless an alert is
///    up;
/// 4. on a trigger minute with the latch clear and no alert up, the alert for
///    that minute's check goes off and the latch is set;
/// 5. an alert began when the state is now active and differs from the state
///    the last tick ended in; the state is then recorded for the next tick.
pub open spec fn step(m: ReminderMachine, now: LocalTime) -> (ReminderMachine, bool) {
    if snooze_holds(m, now) {
        (m, false)
    } else {
        let minute = now.minute_spec();
        let trigger = trigger_at(minute);
        let s1 = if m.snooze_until is Some {
            ReminderState::Idle
        } else {
            m.state
        };
        let consumed2 = trigger is Some && m.trigger_consumed;
        let next = next_check_at(minute);
        let s3 = if 1 <= next.1 <= 5 && (s1 is Idle || s1 is Pending) {
            ReminderState::Pending(next.0)
        } else {
            s1
        };
        let fire = trigger is Some && !(s3 is Active) && !consumed2;
        let s4 = if fire {
            ReminderState::Active(trigger.unwrap())
        } else {
            s3
        };
        let began = s4 != m.previous_state && s4 is Active;
        (
            ReminderMachine {
                state: s4,
                previous_state: s4,
                trigger_consumed: consumed2 || fire,
                snooze_until: None,
            },
            began,
        )
    }
}

/// Ticks at each of `times` in turn: the machine after the last one, and how
/// many alerts began along the way.
pub open spec fn run(m: ReminderMachine, times: Seq<LocalTime>) -> (ReminderMachine, nat)
    decreases times.len(),
{
    if times.len() == 0 {
        (m, 0)
    } else {
        let (m1, began) = step(m, times[0]);
        let (m2, n) = run(m1, times.drop_first());
        (m2, n + if began {
            1nat
        } else {
            0nat
        })
    }
}

impl ReminderMachine {
    /// A snooze time is stored exactly while snoozed, and an alert that is up
    /// was already seen by the last tick.
    pub open spec fn wf(self) -> bool {
        &&& (self.state is Snoozed <==> self.snooze_until is Some)
        &&& (self.state is Active ==> self.previous_state == self.state)
    }

    /// Idle, with the latch clear and no snooze.
    pub open spec fn initial() -> ReminderMachine {
        ReminderMachine {
            state: ReminderState::Idle,
            previous_state: ReminderState::Idle,
            trigger_consumed: false,
            snooze_until: None,
        }
    }

    pub fn new() -> (r: ReminderMachine)
        ensures
            r == ReminderMachine::initial(),
            r.wf(),
    {
        ReminderMachine {
            state: ReminderState::Idle,
            previous_state: ReminderState::Idle,
            trigger_consumed: false,
            snooze_until: None,
        }
    }

    /// Runs one tick at `now`; returns whether an alert began, which is when
    /// its sound is to start.
    pub fn advance(&mut self, now: LocalTime) -> (began: bool)
        ensures
            (*final(self), began) == step(*old(self), now),
            old(self).wf() ==> final(self).wf(),
    {
        if let Some(until) = self.snooze_until {
            if now.is_before(&until) {
                return false;
            }
            self.snooze_until = None;
            self.state = ReminderState::Idle;
        }
        let trigger = check_time(now);
        if trigger.is_none() {
            self.trigger_consumed = false;
        }
        let (next, remaining) = minutes_until_next_check(now);
        if 1 <= remaining && remaining <= PENDING_WINDOW_MINUTES && matches!(
            self.state,
            ReminderState::Idle | ReminderState::Pending(_)
        ) {
            self.state = ReminderState::Pending(next);
        }
        if let Some(check) = trigger {
            if !matches!(self.state, ReminderState::Active(_)) && !self.trigger_consumed {
                self.state = ReminderState::Active(check);
                self.trigger_consumed = true;
            }
        }
        let began = self.state != self.previous_state && matches!(
            self.state,
            ReminderState::Active(_)
        );
        self.previous_state = self.state;
        began
    }

    /// The user marks the check done: an alert that is up goes back to idle.
    /// Returns whether it applied, which is when the sound is to stop; in any
    /// other state nothing changes.
    pub fn acknowledge(&mut self) -> (applied: bool)
        ensures
            applied == (old(self).state is Active),
            applied ==> final(self).state == ReminderState::Idle,
            applied ==> final(self).previous_state == old(self).previous_state,
            applied ==> final(self).trigger_consumed == old(self).trigger_consumed,
            applied ==> final(self).snooze_until == old(self).snooze_until,
            !applied ==> *final(self) == *old(self),
            old(self).wf() ==> final(self).wf(),
    {
        if matches!(self.state, ReminderState::Active(_)) {
            self.state = ReminderState::Idle;
            true
        } else {
            false
        }
    }

    /// The user puts the check off for `duration_secs` seconds from `now`: an
    /// alert that is up becomes snoozed until then. Returns whether it
    /// applied, which is when the sound is to stop; in any other state nothing
    /// changes.
    pub fn snooze(&mut self, now: LocalTime, duration_secs: u64) -> (applied: bool)
        requires
            now.secs + duration_secs <= u64::MAX,
        ensures
            applied == (old(self).state is Active),
            old(self).state matches ReminderState::Active(c) ==> final(self).state
                == ReminderState::Snoozed(c),
            applied ==> final(self).snooze_until == Some(
                LocalTime { secs: (now.secs + duration_secs) as u64 },
            ),
            applied ==> final(self).previous_state == old(self).previous_state,
            applied ==> final(self).trigger_consumed == old(self).trigger_consumed,
            !applied ==> *final(self) == *old(self),
            old(self).wf() ==> final(self).wf(),
    {
        match self.state {
            ReminderState::Active(check) => {
                self.state = ReminderState::Snoozed(check);
                self.snooze_until = Some(now.plus_secs(duration_secs));
                true
            },
            _ => false,
        }
    }
}

/// While a snooze holds, a tick changes nothing and sets off no alert, even
/// when it falls on a trigger minute.
pub proof fn lemma_snooze_holds_back(m: ReminderMachine, now: LocalTime)
    requires
        snooze_holds(m, now),
    ensures
        step(m, now) == (m, false),
{
}

/// Leaving a trigger minute re-arms the alert: a tick off a trigger minute
/// that no snooze holds back clears the latch, and a tick on a trigger minute
/// right after it sets off that minute's alert, unless an alert is still up.
pub proof fn lemma_latch_rearms(m: ReminderMachine, off: LocalTime, on: LocalTime)
    requires
        !snooze_holds(m, off),
        trigger_at(off.minute_spec()) is None,
        trigger_at(on.minute_spec()) is Some,
    ensures
        !step(m, off).0.trigger_consumed,
        !(step(m, off).0.state is Active) ==> step(step(m, off).0, on) == (
        ReminderMachine {
            state: ReminderState::Active(trigger_at(on.minute_spec()).unwrap()),
            previous_state: ReminderState::Active(trigger_at(on.minute_spec()).unwrap()),
            trigger_consumed: true,
            snooze_until: None,
        },
        true),
{
}

/// A tick on the minute of an alert that is up, latched and seen by the last
/// tick changes nothing.
proof fn lemma_latched_tick_is_still(m: ReminderMachine, now: LocalTime)
    requires
        m.state is Active,
        m.previous_state == m.state,
        m.trigger_consumed,
        m.snooze_until is None,
        trigger_at(now.minute_spec()) is Some,
    ensures
        step(m, now) == (m, false),
{
}

/// Once an alert has gone off, any further ticks within the same minute of
/// the hour leave the machine as it is: the alert stays up, the latch stays
/// set, and no alert begins again.
pub proof fn lemma_alert_begins_once_per_minute(
    m: ReminderMachine,
    first: LocalTime,
    later: Seq<LocalTime>,
)
    requires
        m.wf(),
        step(m, first).1,
        forall|i: int| 0 <= i < later.len() ==> #[trigger] later[i].minute_spec() == first.minute_spec(),
    ensures
        step(m, first).0.state is Active,
        step(m, first).0.trigger_consumed,
        run(step(m, first).0, later) == (step(m, first).0, 0nat),
    decreases later.len(),
{
    let m1 = step(m, first).0;
    if later.len() > 0 {
        lemma_latched_tick_is_still(m1, later[0]);
        let rest = later.drop_first();
        assert forall|i: int| 0 <= i < rest.len() implies #[trigger] rest[i].minute_spec()
            == first.minute_spec() by {
            assert(rest[i] == later[i + 1]);
        }
        lemma_alert_begins_once_per_minute(m, first, rest);
    }
}

} // verus!
