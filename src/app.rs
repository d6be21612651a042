//! The reminder session: the configuration, the state machine, and the
//! decisions the window asks for each frame.

use vstd::prelude::*;
use crate::clock::LocalTime;
use crate::config::Config;
use crate::reminder::{step, ReminderMachine, ReminderState};
use crate::scheduler::{next_check_at, seconds_until_next_check};

verus! {

/// What to do with the sound that is playing.
#[derive(Clone, Copy, Debug, PartialEq, Eq, Structural)]
pub enum PlaybackCommand {
    Pause,
    Resume,
}

/// A colour as red, green, blue and alpha channels.
#[derive(Clone, Copy, Debug, PartialEq, Eq, Structural)]
pub struct Rgba {
    pub r: u8,
    pub g: u8,
    pub b: u8,
    pub a: u8,
}

/// Frame interval while the window animates.
pub const ANIMATION_FRAME_MS: u64 = 33;

/// Frame interval while the window shows a countdown.
pub const COUNTDOWN_FRAME_MS: u64 = 1000;

/// How long the snooze button puts a check off.
pub const SNOOZE_SECS: u64 = 300;

/// The reminder as the window sees it: its settings and its state machine.
pub struct MentorApp {
    pub config: Config,
    pub machine: ReminderMachine,
}

impl MentorApp {
    /// A session with `config`, idle.
    pub fn new(config: Config) -> (r: MentorApp)
        ensures
            r.config == config,
            r.machine == ReminderMachine::initial(),
            r.machine.wf(),
    {
        MentorApp { config, machine: ReminderMachine::new() }
    }

    /// Where the reminder stands.
    pub fn state(&self) -> (r: ReminderState)
        ensures
            r == self.machine.state,
    {
        self.machine.state
    }

    /// Runs one tick at `now`. When an alert begins and songs are configured,
    /// returns the song to start, drawn from the configured list; otherwise
    /// none.
    pub fn update_state(&mut self, now: LocalTime) -> (song: Option<String>)
        ensures
            final(self).machine == step(old(self).machine, now).0,
            final(self).config == old(self).config,
            old(self).machine.wf() ==> final(self).machine.wf(),
            song is Some <==> (step(old(self).machine, now).1 && old(self).config.songs@.len()
                > 0),
            song matches Some(s) ==> exists|i: int|
                0 <= i < old(self).config.songs@.len() && #[trigger] old(
                    self,
                ).config.songs@[i]@ == s@,
    {
        let began = self.machine.advance(now);
        if began {
            self.config.pick_song()
        } else {
            None
        }
    }

    /// The user marks the check done; returns whether the alert was up and
    /// the sound is to stop.
    pub fn acknowledge(&mut self) -> (applied: bool)
        ensures
            final(self).config == old(self).config,
            applied == (old(self).machine.state is Active),
            applied ==> final(self).machine == (ReminderMachine {
                state: ReminderState::Idle,
                ..old(self).machine
            }),
            !applied ==> final(self).machine == old(self).machine,
            old(self).machine.wf() ==> final(self).machine.wf(),
    {
        self.machine.acknowledge()
    }

    /// The user puts the check off for `duration_secs` seconds from `now`;
    /// returns whether the alert was up and the sound is to stop.
    pub fn snooze(&mut self, now: LocalTime, duration_secs: u64) -> (applied: bool)
        requires
            now.secs + duration_secs <= u64::MAX,
        ensures
            final(self).config == old(self).config,
            applied == (old(self).machine.state is Active),
            old(self).machine.state matches ReminderState::Active(c) ==> final(self).machine == (
            ReminderMachine {
                state: ReminderState::Snoozed(c),
                snooze_until: Some(LocalTime { secs: (now.secs + duration_secs) as u64 }),
                ..old(self).machine
            }),
            !applied ==> final(self).machine == old(self).machine,
            old(self).machine.wf() ==> final(self).machine.wf(),
    {
        self.machine.snooze(now, duration_secs)
    }

    /// The pause button: while an alert is up, pauses a playing sound and
    /// resumes a paused one; in any other state it does nothing.
    pub fn toggle_playback(&self, paused: bool) -> (r: Option<PlaybackCommand>)
        ensures
            r is Some <==> self.machine.state is Active,
            r is Some ==> (r == Some(PlaybackCommand::Resume) <==> paused),
    {
        match self.machine.state {
            ReminderState::Active(_) => if paused {
                Some(PlaybackCommand::Resume)
            } else {
                Some(PlaybackCommand::Pause)
            },
            _ => None,
        }
    }

    /// The form to open for the alert that is up: the hourly form for the
    /// hourly check, the half-hour form for the half-hour check.
    pub fn form_link(&self) -> (r: Option<&String>)
        ensures
            r is Some <==> self.machine.state is Active,
            self.machine.state == ReminderState::Active(crate::scheduler::CheckType::Hour) ==> (r
                matches Some(l) && l@ == self.config.hourly_link@),
            self.machine.state == ReminderState::Active(crate::scheduler::CheckType::HalfHour) ==> (r
                matches Some(l) && l@ == self.config.thirty_link@),
    {
        match self.machine.state {
            ReminderState::Active(check) => Some(self.config.link_for(check)),
            _ => None,
        }
    }

    /// The countdown the window shows at `now`: while pending, the seconds
    /// until the next check goes off; while snoozed, the seconds until the
    /// snooze runs out (zero once it has); otherwise none.
    pub fn countdown_secs(&self, now: LocalTime) -> (r: Option<u64>)
        ensures
            self.machine.state is Pending ==> r == Some(
                (next_check_at(now.minute_spec()).1 * 60 - now.second_spec()) as u64,
            ),
            self.machine.state is Snoozed ==> (self.machine.snooze_until matches Some(until) ==> r
                == Some(
                if now.secs < until.secs {
                    (until.secs - now.secs) as u64
                } else {
                    0u64
                },
            )),
            (self.machine.state is Snoozed && self.machine.snooze_until is None) ==> r == Some(0u64),
            (self.machine.state is Idle || self.machine.state is Active) ==> r is None,
    {
        match self.machine.state {
            ReminderState::Pending(_) => Some(seconds_until_next_check(now)),
            ReminderState::Snoozed(_) => match self.machine.snooze_until {
                Some(until) => if now.is_before(&until) {
                    Some(until.secs - now.secs)
                } else {
                    Some(0)
                },
                None => Some(0),
            },
            _ => None,
        }
    }

    /// How long the window waits before drawing again: the idle and alert
    /// screens animate, the countdowns change once a second.
    pub fn repaint_interval_ms(&self) -> (r: u64)
        ensures
            (self.machine.state is Idle || self.machine.state is Active) ==> r == 33,
            (self.machine.state is Pending || self.machine.state is Snoozed) ==> r == 1000,
    {
        match self.machine.state {
            ReminderState::Idle => ANIMATION_FRAME_MS,
            ReminderState::Pending(_) => COUNTDOWN_FRAME_MS,
            ReminderState::Active(_) => ANIMATION_FRAME_MS,
            ReminderState::Snoozed(_) => COUNTDOWN_FRAME_MS,
        }
    }

    /// The complement of a colour's red, green and blue; alpha is kept.
    pub fn invert_color(color: Rgba) -> (r: Rgba)
        ensures
            r.r == 255 - color.r,
            r.g == 255 - color.g,
            r.b == 255 - color.b,
            r.a == color.a,
    {
        Rgba { r: 255 - color.r, g: 255 - color.g, b: 255 - color.b, a: color.a }
    }
}

} // verus!
