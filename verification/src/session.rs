//! One run of the timer as the decisions of its loop: a command takes effect
//! at once, and the accounting step is taken at most once per second of real
//! time and never while paused.
//!
//! The loop itself, which waits for keys, plays the chime and paints, is the
//! caller's. It hands each key event to [`Session::handle_key`] and calls
//! [`Session::tick`] once per frame.

use crate::clock::nanos_between;
use crate::clock::Moment;
use crate::clock::NANOS_PER_SECOND;
use crate::command::command_of;
use crate::command::map_key;
use crate::command::Command;
use crate::command::KeyEvent;
use crate::timer::Phase;
use crate::timer::PomodoroTimer;
use crate::timer::TimerModel;
use crate::timer::SECONDS_PER_MINUTE;
use vstd::prelude::*;

verus! {

/// How long the loop waits for a key before it goes on with the frame, in
/// milliseconds: short enough to stay responsive, long enough not to spin.
pub const POLL_MILLIS: u64 = 100;

/// The state of a run as mathematical values: the engine, and the moment of
/// the last accounting step that the loop asked for.
pub struct SessionModel {
    pub timer: TimerModel,
    pub last_tick: nat,
}

impl SessionModel {
    /// Whether a frame at `now` takes an accounting step: the timer is not
    /// paused and at least one second has passed since the last one.
    pub open spec fn step_due(self, now: nat) -> bool {
        self.timer.phase != Phase::Paused && nanos_between(now, self.last_tick)
            >= NANOS_PER_SECOND
    }

    /// The state after a frame at `now`.
    pub open spec fn framed(self, now: nat) -> SessionModel {
        if self.step_due(now) {
            SessionModel { timer: self.timer.ticked(now), last_tick: now }
        } else {
            self
        }
    }

    /// Whether a frame at `now` asks for a chime.
    pub open spec fn chimes_at(self, now: nat) -> bool {
        self.step_due(now) && self.timer.chimes_at(now)
    }

    /// Whether a step at any moment could be counted: a focus phase can only
    /// end while the cycle counter has room.
    pub open spec fn can_step(self) -> bool {
        self.timer.phase == Phase::Focus ==> self.timer.total_cycles < u32::MAX
    }
}

/// After a frame that took an accounting step at `now`, no frame takes
/// another before a full second has passed.
pub proof fn lemma_steps_are_a_second_apart(m: SessionModel, now: nat, later: nat)
    requires
        m.step_due(now),
        m.framed(now).step_due(later),
    ensures
        later >= now + NANOS_PER_SECOND,
{
}

/// A frame while paused changes nothing and asks for no chime.
pub proof fn lemma_paused_frames_are_idle(m: SessionModel, now: nat)
    requires
        m.timer.phase == Phase::Paused,
    ensures
        m.framed(now) == m,
        !m.chimes_at(now),
{
}

/// A run of the timer.
pub struct Session {
    timer: PomodoroTimer,
    last_tick: Moment,
}

impl View for Session {
    type V = SessionModel;

    closed spec fn view(&self) -> SessionModel {
        SessionModel { timer: self.timer@, last_tick: self.last_tick@ }
    }
}

impl Session {
    /// Starts a run with a new timer of the given phase lengths.
    pub fn new(focus_minutes: u64, break_minutes: u64) -> (session: Session)
        requires
            focus_minutes * SECONDS_PER_MINUTE <= u64::MAX,
            break_minutes * SECONDS_PER_MINUTE <= u64::MAX,
        ensures
            session@.timer == TimerModel::initial(
                focus_minutes as nat,
                break_minutes as nat,
                session@.timer.last_update,
            ),
    {
        let timer = PomodoroTimer::new(focus_minutes, break_minutes);
        let last_tick = timer.now();
        Session { timer, last_tick }
    }

    /// The engine of this run.
    pub fn timer(&self) -> (timer: &PomodoroTimer)
        ensures
            timer@ == self@.timer,
    {
        &self.timer
    }

    /// The moment of the last accounting step that a frame took, or of the
    /// start of the run.
    pub fn last_tick(&self) -> (moment: Moment)
        ensures
            moment@ == self@.last_tick,
    {
        self.last_tick
    }

    /// Whether `handle_key` may be called with `event`.
    pub fn admits_key(&self, event: KeyEvent) -> (ok: bool)
        ensures
            ok == match command_of(event) {
                Some(command) => self@.timer.admits(command),
                None => true,
            },
    {
        match map_key(event) {
            Some(command) => self.timer.admits(command),
            None => true,
        }
    }

    /// Whether `tick` may be called.
    pub fn can_step(&self) -> (ok: bool)
        ensures
            ok == self@.can_step(),
    {
        match self.timer.phase() {
            Phase::Focus => self.timer.total_cycles() < u32::MAX,
            _ => true,
        }
    }

    /// Carries out the command that `event` gives, if it gives one, and
    /// returns whether the run is to end. An event without a command changes
    /// nothing.
    pub fn handle_key(&mut self, event: KeyEvent) -> (quit: bool)
        requires
            command_of(event) matches Some(command) ==> old(self)@.timer.admits(command),
        ensures
            final(self)@.last_tick == old(self)@.last_tick,
            match command_of(event) {
                Some(command) => {
                    &&& final(self)@.timer == old(self)@.timer.commanded(
                        command,
                        final(self)@.timer.last_update,
                    )
                    &&& quit == (command == Command::Quit)
                },
                None => final(self)@ == old(self)@ && !quit,
            },
    {
        match map_key(event) {
            Some(command) => self.timer.apply(command),
            None => false,
        }
    }

    /// The decision of one frame at a given moment: takes the engine's
    /// accounting step if one is due, and returns whether a chime is to be
    /// played.
    pub fn tick_at(&mut self, now: Moment) -> (chime: bool)
        requires
            old(self)@.chimes_at(now@) ==> old(self)@.can_step(),
        ensures
            final(self)@ == old(self)@.framed(now@),
            chime == old(self)@.chimes_at(now@),
    {
        match self.timer.phase() {
            Phase::Paused => false,
            _ => {
                if now.nanos_since(&self.last_tick) >= NANOS_PER_SECOND {
                    let chime = self.timer.update_at(now);
                    self.last_tick = now;
                    chime
                } else {
                    false
                }
            },
        }
    }

    /// The decision of one frame at the present moment: reads the clock and
    /// decides as `tick_at` does there.
    pub fn tick(&mut self) -> (chime: bool)
        requires
            old(self)@.can_step(),
        ensures
            exists|now: nat|
                final(self)@ == #[trigger] old(self)@.framed(now) && chime == old(self)@.chimes_at(
                    now,
                ),
    {
        let now = self.timer.now();
        self.tick_at(now)
    }
}

} // verus!
