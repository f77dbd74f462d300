//! The timer engine: a state machine over the phases `Focus`, `Break` and
//! `Paused`, advanced by accounting steps that consume elapsed time.
//!
//! [`TimerModel`] is the mathematical state and carries the transition
//! functions; [`PomodoroTimer`] is the executable engine, and every one of its
//! operations is specified as one transition of the model.

use crate::clock::nanos_between;
use crate::clock::whole_seconds_between;
use crate::clock::Moment;
use crate::clock::MonotonicClock;
use vstd::prelude::*;

verus! {

/// Seconds in one configured minute.
pub const SECONDS_PER_MINUTE: u64 = 60;

/// How long the flash notification stays on after a transition, in
/// nanoseconds: it is cleared once more than this has passed.
pub const FLASH_NANOS: u128 = 2_000_000_000;

/// The phase of the timer. `Paused` suspends whichever phase was active and
/// does not remember which one it was.
#[derive(Clone, Copy, Debug, PartialEq, Eq, Structural)]
pub enum Phase {
    Focus,
    Break,
    Paused,
}

/// The state of the engine as mathematical values. Times are nanoseconds on
/// the engine's monotonic clock, durations and remainders are seconds.
pub struct TimerModel {
    pub focus_remaining: nat,
    pub break_remaining: nat,
    pub focus_duration: nat,
    pub break_duration: nat,
    pub phase: Phase,
    pub last_update: nat,
    pub total_cycles: nat,
    pub flash_active: bool,
    pub flash_started_at: nat,
}

impl TimerModel {
    /// The state of a timer created at `now`.
    pub open spec fn initial(focus_minutes: nat, break_minutes: nat, now: nat) -> TimerModel {
        TimerModel {
            focus_remaining: focus_minutes * SECONDS_PER_MINUTE as nat,
            break_remaining: break_minutes * SECONDS_PER_MINUTE as nat,
            focus_duration: focus_minutes * SECONDS_PER_MINUTE as nat,
            break_duration: break_minutes * SECONDS_PER_MINUTE as nat,
            phase: Phase::Focus,
            last_update: now,
            total_cycles: 0,
            flash_active: false,
            flash_started_at: now,
        }
    }

    /// Neither countdown is above its configured duration.
    pub open spec fn within_bounds(self) -> bool {
        &&& self.focus_remaining <= self.focus_duration
        &&& self.break_remaining <= self.break_duration
    }

    /// The whole seconds that an accounting step at `now` charges: the time
    /// since the last step, any fraction of a second dropped.
    pub open spec fn elapsed_at(self, now: nat) -> nat {
        whole_seconds_between(now, self.last_update)
    }

    /// Whether `elapsed` seconds use up the active phase.
    pub open spec fn completes_phase(self, elapsed: nat) -> bool {
        match self.phase {
            Phase::Focus => elapsed >= self.focus_remaining,
            Phase::Break => elapsed >= self.break_remaining,
            Phase::Paused => false,
        }
    }

    /// The state after `elapsed` seconds are charged to the active phase at
    /// `now`.
    pub open spec fn accounted(self, elapsed: nat, now: nat) -> TimerModel {
        match self.phase {
            Phase::Focus => if elapsed < self.focus_remaining {
                TimerModel { focus_remaining: (self.focus_remaining - elapsed) as nat, ..self }
            } else {
                TimerModel {
                    focus_remaining: 0,
                    phase: Phase::Break,
                    total_cycles: self.total_cycles + 1,
                    flash_active: true,
                    flash_started_at: now,
                    ..self
                }
            },
            Phase::Break => if elapsed < self.break_remaining {
                TimerModel { break_remaining: (self.break_remaining - elapsed) as nat, ..self }
            } else {
                TimerModel {
                    focus_remaining: self.focus_duration,
                    break_remaining: self.break_duration,
                    phase: Phase::Focus,
                    flash_active: true,
                    flash_started_at: now,
                    ..self
                }
            },
            Phase::Paused => self,
        }
    }

    /// Whether the flash is on at `now` although more than `FLASH_NANOS` have
    /// passed since it was set.
    pub open spec fn flash_expired(self, now: nat) -> bool {
        self.flash_active && nanos_between(now, self.flash_started_at) > FLASH_NANOS
    }

    /// The state with an expired flash cleared.
    pub open spec fn flash_settled(self, now: nat) -> TimerModel {
        TimerModel { flash_active: self.flash_active && !self.flash_expired(now), ..self }
    }

    /// The state after an accounting step taken at `now`.
    pub open spec fn ticked(self, now: nat) -> TimerModel {
        TimerModel { last_update: now, ..self }.accounted(self.elapsed_at(now), now).flash_settled(
            now,
        )
    }

    /// Whether an accounting step taken at `now` ends a phase, and so asks for
    /// a chime.
    pub open spec fn chimes_at(self, now: nat) -> bool {
        self.completes_phase(self.elapsed_at(now))
    }

    /// The state after pause is toggled at `now`.
    pub open spec fn toggled(self, now: nat) -> TimerModel {
        TimerModel {
            phase: match self.phase {
                Phase::Focus => Phase::Paused,
                Phase::Break => Phase::Paused,
                Phase::Paused => Phase::Focus,
            },
            last_update: now,
            ..self
        }
    }

    /// The state after a reset at `now`.
    pub open spec fn restored(self, now: nat) -> TimerModel {
        TimerModel {
            focus_remaining: self.focus_duration,
            break_remaining: self.break_duration,
            phase: Phase::Focus,
            last_update: now,
            flash_active: false,
            ..self
        }
    }

    /// The state after the focus phase is set to last `minutes` minutes.
    pub open spec fn with_focus_minutes(self, minutes: nat) -> TimerModel {
        let duration = minutes * SECONDS_PER_MINUTE as nat;
        TimerModel {
            focus_duration: duration,
            focus_remaining: if self.phase == Phase::Focus {
                duration
            } else {
                self.focus_remaining
            },
            ..self
        }
    }

    /// The state after the break phase is set to last `minutes` minutes.
    pub open spec fn with_break_minutes(self, minutes: nat) -> TimerModel {
        let duration = minutes * SECONDS_PER_MINUTE as nat;
        TimerModel {
            break_duration: duration,
            break_remaining: if self.phase == Phase::Break {
                duration
            } else {
                self.break_remaining
            },
            ..self
        }
    }
}

/// The timer engine.
pub struct PomodoroTimer {
    focus_remaining: u64,
    break_remaining: u64,
    focus_duration: u64,
    break_duration: u64,
    phase: Phase,
    last_update: Moment,
    total_cycles: u32,
    flash_active: bool,
    flash_started_at: Moment,
    clock: MonotonicClock,
}

impl View for PomodoroTimer {
    type V = TimerModel;

    closed spec fn view(&self) -> TimerModel {
        TimerModel {
            focus_remaining: self.focus_remaining as nat,
            break_remaining: self.break_remaining as nat,
            focus_duration: self.focus_duration as nat,
            break_duration: self.break_duration as nat,
            phase: self.phase,
            last_update: self.last_update@,
            total_cycles: self.total_cycles as nat,
            flash_active: self.flash_active,
            flash_started_at: self.flash_started_at@,
        }
    }
}

impl PomodoroTimer {
    /// Creates a timer in the focus phase with both countdowns full, and
    /// starts its clock.
    pub fn new(focus_minutes: u64, break_minutes: u64) -> (timer: PomodoroTimer)
        requires
            focus_minutes * SECONDS_PER_MINUTE <= u64::MAX,
            break_minutes * SECONDS_PER_MINUTE <= u64::MAX,
        ensures
            timer@ == TimerModel::initial(
                focus_minutes as nat,
                break_minutes as nat,
                timer@.last_update,
            ),
    {
        let clock = MonotonicClock::start();
        let now = clock.read();
        let focus_duration: u64 = focus_minutes * SECONDS_PER_MINUTE;
        let break_duration: u64 = break_minutes * SECONDS_PER_MINUTE;
        PomodoroTimer {
            focus_remaining: focus_duration,
            break_remaining: break_duration,
            focus_duration,
            break_duration,
            phase: Phase::Focus,
            last_update: now,
            total_cycles: 0,
            flash_active: false,
            flash_started_at: now,
            clock,
        }
    }

    /// The accounting step at a given moment: charges the whole seconds since
    /// the last step to the active phase, switches phase when they use it up,
    /// and clears an expired flash. Returns whether a phase ended.
    pub fn update_at(&mut self, now: Moment) -> (chime: bool)
        requires
            old(self)@.phase == Phase::Focus && old(self)@.chimes_at(now@) ==> old(
                self,
            )@.total_cycles < u32::MAX,
        ensures
            final(self)@ == old(self)@.ticked(now@),
            chime == old(self)@.chimes_at(now@),
    {
        let elapsed: u128 = now.whole_seconds_since(&self.last_update);
        self.last_update = now;
        let mut chime = false;
        match self.phase {
            Phase::Focus => {
                if self.focus_remaining as u128 > elapsed {
                    self.focus_remaining = self.focus_remaining - elapsed as u64;
                } else {
                    self.focus_remaining = 0;
                    self.phase = Phase::Break;
                    self.total_cycles = self.total_cycles + 1;
                    chime = true;
                    self.flash_active = true;
                    self.flash_started_at = now;
                }
            },
            Phase::Break => {
                if self.break_remaining as u128 > elapsed {
                    self.break_remaining = self.break_remaining - elapsed as u64;
                } else {
                    self.break_remaining = self.break_duration;
                    self.focus_remaining = self.focus_duration;
                    self.phase = Phase::Focus;
                    chime = true;
                    self.flash_active = true;
                    self.flash_started_at = now;
                }
            },
            Phase::Paused => {},
        }
        if self.flash_active && now.nanos_since(&self.flash_started_at) > FLASH_NANOS {
            self.flash_active = false;
        }
        chime
    }

    /// The accounting step at the present moment: reads the clock and takes
    /// the step of `update_at` there. The moment read is the new
    /// `last_update`.
    pub fn update(&mut self) -> (chime: bool)
        requires
            old(self)@.phase == Phase::Focus ==> old(self)@.total_cycles < u32::MAX,
        ensures
            final(self)@ == old(self)@.ticked(final(self)@.last_update),
            chime == old(self)@.chimes_at(final(self)@.last_update),
    {
        let now = self.clock.read();
        self.update_at(now)
    }

    /// Pauses a running timer, or resumes a paused one into the focus phase.
    /// The clock is read so that the time spent paused is never charged.
    pub fn toggle_pause(&mut self)
        ensures
            final(self)@ == old(self)@.toggled(final(self)@.last_update),
    {
        let now = self.clock.read();
        self.phase =
        match self.phase {
            Phase::Focus => Phase::Paused,
            Phase::Break => Phase::Paused,
            Phase::Paused => Phase::Focus,
        };
        self.last_update = now;
    }

    /// Restores both countdowns to their configured durations, returns to the
    /// focus phase and clears the flash. The cycle count stays.
    pub fn reset(&mut self)
        ensures
            final(self)@ == old(self)@.restored(final(self)@.last_update),
    {
        let now = self.clock.read();
        self.focus_remaining = self.focus_duration;
        self.break_remaining = self.break_duration;
        self.phase = Phase::Focus;
        self.last_update = now;
        self.flash_active = false;
    }

    /// Sets the focus phase to last `minutes` minutes. A focus phase that is
    /// running starts over with the new length.
    pub fn adjust_focus_time(&mut self, minutes: u64)
        requires
            minutes * SECONDS_PER_MINUTE <= u64::MAX,
        ensures
            final(self)@ == old(self)@.with_focus_minutes(minutes as nat),
    {
        self.focus_duration = minutes * SECONDS_PER_MINUTE;
        if self.phase == Phase::Focus {
            self.focus_remaining = self.focus_duration;
        }
    }

    /// Sets the break phase to last `minutes` minutes. A break phase that is
    /// running starts over with the new length.
    pub fn adjust_break_time(&mut self, minutes: u64)
        requires
            minutes * SECONDS_PER_MINUTE <= u64::MAX,
        ensures
            final(self)@ == old(self)@.with_break_minutes(minutes as nat),
    {
        self.break_duration = minutes * SECONDS_PER_MINUTE;
        if self.phase == Phase::Break {
            self.break_remaining = self.break_duration;
        }
    }

    /// Seconds left in the focus phase.
    pub fn focus_remaining(&self) -> (seconds: u64)
        ensures
            seconds == self@.focus_remaining,
    {
        self.focus_remaining
    }

    /// Seconds left in the break phase.
    pub fn break_remaining(&self) -> (seconds: u64)
        ensures
            seconds == self@.break_remaining,
    {
        self.break_remaining
    }

    /// The configured length of the focus phase in seconds.
    pub fn focus_duration(&self) -> (seconds: u64)
        ensures
            seconds == self@.focus_duration,
    {
        self.focus_duration
    }

    /// The configured length of the break phase in seconds.
    pub fn break_duration(&self) -> (seconds: u64)
        ensures
            seconds == self@.break_duration,
    {
        self.break_duration
    }

    /// The current phase.
    pub fn phase(&self) -> (phase: Phase)
        ensures
            phase == self@.phase,
    {
        self.phase
    }

    /// The moment of the last accounting step, pause, resume or reset.
    pub fn last_update(&self) -> (moment: Moment)
        ensures
            moment@ == self@.last_update,
    {
        self.last_update
    }

    /// How many focus phases have been completed.
    pub fn total_cycles(&self) -> (cycles: u32)
        ensures
            cycles == self@.total_cycles,
    {
        self.total_cycles
    }

    /// Whether the flash notification is showing.
    pub fn flash_active(&self) -> (active: bool)
        ensures
            active == self@.flash_active,
    {
        self.flash_active
    }

    /// The moment at which the flash notification was last set.
    pub fn flash_started_at(&self) -> (moment: Moment)
        ensures
            moment@ == self@.flash_started_at,
    {
        self.flash_started_at
    }

    /// Reads the timer's clock.
    pub(crate) fn now(&self) -> Moment {
        self.clock.read()
    }
}

} // verus!
