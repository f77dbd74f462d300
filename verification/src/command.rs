//! The commands of the timer and the keys that give them.

use crate::timer::Phase;
use crate::timer::PomodoroTimer;
use crate::timer::TimerModel;
use crate::timer::SECONDS_PER_MINUTE;
use vstd::prelude::*;

verus! {

/// What happened to a key. Input sources that do not tell these apart report
/// every event as `Press`.
#[derive(Clone, Copy, Debug, PartialEq, Eq, Structural)]
pub enum KeyAction {
    Press,
    Repeat,
    Release,
}

/// The key of an event: a character key, or any key that types no character.
#[derive(Clone, Copy, Debug, PartialEq, Eq, Structural)]
pub enum Key {
    Char(char),
    Other,
}

/// One event from the keyboard.
#[derive(Clone, Copy, Debug, PartialEq, Eq, Structural)]
pub struct KeyEvent {
    pub key: Key,
    pub action: KeyAction,
}

/// Everything a user can ask of the timer.
#[derive(Clone, Copy, Debug, PartialEq, Eq, Structural)]
pub enum Command {
    Quit,
    TogglePause,
    Reset,
    IncreaseFocus,
    DecreaseFocus,
    IncreaseBreak,
    DecreaseBreak,
}

/// The command bound to a character key, if any.
pub open spec fn command_of_char(c: char) -> Option<Command> {
    if c == 'q' {
        Some(Command::Quit)
    } else if c == ' ' {
        Some(Command::TogglePause)
    } else if c == 'r' {
        Some(Command::Reset)
    } else if c == 'f' {
        Some(Command::IncreaseFocus)
    } else if c == 'F' {
        Some(Command::DecreaseFocus)
    } else if c == 'b' {
        Some(Command::IncreaseBreak)
    } else if c == 'B' {
        Some(Command::DecreaseBreak)
    } else {
        None
    }
}

/// The command that a key event gives: that of its character, for a press;
/// none for a repeat, a release, or a key without a binding.
pub open spec fn command_of(event: KeyEvent) -> Option<Command> {
    match (event.action, event.key) {
        (KeyAction::Press, Key::Char(c)) => command_of_char(c),
        _ => None,
    }
}

/// One minute more than the whole minutes in `duration` seconds.
pub open spec fn increased_minutes(duration: nat) -> nat {
    duration / SECONDS_PER_MINUTE as nat + 1
}

/// One minute less than the whole minutes in `duration` seconds, but never
/// less than one minute.
pub open spec fn decreased_minutes(duration: nat) -> nat {
    if duration / SECONDS_PER_MINUTE as nat >= 2 {
        (duration / SECONDS_PER_MINUTE as nat - 1) as nat
    } else {
        1
    }
}

impl TimerModel {
    /// The state after `command` is carried out at `now`. `Quit` ends the run
    /// and leaves the timer as it is.
    pub open spec fn commanded(self, command: Command, now: nat) -> TimerModel {
        match command {
            Command::Quit => self,
            Command::TogglePause => self.toggled(now),
            Command::Reset => self.restored(now),
            Command::IncreaseFocus => self.with_focus_minutes(
                increased_minutes(self.focus_duration),
            ),
            Command::DecreaseFocus => self.with_focus_minutes(
                decreased_minutes(self.focus_duration),
            ),
            Command::IncreaseBreak => self.with_break_minutes(
                increased_minutes(self.break_duration),
            ),
            Command::DecreaseBreak => self.with_break_minutes(
                decreased_minutes(self.break_duration),
            ),
        }
    }

    /// Whether the duration that `command` would set fits the engine's
    /// counters. Only an increase can fail to.
    pub open spec fn admits(self, command: Command) -> bool {
        match command {
            Command::IncreaseFocus => increased_minutes(self.focus_duration)
                * SECONDS_PER_MINUTE as nat <= u64::MAX,
            Command::IncreaseBreak => increased_minutes(self.break_duration)
                * SECONDS_PER_MINUTE as nat <= u64::MAX,
            _ => true,
        }
    }
}

/// Increasing a duration adds exactly one minute to its whole minutes, and
/// decreasing takes exactly one off unless that would leave less than one
/// minute; a duration set by either is at least one minute.
pub proof fn lemma_minutes_change_by_one(duration: nat)
    ensures
        increased_minutes(duration) == duration / 60 + 1,
        duration / 60 >= 2 ==> decreased_minutes(duration) == duration / 60 - 1,
        duration / 60 < 2 ==> decreased_minutes(duration) == 1,
        increased_minutes(duration) >= 1,
        decreased_minutes(duration) >= 1,
{
}

/// A command changes the configured durations only by whole minutes and
/// never below one minute; `Quit`, `TogglePause` and `Reset` leave them.
pub proof fn lemma_commands_keep_a_minute(m: TimerModel, command: Command, now: nat)
    requires
        m.focus_duration >= 60,
        m.break_duration >= 60,
    ensures
        m.commanded(command, now).focus_duration >= 60,
        m.commanded(command, now).break_duration >= 60,
        m.commanded(command, now).total_cycles == m.total_cycles,
{
}

/// Maps a key event to the command it gives.
pub fn map_key(event: KeyEvent) -> (command: Option<Command>)
    ensures
        command == command_of(event),
{
    match event.action {
        KeyAction::Press => match event.key {
            Key::Char(c) => {
                if c == 'q' {
                    Some(Command::Quit)
                } else if c == ' ' {
                    Some(Command::TogglePause)
                } else if c == 'r' {
                    Some(Command::Reset)
                } else if c == 'f' {
                    Some(Command::IncreaseFocus)
                } else if c == 'F' {
                    Some(Command::DecreaseFocus)
                } else if c == 'b' {
                    Some(Command::IncreaseBreak)
                } else if c == 'B' {
                    Some(Command::DecreaseBreak)
                } else {
                    None
                }
            },
            Key::Other => None,
        },
        _ => None,
    }
}

/// Computes `increased_minutes`.
fn minutes_after_increase(duration: u64) -> (minutes: u64)
    ensures
        minutes == increased_minutes(duration as nat),
{
    duration / SECONDS_PER_MINUTE + 1
}

/// Computes `decreased_minutes`.
fn minutes_after_decrease(duration: u64) -> (minutes: u64)
    ensures
        minutes == decreased_minutes(duration as nat),
{
    let current: u64 = duration / SECONDS_PER_MINUTE;
    if current >= 2 {
        current - 1
    } else {
        1
    }
}

impl PomodoroTimer {
    /// Whether `apply` may be called with `command`: false only for an
    /// increase beyond what the engine can count.
    pub fn admits(&self, command: Command) -> (ok: bool)
        ensures
            ok == self@.admits(command),
    {
        match command {
            Command::IncreaseFocus => minutes_after_increase(self.focus_duration()) <= u64::MAX
                / SECONDS_PER_MINUTE,
            Command::IncreaseBreak => minutes_after_increase(self.break_duration()) <= u64::MAX
                / SECONDS_PER_MINUTE,
            _ => true,
        }
    }

    /// Carries out `command` at once. Returns whether the command was `Quit`,
    /// which changes nothing. Pause and reset read the clock; the moment
    /// read is the new `last_update`.
    pub fn apply(&mut self, command: Command) -> (quit: bool)
        requires
            old(self)@.admits(command),
        ensures
            final(self)@ == old(self)@.commanded(command, final(self)@.last_update),
            quit == (command == Command::Quit),
    {
        match command {
            Command::Quit => {
                return true;
            },
            Command::TogglePause => self.toggle_pause(),
            Command::Reset => self.reset(),
            Command::IncreaseFocus => {
                let minutes: u64 = minutes_after_increase(self.focus_duration());
                self.adjust_focus_time(minutes);
            },
            Command::DecreaseFocus => {
                let minutes: u64 = minutes_after_decrease(self.focus_duration());
                self.adjust_focus_time(minutes);
            },
            Command::IncreaseBreak => {
                let minutes: u64 = minutes_after_increase(self.break_duration());
                self.adjust_break_time(minutes);
            },
            Command::DecreaseBreak => {
                let minutes: u64 = minutes_after_decrease(self.break_duration());
                self.adjust_break_time(minutes);
            },
        }
        false
    }
}

} // verus!
