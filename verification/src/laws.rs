//! Laws of the timer's state machine, proved of the transition functions that
//! the engine's operations are specified by.

use crate::clock::nanos_between;
use crate::timer::Phase;
use crate::timer::TimerModel;
use crate::timer::FLASH_NANOS;
use vstd::prelude::*;

verus! {

/// A new timer is in the focus phase with both countdowns full, no cycle
/// counted and no flash, and its countdowns are within bounds.
pub proof fn lemma_initial_state(focus_minutes: nat, break_minutes: nat, now: nat)
    ensures
        TimerModel::initial(focus_minutes, break_minutes, now).phase == Phase::Focus,
        TimerModel::initial(focus_minutes, break_minutes, now).focus_remaining == focus_minutes
            * 60,
        TimerModel::initial(focus_minutes, break_minutes, now).break_remaining == break_minutes
            * 60,
        TimerModel::initial(focus_minutes, break_minutes, now).total_cycles == 0,
        !TimerModel::initial(focus_minutes, break_minutes, now).flash_active,
        TimerModel::initial(focus_minutes, break_minutes, now).within_bounds(),
{
}

/// An accounting step that charges less than what is left of the running
/// phase takes exactly the charged seconds off that phase's countdown and
/// changes nothing else but `last_update` and an expired flash; it asks for
/// no chime.
pub proof fn lemma_step_within_phase(m: TimerModel, now: nat)
    requires
        m.phase == Phase::Focus && m.elapsed_at(now) < m.focus_remaining || m.phase
            == Phase::Break && m.elapsed_at(now) < m.break_remaining,
    ensures
        !m.chimes_at(now),
        m.ticked(now).phase == m.phase,
        m.phase == Phase::Focus ==> m.ticked(now).focus_remaining == m.focus_remaining
            - m.elapsed_at(now) && m.ticked(now).break_remaining == m.break_remaining,
        m.phase == Phase::Break ==> m.ticked(now).break_remaining == m.break_remaining
            - m.elapsed_at(now) && m.ticked(now).focus_remaining == m.focus_remaining,
        m.ticked(now).focus_duration == m.focus_duration,
        m.ticked(now).break_duration == m.break_duration,
        m.ticked(now).total_cycles == m.total_cycles,
        m.ticked(now).last_update == now,
        m.ticked(now).flash_started_at == m.flash_started_at,
        m.ticked(now).flash_active == (m.flash_active && !m.flash_expired(now)),
{
}

/// An accounting step in the focus phase that charges at least what is left
/// of it ends the phase: the break begins with its countdown as it stood,
/// the focus countdown is at zero, one more cycle is counted, the flash is
/// set at the moment of the step, and a chime is asked for.
pub proof fn lemma_focus_ends(m: TimerModel, now: nat)
    requires
        m.phase == Phase::Focus,
        m.elapsed_at(now) >= m.focus_remaining,
    ensures
        m.chimes_at(now),
        m.ticked(now) == (TimerModel {
            phase: Phase::Break,
            focus_remaining: 0,
            total_cycles: m.total_cycles + 1,
            flash_active: true,
            flash_started_at: now,
            last_update: now,
            ..m
        }),
{
}

/// An accounting step in the break phase that charges at least what is left
/// of it ends the phase: the focus phase begins, both countdowns are full
/// again, the cycle count stays, the flash is set at the moment of the step,
/// and a chime is asked for.
pub proof fn lemma_break_ends(m: TimerModel, now: nat)
    requires
        m.phase == Phase::Break,
        m.elapsed_at(now) >= m.break_remaining,
    ensures
        m.chimes_at(now),
        m.ticked(now) == (TimerModel {
            phase: Phase::Focus,
            focus_remaining: m.focus_duration,
            break_remaining: m.break_duration,
            flash_active: true,
            flash_started_at: now,
            last_update: now,
            ..m
        }),
{
}

/// An accounting step while paused consumes no time and asks for no chime:
/// it records the moment of the step and clears an expired flash, and
/// nothing else changes.
pub proof fn lemma_paused_step_is_idle(m: TimerModel, now: nat)
    requires
        m.phase == Phase::Paused,
    ensures
        !m.chimes_at(now),
        m.ticked(now) == (TimerModel {
            last_update: now,
            flash_active: m.flash_active && !m.flash_expired(now),
            ..m
        }),
        !m.flash_expired(now) ==> m.ticked(now) == (TimerModel { last_update: now, ..m }),
{
}

/// Toggling pause suspends a running phase and resumes a paused timer into
/// the focus phase, whichever phase was suspended; only the phase and
/// `last_update` change.
pub proof fn lemma_toggle_pause(m: TimerModel, now: nat)
    ensures
        m.phase != Phase::Paused ==> m.toggled(now).phase == Phase::Paused,
        m.phase == Phase::Paused ==> m.toggled(now).phase == Phase::Focus,
        m.toggled(now) == (TimerModel {
            phase: m.toggled(now).phase,
            last_update: now,
            ..m
        }),
{
}

/// Pausing and then resuming always lands in the focus phase, also when the
/// break phase was the one suspended.
pub proof fn lemma_resume_enters_focus(m: TimerModel, paused_at: nat, resumed_at: nat)
    requires
        m.phase != Phase::Paused,
    ensures
        m.toggled(paused_at).toggled(resumed_at).phase == Phase::Focus,
{
}

/// The time spanned by a pause is never charged: the first accounting step
/// after pause was toggled at `toggled_at` charges only the whole seconds
/// since then.
pub proof fn lemma_toggle_restarts_accounting(m: TimerModel, toggled_at: nat, now: nat)
    ensures
        m.toggled(toggled_at).elapsed_at(toggled_at) == 0,
        m.toggled(toggled_at).elapsed_at(now) == crate::clock::whole_seconds_between(
            now,
            toggled_at,
        ),
{
}

/// A reset fills both countdowns to their configured durations, enters the
/// focus phase, clears the flash and keeps the cycle count and the
/// durations.
pub proof fn lemma_reset(m: TimerModel, now: nat)
    ensures
        m.restored(now).focus_remaining == m.focus_duration,
        m.restored(now).break_remaining == m.break_duration,
        m.restored(now).phase == Phase::Focus,
        !m.restored(now).flash_active,
        m.restored(now).total_cycles == m.total_cycles,
        m.restored(now).focus_duration == m.focus_duration,
        m.restored(now).break_duration == m.break_duration,
        m.restored(now).within_bounds(),
{
}

/// Reset is idempotent: a second reset changes nothing but the recorded
/// moment, so two resets leave what the later one alone would.
pub proof fn lemma_reset_is_idempotent(m: TimerModel, first: nat, second: nat)
    ensures
        m.restored(first).restored(second) == m.restored(second),
        m.restored(first).restored(first) == m.restored(first),
{
}

/// The flash clears by itself, and exactly when it is due: after an
/// accounting step that ends no phase it is on if and only if it was on
/// before and no more than `FLASH_NANOS` have passed since it was set. A
/// step that ends a phase sets it anew at the moment of the step.
pub proof fn lemma_flash_clears_when_due(m: TimerModel, now: nat)
    ensures
        !m.chimes_at(now) ==> m.ticked(now).flash_active == (m.flash_active && nanos_between(
            now,
            m.flash_started_at,
        ) <= FLASH_NANOS),
        !m.chimes_at(now) ==> m.ticked(now).flash_started_at == m.flash_started_at,
        m.chimes_at(now) ==> m.ticked(now).flash_active && m.ticked(now).flash_started_at == now,
{
}

/// No operation other than an accounting step that ends a phase turns the
/// flash on.
pub proof fn lemma_flash_set_only_by_transition(m: TimerModel, now: nat, minutes: nat)
    requires
        !m.flash_active,
    ensures
        !m.chimes_at(now) ==> !m.ticked(now).flash_active,
        !m.toggled(now).flash_active,
        !m.restored(now).flash_active,
        !m.with_focus_minutes(minutes).flash_active,
        !m.with_break_minutes(minutes).flash_active,
{
}

/// The cycle count grows by one exactly when an accounting step ends a focus
/// phase; the end of a break and every other operation leave it.
pub proof fn lemma_cycles_count_focus_ends(m: TimerModel, now: nat, minutes: nat)
    ensures
        m.ticked(now).total_cycles == m.total_cycles + (if m.phase == Phase::Focus
            && m.chimes_at(now) {
            1nat
        } else {
            0nat
        }),
        m.toggled(now).total_cycles == m.total_cycles,
        m.restored(now).total_cycles == m.total_cycles,
        m.with_focus_minutes(minutes).total_cycles == m.total_cycles,
        m.with_break_minutes(minutes).total_cycles == m.total_cycles,
{
}

/// Accounting steps, pause toggles and resets keep both countdowns within
/// their configured durations.
pub proof fn lemma_bounds_are_kept(m: TimerModel, now: nat)
    requires
        m.within_bounds(),
    ensures
        m.ticked(now).within_bounds(),
        m.toggled(now).within_bounds(),
        m.restored(now).within_bounds(),
{
}

/// Changing a phase's length keeps the countdowns within bounds when that
/// phase is the running one, or when what is left of it fits the new length.
pub proof fn lemma_bounds_under_adjustment(m: TimerModel, minutes: nat)
    requires
        m.within_bounds(),
    ensures
        m.phase == Phase::Focus || m.focus_remaining <= minutes * 60 ==> m.with_focus_minutes(
            minutes,
        ).within_bounds(),
        m.phase == Phase::Break || m.break_remaining <= minutes * 60 ==> m.with_break_minutes(
            minutes,
        ).within_bounds(),
{
}

/// Changing the length of the running phase starts its countdown over at
/// the new length; changing the length of the other phase leaves both
/// countdowns as they are.
pub proof fn lemma_adjustment_restarts_running_phase(m: TimerModel, minutes: nat)
    ensures
        m.with_focus_minutes(minutes).focus_duration == minutes * 60,
        m.with_break_minutes(minutes).break_duration == minutes * 60,
        m.phase == Phase::Focus ==> m.with_focus_minutes(minutes).focus_remaining == minutes * 60,
        m.phase != Phase::Focus ==> m.with_focus_minutes(minutes).focus_remaining
            == m.focus_remaining,
        m.phase == Phase::Break ==> m.with_break_minutes(minutes).break_remaining == minutes * 60,
        m.phase != Phase::Break ==> m.with_break_minutes(minutes).break_remaining
            == m.break_remaining,
        m.with_focus_minutes(minutes).break_remaining == m.break_remaining,
        m.with_break_minutes(minutes).focus_remaining == m.focus_remaining,
        m.with_focus_minutes(minutes).phase == m.phase,
        m.with_break_minutes(minutes).phase == m.phase,
{
}

} // verus!
