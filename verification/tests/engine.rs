use pomodoro::clock::Moment;
use pomodoro::timer::Phase;
use pomodoro::timer::PomodoroTimer;

const SECOND: u128 = 1_000_000_000;
const MILLI: u128 = 1_000_000;

fn after(timer: &PomodoroTimer, nanos: u128) -> Moment {
    Moment::from_nanos(timer.last_update().as_nanos() + nanos)
}

#[test]
fn new_timer_starts_in_focus_with_full_countdowns() {
    let timer = PomodoroTimer::new(25, 5);
    assert_eq!(timer.phase(), Phase::Focus);
    assert_eq!(timer.focus_remaining(), 1500);
    assert_eq!(timer.break_remaining(), 300);
    assert_eq!(timer.focus_duration(), 1500);
    assert_eq!(timer.break_duration(), 300);
    assert_eq!(timer.total_cycles(), 0);
    assert!(!timer.flash_active());
    assert_eq!(timer.flash_started_at().as_nanos(), timer.last_update().as_nanos());
}

#[test]
fn new_timer_accepts_zero_minutes() {
    let timer = PomodoroTimer::new(0, 0);
    assert_eq!(timer.focus_remaining(), 0);
    assert_eq!(timer.focus_duration(), 0);
    assert_eq!(timer.break_remaining(), 0);
    assert_eq!(timer.phase(), Phase::Focus);
}

#[test]
fn end_to_end_focus_then_break_then_focus() {
    let mut timer = PomodoroTimer::new(25, 5);
    assert_eq!(timer.focus_remaining(), 1500);

    let first = after(&timer, 1500 * SECOND);
    assert!(timer.update_at(first));
    assert_eq!(timer.phase(), Phase::Break);
    assert_eq!(timer.total_cycles(), 1);
    assert_eq!(timer.break_remaining(), 300);
    assert_eq!(timer.focus_remaining(), 0);

    let second = after(&timer, 300 * SECOND);
    assert!(timer.update_at(second));
    assert_eq!(timer.phase(), Phase::Focus);
    assert_eq!(timer.focus_remaining(), 1500);
    assert_eq!(timer.break_remaining(), 300);
    assert_eq!(timer.total_cycles(), 1);
}

#[test]
fn step_within_focus_takes_exactly_the_elapsed_seconds() {
    let mut timer = PomodoroTimer::new(25, 5);
    let now = after(&timer, 7 * SECOND);
    assert!(!timer.update_at(now));
    assert_eq!(timer.phase(), Phase::Focus);
    assert_eq!(timer.focus_remaining(), 1493);
    assert_eq!(timer.break_remaining(), 300);
    assert_eq!(timer.total_cycles(), 0);
    assert!(!timer.flash_active());
    assert_eq!(timer.last_update().as_nanos(), now.as_nanos());
}

#[test]
fn step_within_break_takes_exactly_the_elapsed_seconds() {
    let mut timer = PomodoroTimer::new(1, 5);
    let end_of_focus = after(&timer, 60 * SECOND);
    assert!(timer.update_at(end_of_focus));
    let now = after(&timer, 299 * SECOND);
    assert!(!timer.update_at(now));
    assert_eq!(timer.phase(), Phase::Break);
    assert_eq!(timer.break_remaining(), 1);
    assert_eq!(timer.focus_remaining(), 0);
    assert_eq!(timer.total_cycles(), 1);
}

#[test]
fn step_of_one_second_less_than_remaining_keeps_the_phase() {
    let mut timer = PomodoroTimer::new(25, 5);
    let now = after(&timer, 1499 * SECOND);
    assert!(!timer.update_at(now));
    assert_eq!(timer.phase(), Phase::Focus);
    assert_eq!(timer.focus_remaining(), 1);
}

#[test]
fn fraction_of_a_second_is_dropped_and_not_carried() {
    let mut timer = PomodoroTimer::new(25, 5);
    let first = after(&timer, 2 * SECOND + 900 * MILLI);
    assert!(!timer.update_at(first));
    assert_eq!(timer.focus_remaining(), 1498);
    assert_eq!(timer.last_update().as_nanos(), first.as_nanos());

    let second = after(&timer, 900 * MILLI);
    assert!(!timer.update_at(second));
    assert_eq!(timer.focus_remaining(), 1498);
    assert_eq!(timer.last_update().as_nanos(), second.as_nanos());

    let third = after(&timer, 999_999_999);
    assert!(!timer.update_at(third));
    assert_eq!(timer.focus_remaining(), 1498);

    let fourth = after(&timer, SECOND);
    assert!(!timer.update_at(fourth));
    assert_eq!(timer.focus_remaining(), 1497);
}

#[test]
fn step_at_an_earlier_moment_charges_nothing() {
    let mut timer = PomodoroTimer::new(25, 5);
    let later = after(&timer, 10 * SECOND);
    assert!(!timer.update_at(later));
    assert_eq!(timer.focus_remaining(), 1490);

    let earlier = Moment::from_nanos(later.as_nanos() - 5 * SECOND);
    assert!(!timer.update_at(earlier));
    assert_eq!(timer.focus_remaining(), 1490);
    assert_eq!(timer.last_update().as_nanos(), earlier.as_nanos());
}

#[test]
fn focus_ends_when_elapsed_reaches_remaining() {
    let mut timer = PomodoroTimer::new(25, 5);
    let now = after(&timer, 1500 * SECOND);
    assert!(timer.update_at(now));
    assert_eq!(timer.phase(), Phase::Break);
    assert_eq!(timer.focus_remaining(), 0);
    assert_eq!(timer.total_cycles(), 1);
    assert!(timer.flash_active());
    assert_eq!(timer.flash_started_at().as_nanos(), now.as_nanos());
}

#[test]
fn focus_ends_when_elapsed_exceeds_remaining_and_the_excess_is_not_charged() {
    let mut timer = PomodoroTimer::new(25, 5);
    let now = after(&timer, 5000 * SECOND);
    assert!(timer.update_at(now));
    assert_eq!(timer.phase(), Phase::Break);
    assert_eq!(timer.focus_remaining(), 0);
    assert_eq!(timer.break_remaining(), 300);
    assert_eq!(timer.total_cycles(), 1);
    assert!(timer.flash_active());
}

#[test]
fn break_ends_and_refills_both_countdowns() {
    let mut timer = PomodoroTimer::new(25, 5);
    let end_of_focus = after(&timer, 1500 * SECOND);
    assert!(timer.update_at(end_of_focus));
    let part = after(&timer, 100 * SECOND);
    assert!(!timer.update_at(part));
    assert_eq!(timer.break_remaining(), 200);

    let end_of_break = after(&timer, 200 * SECOND);
    assert!(timer.update_at(end_of_break));
    assert_eq!(timer.phase(), Phase::Focus);
    assert_eq!(timer.focus_remaining(), 1500);
    assert_eq!(timer.break_remaining(), 300);
    assert_eq!(timer.total_cycles(), 1);
    assert!(timer.flash_active());
    assert_eq!(timer.flash_started_at().as_nanos(), end_of_break.as_nanos());
}

#[test]
fn cycles_count_only_completed_focus_phases() {
    let mut timer = PomodoroTimer::new(1, 1);
    for round in 1..=3u32 {
        let end_of_focus = after(&timer, 60 * SECOND);
        assert!(timer.update_at(end_of_focus));
        assert_eq!(timer.phase(), Phase::Break);
        assert_eq!(timer.total_cycles(), round);
        let end_of_break = after(&timer, 60 * SECOND);
        assert!(timer.update_at(end_of_break));
        assert_eq!(timer.phase(), Phase::Focus);
        assert_eq!(timer.total_cycles(), round);
    }
}

#[test]
fn step_while_paused_consumes_nothing() {
    let mut timer = PomodoroTimer::new(25, 5);
    let running = after(&timer, 10 * SECOND);
    assert!(!timer.update_at(running));
    timer.toggle_pause();
    assert_eq!(timer.phase(), Phase::Paused);

    let now = after(&timer, 100_000 * SECOND);
    assert!(!timer.update_at(now));
    assert_eq!(timer.phase(), Phase::Paused);
    assert_eq!(timer.focus_remaining(), 1490);
    assert_eq!(timer.break_remaining(), 300);
    assert_eq!(timer.focus_duration(), 1500);
    assert_eq!(timer.break_duration(), 300);
    assert_eq!(timer.total_cycles(), 0);
    assert!(!timer.flash_active());
    assert_eq!(timer.last_update().as_nanos(), now.as_nanos());
}

#[test]
fn step_while_paused_still_clears_an_expired_flash() {
    let mut timer = PomodoroTimer::new(1, 1);
    let end_of_focus = after(&timer, 60 * SECOND);
    assert!(timer.update_at(end_of_focus));
    assert!(timer.flash_active());
    timer.toggle_pause();
    assert_eq!(timer.phase(), Phase::Paused);
    assert!(timer.flash_active());

    let now = Moment::from_nanos(end_of_focus.as_nanos() + 3 * SECOND);
    assert!(!timer.update_at(now));
    assert_eq!(timer.phase(), Phase::Paused);
    assert!(!timer.flash_active());
    assert_eq!(timer.break_remaining(), 60);
    assert_eq!(timer.total_cycles(), 1);
}

#[test]
fn toggle_pause_from_focus_pauses_and_resumes_into_focus() {
    let mut timer = PomodoroTimer::new(25, 5);
    timer.toggle_pause();
    assert_eq!(timer.phase(), Phase::Paused);
    assert_eq!(timer.focus_remaining(), 1500);
    timer.toggle_pause();
    assert_eq!(timer.phase(), Phase::Focus);
    assert_eq!(timer.focus_remaining(), 1500);
    assert_eq!(timer.total_cycles(), 0);
}

#[test]
fn toggle_pause_from_break_resumes_into_focus() {
    let mut timer = PomodoroTimer::new(25, 5);
    let end_of_focus = after(&timer, 1500 * SECOND);
    assert!(timer.update_at(end_of_focus));
    assert_eq!(timer.phase(), Phase::Break);

    timer.toggle_pause();
    assert_eq!(timer.phase(), Phase::Paused);
    timer.toggle_pause();
    assert_eq!(timer.phase(), Phase::Focus);
    assert_eq!(timer.focus_remaining(), 0);
    assert_eq!(timer.break_remaining(), 300);
    assert_eq!(timer.total_cycles(), 1);
}

#[test]
fn toggle_pause_reads_the_clock_for_last_update() {
    let mut timer = PomodoroTimer::new(25, 5);
    let created = timer.last_update().as_nanos();
    timer.toggle_pause();
    let paused = timer.last_update().as_nanos();
    assert!(paused >= created);
    timer.toggle_pause();
    assert!(timer.last_update().as_nanos() >= paused);
}

#[test]
fn reset_restores_countdowns_and_keeps_cycles() {
    let mut timer = PomodoroTimer::new(25, 5);
    let end_of_focus = after(&timer, 1500 * SECOND);
    assert!(timer.update_at(end_of_focus));
    let part = after(&timer, SECOND);
    assert!(!timer.update_at(part));
    assert_eq!(timer.break_remaining(), 299);
    assert!(timer.flash_active());

    timer.reset();
    assert_eq!(timer.phase(), Phase::Focus);
    assert_eq!(timer.focus_remaining(), 1500);
    assert_eq!(timer.break_remaining(), 300);
    assert_eq!(timer.total_cycles(), 1);
    assert!(!timer.flash_active());
}

#[test]
fn reset_twice_equals_reset_once() {
    let mut timer = PomodoroTimer::new(25, 5);
    let end_of_focus = after(&timer, 1500 * SECOND);
    assert!(timer.update_at(end_of_focus));
    timer.reset();
    let once = (
        timer.phase(),
        timer.focus_remaining(),
        timer.break_remaining(),
        timer.focus_duration(),
        timer.break_duration(),
        timer.total_cycles(),
        timer.flash_active(),
        timer.flash_started_at().as_nanos(),
    );
    timer.reset();
    let twice = (
        timer.phase(),
        timer.focus_remaining(),
        timer.break_remaining(),
        timer.focus_duration(),
        timer.break_duration(),
        timer.total_cycles(),
        timer.flash_active(),
        timer.flash_started_at().as_nanos(),
    );
    assert_eq!(once, twice);
}

#[test]
fn reset_from_paused_returns_to_focus() {
    let mut timer = PomodoroTimer::new(25, 5);
    let now = after(&timer, 30 * SECOND);
    assert!(!timer.update_at(now));
    timer.toggle_pause();
    timer.reset();
    assert_eq!(timer.phase(), Phase::Focus);
    assert_eq!(timer.focus_remaining(), 1500);
}

#[test]
fn flash_stays_on_up_to_two_seconds_and_clears_after() {
    let mut timer = PomodoroTimer::new(1, 5);
    let end_of_focus = after(&timer, 60 * SECOND);
    assert!(timer.update_at(end_of_focus));
    assert!(timer.flash_active());
    let set_at = timer.flash_started_at().as_nanos();

    assert!(!timer.update_at(Moment::from_nanos(set_at + SECOND)));
    assert!(timer.flash_active());

    assert!(!timer.update_at(Moment::from_nanos(set_at + 2 * SECOND)));
    assert!(timer.flash_active());

    assert!(!timer.update_at(Moment::from_nanos(set_at + 2 * SECOND + 1)));
    assert!(!timer.flash_active());
    assert_eq!(timer.phase(), Phase::Break);
    assert_eq!(timer.break_remaining(), 298);
}

#[test]
fn flash_outlives_steps_and_clears_without_a_transition() {
    let mut timer = PomodoroTimer::new(1, 5);
    let end_of_focus = after(&timer, 60 * SECOND);
    assert!(timer.update_at(end_of_focus));
    let set_at = end_of_focus.as_nanos();
    assert!(!timer.update_at(Moment::from_nanos(set_at + 500 * MILLI)));
    assert!(timer.flash_active());
    assert!(!timer.update_at(Moment::from_nanos(set_at + 1500 * MILLI)));
    assert!(timer.flash_active());
    assert!(!timer.update_at(Moment::from_nanos(set_at + 2500 * MILLI)));
    assert!(!timer.flash_active());
    assert!(!timer.update_at(Moment::from_nanos(set_at + 3500 * MILLI)));
    assert!(!timer.flash_active());
}

#[test]
fn adjust_focus_time_restarts_a_running_focus_phase() {
    let mut timer = PomodoroTimer::new(25, 5);
    let now = after(&timer, 100 * SECOND);
    assert!(!timer.update_at(now));
    assert_eq!(timer.focus_remaining(), 1400);

    timer.adjust_focus_time(30);
    assert_eq!(timer.focus_duration(), 1800);
    assert_eq!(timer.focus_remaining(), 1800);
    assert_eq!(timer.break_duration(), 300);
    assert_eq!(timer.break_remaining(), 300);
    assert_eq!(timer.phase(), Phase::Focus);
}

#[test]
fn adjust_focus_time_outside_focus_waits_for_the_next_focus_phase() {
    let mut timer = PomodoroTimer::new(25, 5);
    let end_of_focus = after(&timer, 1500 * SECOND);
    assert!(timer.update_at(end_of_focus));
    timer.adjust_focus_time(10);
    assert_eq!(timer.focus_duration(), 600);
    assert_eq!(timer.focus_remaining(), 0);

    let end_of_break = after(&timer, 300 * SECOND);
    assert!(timer.update_at(end_of_break));
    assert_eq!(timer.focus_remaining(), 600);
}

#[test]
fn adjust_break_time_restarts_a_running_break_phase() {
    let mut timer = PomodoroTimer::new(25, 5);
    let end_of_focus = after(&timer, 1500 * SECOND);
    assert!(timer.update_at(end_of_focus));
    let part = after(&timer, 100 * SECOND);
    assert!(!timer.update_at(part));
    assert_eq!(timer.break_remaining(), 200);

    timer.adjust_break_time(7);
    assert_eq!(timer.break_duration(), 420);
    assert_eq!(timer.break_remaining(), 420);
    assert_eq!(timer.phase(), Phase::Break);
}

#[test]
fn adjust_break_time_outside_break_leaves_the_countdown() {
    let mut timer = PomodoroTimer::new(25, 5);
    timer.adjust_break_time(1);
    assert_eq!(timer.break_duration(), 60);
    assert_eq!(timer.break_remaining(), 300);
    assert_eq!(timer.focus_remaining(), 1500);

    let end_of_focus = after(&timer, 1500 * SECOND);
    assert!(timer.update_at(end_of_focus));
    assert_eq!(timer.break_remaining(), 300);
    let end_of_break = after(&timer, 300 * SECOND);
    assert!(timer.update_at(end_of_break));
    assert_eq!(timer.break_remaining(), 60);
}

#[test]
fn adjust_while_paused_changes_only_the_duration() {
    let mut timer = PomodoroTimer::new(25, 5);
    timer.toggle_pause();
    timer.adjust_focus_time(1);
    timer.adjust_break_time(2);
    assert_eq!(timer.focus_duration(), 60);
    assert_eq!(timer.focus_remaining(), 1500);
    assert_eq!(timer.break_duration(), 120);
    assert_eq!(timer.break_remaining(), 300);
    assert_eq!(timer.phase(), Phase::Paused);
}

#[test]
fn adjust_accepts_zero_minutes() {
    let mut timer = PomodoroTimer::new(25, 5);
    timer.adjust_focus_time(0);
    assert_eq!(timer.focus_duration(), 0);
    assert_eq!(timer.focus_remaining(), 0);
    let now = after(&timer, 0);
    assert!(timer.update_at(now));
    assert_eq!(timer.phase(), Phase::Break);
    assert_eq!(timer.total_cycles(), 1);
}

#[test]
fn update_reads_the_clock() {
    let mut timer = PomodoroTimer::new(25, 5);
    let created = timer.last_update().as_nanos();
    let chime = timer.update();
    assert!(!chime);
    assert_eq!(timer.phase(), Phase::Focus);
    assert!(timer.last_update().as_nanos() >= created);
    let elapsed = (timer.last_update().as_nanos() - created) / SECOND;
    assert_eq!(timer.focus_remaining() as u128, 1500 - elapsed);
}

#[test]
fn moments_measure_spans() {
    let early = Moment::from_nanos(1_500_000_000);
    let late = Moment::from_nanos(4_499_999_999);
    assert_eq!(late.nanos_since(&early), 2_999_999_999);
    assert_eq!(late.whole_seconds_since(&early), 2);
    assert_eq!(early.nanos_since(&late), 0);
    assert_eq!(early.whole_seconds_since(&late), 0);
    assert_eq!(early.whole_seconds_since(&early), 0);
    assert_eq!(Moment::from_nanos(u128::MAX).as_nanos(), u128::MAX);
}
