use pomodoro::clock::Moment;
use pomodoro::screen::Screen;
use pomodoro::screen::Tint;
use pomodoro::timer::PomodoroTimer;

const SECOND: u128 = 1_000_000_000;

fn after(timer: &PomodoroTimer, nanos: u128) -> Moment {
    Moment::from_nanos(timer.last_update().as_nanos() + nanos)
}

#[test]
fn screen_of_a_new_timer() {
    let timer = PomodoroTimer::new(25, 5);
    let screen = Screen::compose(&timer);
    assert_eq!(screen.header, "\u{1F345} POMODORO TIMER \u{1F345}");
    assert!(!screen.flashing);
    assert_eq!(screen.header_tint, Tint::Red);

    assert_eq!(screen.focus_panel.title, "FOCUS TIME \u{26A1}");
    assert!(screen.focus_panel.active);
    assert_eq!(screen.focus_panel.tint, Tint::Green);
    assert_eq!(screen.focus_panel.rows, PomodoroTimer::get_ascii_digits("25:00"));

    assert_eq!(screen.break_panel.title, "BREAK TIME");
    assert!(!screen.break_panel.active);
    assert_eq!(screen.break_panel.tint, Tint::DarkGray);
    assert_eq!(screen.break_panel.rows, PomodoroTimer::get_ascii_digits("05:00"));

    assert_eq!(
        screen.footer,
        "Cycles: 0 | Focus: 25min | Break: 5min | f/F: focus +/- | b/B: break +/- | SPACE: Pause | R: Reset | Q: Quit"
    );
}

#[test]
fn screen_after_the_focus_phase_ended() {
    let mut timer = PomodoroTimer::new(25, 5);
    let now = after(&timer, 1500 * SECOND);
    assert!(timer.update_at(now));
    let screen = Screen::compose(&timer);
    assert_eq!(screen.header, "\u{1F514} NOTIFICATION! \u{1F514}");
    assert!(screen.flashing);
    assert_eq!(screen.header_tint, Tint::Yellow);

    assert_eq!(screen.focus_panel.title, "FOCUS TIME");
    assert!(!screen.focus_panel.active);
    assert_eq!(screen.focus_panel.tint, Tint::DarkGray);
    assert_eq!(screen.focus_panel.rows, PomodoroTimer::get_ascii_digits("00:00"));

    assert_eq!(screen.break_panel.title, "BREAK TIME \u{2615}");
    assert!(screen.break_panel.active);
    assert_eq!(screen.break_panel.tint, Tint::Yellow);
    assert_eq!(screen.break_panel.rows, PomodoroTimer::get_ascii_digits("05:00"));

    assert_eq!(
        screen.footer,
        "Cycles: 1 | Focus: 25min | Break: 5min | f/F: focus +/- | b/B: break +/- | SPACE: Pause | R: Reset | Q: Quit"
    );
}

#[test]
fn screen_while_paused_highlights_no_panel() {
    let mut timer = PomodoroTimer::new(90, 12);
    let now = after(&timer, 61 * SECOND);
    assert!(!timer.update_at(now));
    timer.toggle_pause();
    let screen = Screen::compose(&timer);
    assert_eq!(screen.header, "\u{1F345} POMODORO TIMER \u{1F345}");
    assert!(!screen.focus_panel.active);
    assert!(!screen.break_panel.active);
    assert_eq!(screen.focus_panel.title, "FOCUS TIME");
    assert_eq!(screen.break_panel.title, "BREAK TIME");
    assert_eq!(screen.focus_panel.tint, Tint::DarkGray);
    assert_eq!(screen.break_panel.tint, Tint::DarkGray);
    assert_eq!(screen.focus_panel.rows, PomodoroTimer::get_ascii_digits("88:59"));
    assert_eq!(screen.break_panel.rows, PomodoroTimer::get_ascii_digits("12:00"));
    assert_eq!(
        screen.footer,
        "Cycles: 0 | Focus: 90min | Break: 12min | f/F: focus +/- | b/B: break +/- | SPACE: Resume | R: Reset | Q: Quit"
    );
}

#[test]
fn screen_shows_whole_minutes_and_wide_countdowns() {
    let timer = PomodoroTimer::new(120, 0);
    let screen = Screen::compose(&timer);
    assert_eq!(screen.focus_panel.rows, PomodoroTimer::get_ascii_digits("120:00"));
    assert_eq!(screen.break_panel.rows, PomodoroTimer::get_ascii_digits("00:00"));
    assert_eq!(screen.focus_panel.rows.len(), 5);
    assert_eq!(screen.focus_panel.rows[0].chars().count(), 54);
    assert_eq!(
        screen.footer,
        "Cycles: 0 | Focus: 120min | Break: 0min | f/F: focus +/- | b/B: break +/- | SPACE: Pause | R: Reset | Q: Quit"
    );
}

#[test]
fn composing_a_screen_leaves_the_timer_as_it_is() {
    let timer = PomodoroTimer::new(25, 5);
    let before = (timer.focus_remaining(), timer.phase(), timer.last_update().as_nanos());
    let first = Screen::compose(&timer);
    let second = Screen::compose(&timer);
    assert_eq!(first.header, second.header);
    assert_eq!(first.footer, second.footer);
    assert_eq!(first.focus_panel.rows, second.focus_panel.rows);
    assert_eq!((timer.focus_remaining(), timer.phase(), timer.last_update().as_nanos()), before);
}
