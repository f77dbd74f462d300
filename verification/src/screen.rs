//! What the display shows, as plain data: the texts, the large-digit rows and
//! the styling hints of one frame. Everything here is a function of the
//! engine's state; painting it is the caller's.

use crate::countdown::banner_row;
use crate::countdown::clock_text;
use crate::font::GLYPH_HEIGHT;
use crate::text::decimal_text;
use crate::text::push_decimal;
use crate::timer::Phase;
use crate::timer::PomodoroTimer;
use crate::timer::TimerModel;
use crate::timer::SECONDS_PER_MINUTE;
use vstd::prelude::*;
use vstd::string::StringExecFns;

verus! {

/// The colour hint of a region.
#[derive(Clone, Copy, Debug, PartialEq, Eq, Structural)]
pub enum Tint {
    Red,
    Yellow,
    Green,
    DarkGray,
}

/// One countdown panel as mathematical values.
pub struct PanelModel {
    pub title: Seq<char>,
    pub rows: Seq<Seq<char>>,
    pub active: bool,
    pub tint: Tint,
}

/// One frame as mathematical values.
pub struct ScreenModel {
    pub header: Seq<char>,
    pub flashing: bool,
    pub header_tint: Tint,
    pub focus_panel: PanelModel,
    pub break_panel: PanelModel,
    pub footer: Seq<char>,
}

/// `text` drawn in the large-digit font: its `GLYPH_HEIGHT` rows from top to
/// bottom.
pub open spec fn banner(text: Seq<char>) -> Seq<Seq<char>> {
    Seq::new(GLYPH_HEIGHT as nat, |row: int| banner_row(text, row))
}

/// The header line: the notification while the flash is on, the name of the
/// program otherwise.
pub open spec fn header_text(flashing: bool) -> Seq<char> {
    if flashing {
        "🔔 NOTIFICATION! 🔔"@
    } else {
        "🍅 POMODORO TIMER 🍅"@
    }
}

/// The key help, which names what the space bar does in the current phase.
pub open spec fn key_help(phase: Phase) -> Seq<char> {
    if phase == Phase::Paused {
        "SPACE: Resume | R: Reset | Q: Quit"@
    } else {
        "SPACE: Pause | R: Reset | Q: Quit"@
    }
}

/// The footer line: the cycle count, the configured whole minutes of both
/// phases, and the key help.
pub open spec fn footer_text(m: TimerModel) -> Seq<char> {
    "Cycles: "@ + decimal_text(m.total_cycles) + " | Focus: "@ + decimal_text(
        m.focus_duration / SECONDS_PER_MINUTE as nat,
    ) + "min | Break: "@ + decimal_text(m.break_duration / SECONDS_PER_MINUTE as nat)
        + "min | f/F: focus +/- | b/B: break +/- | "@ + key_help(m.phase)
}

/// The focus panel: its countdown in large digits, highlighted while the
/// focus phase runs.
pub open spec fn focus_panel_of(m: TimerModel) -> PanelModel {
    let active = m.phase == Phase::Focus;
    PanelModel {
        title: if active {
            "FOCUS TIME ⚡"@
        } else {
            "FOCUS TIME"@
        },
        rows: banner(clock_text(m.focus_remaining)),
        active,
        tint: if active {
            Tint::Green
        } else {
            Tint::DarkGray
        },
    }
}

/// The break panel: its countdown in large digits, highlighted while the
/// break phase runs.
pub open spec fn break_panel_of(m: TimerModel) -> PanelModel {
    let active = m.phase == Phase::Break;
    PanelModel {
        title: if active {
            "BREAK TIME ☕"@
        } else {
            "BREAK TIME"@
        },
        rows: banner(clock_text(m.break_remaining)),
        active,
        tint: if active {
            Tint::Yellow
        } else {
            Tint::DarkGray
        },
    }
}

/// The frame that shows the state `m`.
pub open spec fn screen_of(m: TimerModel) -> ScreenModel {
    ScreenModel {
        header: header_text(m.flash_active),
        flashing: m.flash_active,
        header_tint: if m.flash_active {
            Tint::Yellow
        } else {
            Tint::Red
        },
        focus_panel: focus_panel_of(m),
        break_panel: break_panel_of(m),
        footer: footer_text(m),
    }
}

/// The styling of a frame depends on the phase and the flash alone, and at
/// most one panel is highlighted: the one of the running phase.
pub proof fn lemma_styling_follows_phase_and_flash(a: TimerModel, b: TimerModel)
    requires
        a.phase == b.phase,
        a.flash_active == b.flash_active,
    ensures
        screen_of(a).header == screen_of(b).header,
        screen_of(a).flashing == screen_of(b).flashing,
        screen_of(a).header_tint == screen_of(b).header_tint,
        screen_of(a).focus_panel.title == screen_of(b).focus_panel.title,
        screen_of(a).focus_panel.active == screen_of(b).focus_panel.active,
        screen_of(a).focus_panel.tint == screen_of(b).focus_panel.tint,
        screen_of(a).break_panel.title == screen_of(b).break_panel.title,
        screen_of(a).break_panel.active == screen_of(b).break_panel.active,
        screen_of(a).break_panel.tint == screen_of(b).break_panel.tint,
        !(screen_of(a).focus_panel.active && screen_of(a).break_panel.active),
        screen_of(a).focus_panel.active <==> a.phase == Phase::Focus,
        screen_of(a).break_panel.active <==> a.phase == Phase::Break,
{
}

/// One countdown panel.
pub struct Panel {
    pub title: String,
    pub rows: Vec<String>,
    pub active: bool,
    pub tint: Tint,
}

impl View for Panel {
    type V = PanelModel;

    open spec fn view(&self) -> PanelModel {
        PanelModel {
            title: self.title@,
            rows: Seq::new(self.rows@.len(), |row: int| self.rows@[row]@),
            active: self.active,
            tint: self.tint,
        }
    }
}

/// One frame.
pub struct Screen {
    pub header: String,
    pub flashing: bool,
    pub header_tint: Tint,
    pub focus_panel: Panel,
    pub break_panel: Panel,
    pub footer: String,
}

impl View for Screen {
    type V = ScreenModel;

    open spec fn view(&self) -> ScreenModel {
        ScreenModel {
            header: self.header@,
            flashing: self.flashing,
            header_tint: self.header_tint,
            focus_panel: self.focus_panel@,
            break_panel: self.break_panel@,
            footer: self.footer@,
        }
    }
}

/// The large-digit rows of a countdown of `seconds`.
fn countdown_rows(seconds: u64) -> (rows: Vec<String>)
    ensures
        Seq::new(rows@.len(), |row: int| rows@[row]@) == banner(clock_text(seconds as nat)),
{
    let text = PomodoroTimer::format_time(seconds);
    let rows = PomodoroTimer::get_ascii_digits(text.as_str());
    rows
}

/// Builds the footer line.
fn footer_line(timer: &PomodoroTimer) -> (line: String)
    ensures
        line@ == footer_text(timer@),
{
    let mut line = String::from_str("Cycles: ");
    push_decimal(&mut line, timer.total_cycles() as u64);
    line.append(" | Focus: ");
    push_decimal(&mut line, timer.focus_duration() / SECONDS_PER_MINUTE);
    line.append("min | Break: ");
    push_decimal(&mut line, timer.break_duration() / SECONDS_PER_MINUTE);
    line.append("min | f/F: focus +/- | b/B: break +/- | ");
    match timer.phase() {
        Phase::Paused => line.append("SPACE: Resume | R: Reset | Q: Quit"),
        _ => line.append("SPACE: Pause | R: Reset | Q: Quit"),
    }
    line
}

impl Screen {
    /// Composes the frame that shows `timer` as it stands. The timer is only
    /// read.
    pub fn compose(timer: &PomodoroTimer) -> (screen: Screen)
        ensures
            screen@ == screen_of(timer@),
    {
        let flashing = timer.flash_active();
        let focus_active = timer.phase() == Phase::Focus;
        let break_active = timer.phase() == Phase::Break;
        let focus_panel = Panel {
            title: String::from_str(
                if focus_active {
                    "FOCUS TIME ⚡"
                } else {
                    "FOCUS TIME"
                },
            ),
            rows: countdown_rows(timer.focus_remaining()),
            active: focus_active,
            tint: if focus_active {
                Tint::Green
            } else {
                Tint::DarkGray
            },
        };
        let break_panel = Panel {
            title: String::from_str(
                if break_active {
                    "BREAK TIME ☕"
                } else {
                    "BREAK TIME"
                },
            ),
            rows: countdown_rows(timer.break_remaining()),
            active: break_active,
            tint: if break_active {
                Tint::Yellow
            } else {
                Tint::DarkGray
            },
        };
        Screen {
            header: String::from_str(
                if flashing {
                    "🔔 NOTIFICATION! 🔔"
                } else {
                    "🍅 POMODORO TIMER 🍅"
                },
            ),
            flashing,
            header_tint: if flashing {
                Tint::Yellow
            } else {
                Tint::Red
            },
            focus_panel,
            break_panel,
            footer: footer_line(timer),
        }
    }
}

} // verus!
