//! A Pomodoro interval timer: the phase state machine, its time accounting,
//! the large-digit countdown text and the data handed to the display.

pub mod chime;
pub mod clock;
pub mod command;
pub mod countdown;
pub mod font;
pub mod laws;
pub mod screen;
pub mod session;
pub mod text;
pub mod timer;
