//! A terminal Pomodoro timer: the work/break cycle state machine and the
//! fixed-grid renderer that composes the display frame.
pub mod long_duration;
pub mod status;
pub mod cycle_laws;
pub mod text;
pub mod output;
pub mod frame;
