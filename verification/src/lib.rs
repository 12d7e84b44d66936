//! A terminal stopwatch: a pause/resume timer, a bounded scrolling history of
//! its events, and the per-tick decisions that tie the two together.
//!
//! The library decides; it performs no input or output. Every operation that
//! would touch the terminal or the history file returns the commands to run
//! and the text to store, and the caller performs them.

pub mod clock;
pub mod history;
pub mod line;
pub mod log;
pub mod stopwatch;
pub mod terminal;
pub mod timer;
