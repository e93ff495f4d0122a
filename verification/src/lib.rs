//! Core engine of a terminal typing trainer.
//!
//! A practice session presents a sequence of text prompts, records every
//! keystroke against the expected text, tracks elapsed time across
//! pause/resume cycles, and reports derived metrics such as the
//! words-per-minute score.  This crate holds the verified session engine:
//! the stopwatch, the prompt sequencer, the character comparator, and the
//! session state machine.  Terminal rendering, keyboard capture, argument
//! parsing and persistence live outside the engine and talk to it through
//! plain values.

mod calls;
pub mod content;
pub mod exercise;
pub mod exercise_type;
pub mod prompt;
pub mod settings;
pub mod split;
pub mod state;
pub mod timer;
