//! Supervision of one child process and of its colour-coded log.
//!
//! The library holds the decisions of a launcher for a single external
//! program: how a line of terminal output splits into coloured segments, how
//! the bounded log history evicts, and how the supervisor moves between its
//! lifecycle states in answer to events. Spawning, killing, reading pipes and
//! drawing are left to the caller, which performs the commands that the
//! state machine hands out and reports back what happened.

pub mod ansi;
pub mod color;
pub mod laws;
pub mod log;
pub mod model;
pub mod process;
pub mod settings;
pub mod supervisor;
pub mod text;
