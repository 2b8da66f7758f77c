//! Orchestration core for a Wayland screen-capture tool.
//!
//! The library decides everything the capture tool does — which external
//! programs to invoke and with which arguments, how output paths are built,
//! how a recording's pause/resume/stop state machine moves, and how the
//! durable record of a detached recording is encoded, decoded and guarded —
//! while the thin unverified shell around it spawns the processes, reads and
//! writes the files, and hands back what only the outside world can decide.

pub mod errors;
pub mod text;
pub mod time;
pub mod output;
pub mod commands;
pub mod windows;
pub mod signals;
pub mod recording;
pub mod state;
pub mod cli;

use vstd::prelude::*;

verus! {

} // verus!
