//! Supervision of one `ffmpeg` run: where the output file goes, which
//! arguments the child gets, how a line of its output becomes a percentage,
//! and which step follows each event of the run.

pub mod text;
pub mod decimal;
pub mod estimate;
pub mod matcher;
pub mod progress;
pub mod path;
pub mod error;
pub mod command;
pub mod runner;
pub mod laws;
