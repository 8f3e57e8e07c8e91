//! Text formatting of sessions and durations for the command line.
pub mod format;
