//! What the command-line commands decide and print.
pub mod start;
pub mod sessions;
pub mod pomo_stats;
pub mod settings;
