//! Pomodoro mode: configuration, timer state machine and panel statistics.
pub mod config;
pub mod timer;
pub mod stats;
pub mod streak;
