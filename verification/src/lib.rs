//! Deep-work session tracker: the verified core of the `focus` tool.
pub mod text;
pub mod clock;
pub mod commands;
pub mod config;
pub mod calendar;
pub mod display;
pub mod models;
pub mod error;
pub mod pomodoro;
pub mod theme;
pub mod tui;
