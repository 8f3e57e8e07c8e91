//! The interactive dashboard: state, key handling and display helpers.
pub mod keys;
pub mod keyboard;
pub mod app;
pub mod text_input;
pub mod themes;
pub mod report;
pub mod timer_display;
pub mod events;
pub mod views;
