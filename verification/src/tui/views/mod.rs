//! Display helpers of the dashboard's views.
pub mod log;
pub mod pomodoro;
pub mod dashboard;
