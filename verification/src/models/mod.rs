//! Plain data records of the tracker.
pub mod pomodoro;
pub mod session;
pub mod todo;
