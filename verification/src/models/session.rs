//! A tracked work session.
use vstd::prelude::*;
use crate::clock::unix_now;

verus! {

/// `x` clamped to the range of `i64`.
pub open spec fn clamp_i64(x: int) -> i64 {
    if x < i64::MIN {
        i64::MIN
    } else if x > i64::MAX {
        i64::MAX
    } else {
        x as i64
    }
}

/// Seconds from `start` to `now`, saturating at the bounds of `i64`.
pub open spec fn secs_between(start: i64, now: i64) -> i64 {
    clamp_i64(now - start)
}

/// `a - b`, saturating at the bounds of `i64`.
pub fn sub_clamped(a: i64, b: i64) -> (r: i64)
    ensures
        r == clamp_i64(a - b),
{
    match a.checked_sub(b) {
        Some(d) => d,
        None => {
            if a < b {
                i64::MIN
            } else {
                i64::MAX
            }
        },
    }
}

/// A focus session; times are Unix seconds.
#[derive(Debug, Clone)]
pub struct Session {
    pub id: i64,
    pub task: String,
    pub tag: Option<String>,
    pub start_time: i64,
    /// None while the session is running.
    pub end_time: Option<i64>,
    /// "freeform" or "pomodoro".
    pub mode: String,
}

/// The length of a session in seconds; None while it runs.
pub open spec fn session_duration(s: Session) -> Option<i64> {
    match s.end_time {
        Some(e) => Some(clamp_i64(e - s.start_time)),
        None => None,
    }
}

impl Session {
    /// Whether the session is still running.
    pub fn is_active(&self) -> (r: bool)
        ensures
            r == self.end_time is None,
    {
        self.end_time.is_none()
    }

    /// Seconds from start to end (saturating), None while the session runs.
    pub fn duration(&self) -> (r: Option<i64>)
        ensures
            r == session_duration(*self),
    {
        match self.end_time {
            Some(e) => Some(sub_clamped(e, self.start_time)),
            None => None,
        }
    }

    /// Seconds from the start of the session until `now` (saturating).
    pub fn elapsed_at(&self, now: i64) -> (r: i64)
        ensures
            r == secs_between(self.start_time, now),
    {
        sub_clamped(now, self.start_time)
    }

    /// Seconds from the start of the session until the present moment.
    pub fn elapsed(&self) -> (r: i64)
        ensures
            exists|now: i64| r == #[trigger] secs_between(self.start_time, now),
    {
        let now = unix_now();
        self.elapsed_at(now)
    }
}

} // verus!
