//! Pomodoro statistics shown in the dashboard panel.
use vstd::prelude::*;
use crate::text::{pad2, push_pad2};

verus! {

/// Statistics about the day's Pomodoro sessions, for the dashboard panel.
#[derive(Debug, Clone)]
pub struct PomodoroPanelState {
    /// Completed work cycles today.
    pub total_cycles_today: u32,
    /// Total length of today's work cycles, in seconds.
    pub cumulative_duration_secs: u64,
    /// Consecutive days with at least one Pomodoro.
    pub focus_streak_days: u32,
    /// Unix time of the last completed work phase (None if none today).
    pub last_completion_time: Option<i64>,
}

/// "HH:MM:SS" of a number of seconds, each field padded to two digits at least.
pub open spec fn clock_text(secs: nat) -> Seq<char> {
    pad2(secs / 3600) + seq![':'] + pad2((secs % 3600) / 60) + seq![':'] + pad2(secs % 60)
}

impl PomodoroPanelState {
    /// The panel state of a day without sessions.
    pub fn idle() -> (r: Self)
        ensures
            r.total_cycles_today == 0,
            r.cumulative_duration_secs == 0,
            r.focus_streak_days == 0,
            r.last_completion_time is None,
    {
        PomodoroPanelState {
            total_cycles_today: 0,
            cumulative_duration_secs: 0,
            focus_streak_days: 0,
            last_completion_time: None,
        }
    }

    /// The panel state with the given statistics.
    pub fn new(
        total_cycles_today: u32,
        cumulative_duration_secs: u64,
        focus_streak_days: u32,
        last_completion_time: Option<i64>,
    ) -> (r: Self)
        ensures
            r.total_cycles_today == total_cycles_today,
            r.cumulative_duration_secs == cumulative_duration_secs,
            r.focus_streak_days == focus_streak_days,
            r.last_completion_time == last_completion_time,
    {
        PomodoroPanelState {
            total_cycles_today,
            cumulative_duration_secs,
            focus_streak_days,
            last_completion_time,
        }
    }

    /// The cumulative duration as HH:MM:SS.
    pub fn format_duration(&self) -> (r: String)
        ensures
            r@ == clock_text(self.cumulative_duration_secs as nat),
    {
        let secs = self.cumulative_duration_secs;
        let mut s = String::new();
        push_pad2(&mut s, secs / 3600);
        s.push(':');
        push_pad2(&mut s, (secs % 3600) / 60);
        s.push(':');
        push_pad2(&mut s, secs % 60);
        assert(s@ =~= clock_text(self.cumulative_duration_secs as nat));
        s
    }

    /// Whether any Pomodoro was completed today.
    pub fn has_activity(&self) -> (r: bool)
        ensures
            r == (self.total_cycles_today > 0),
    {
        self.total_cycles_today > 0
    }
}

} // verus!
