//! Pomodoro phases and per-day statistics.
use vstd::prelude::*;

verus! {

/// A single Pomodoro phase type.
#[derive(Debug, Clone, Copy, PartialEq, Eq, Structural)]
pub enum PomodoroPhase {
    Work,
    Break,
    LongBreak,
}

/// The display label of each phase.
pub open spec fn phase_label_spec(p: PomodoroPhase) -> Seq<char> {
    match p {
        PomodoroPhase::Work => "🍅 WORK"@,
        PomodoroPhase::Break => "☕ BREAK"@,
        PomodoroPhase::LongBreak => "🌿 LONG BREAK"@,
    }
}

impl PomodoroPhase {
    pub fn label(&self) -> (r: &'static str)
        ensures
            r@ == phase_label_spec(*self),
    {
        match self {
            PomodoroPhase::Work => "🍅 WORK",
            PomodoroPhase::Break => "☕ BREAK",
            PomodoroPhase::LongBreak => "🌿 LONG BREAK",
        }
    }

    pub fn is_work(&self) -> (r: bool)
        ensures
            r == (*self is Work),
    {
        match self {
            PomodoroPhase::Work => true,
            _ => false,
        }
    }
}

/// Per-day aggregate Pomodoro statistics.
#[derive(Debug, Clone)]
pub struct PomodoroStats {
    pub date: String,
    pub completed: u32,
    pub abandoned: u32,
    pub work_minutes: u32,
    pub break_minutes: u32,
}

impl PomodoroStats {
    /// A zeroed record for `date`.
    pub fn empty_for(date: &str) -> (r: PomodoroStats)
        ensures
            r.date@ == date@,
            r.completed == 0,
            r.abandoned == 0,
            r.work_minutes == 0,
            r.break_minutes == 0,
    {
        PomodoroStats {
            date: date.to_owned(),
            completed: 0,
            abandoned: 0,
            work_minutes: 0,
            break_minutes: 0,
        }
    }
}

} // verus!
