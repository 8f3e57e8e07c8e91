//! Focus streaks over the per-day Pomodoro statistics.
use vstd::prelude::*;
use crate::calendar::{iso_day, local_today, parse_iso_day};
use crate::models::pomodoro::PomodoroStats;

verus! {

/// A day of statistics as the streak rules see it: its day number (None when
/// the date text does not parse) and its count of completed Pomodoros.
pub type StreakDay = (Option<i32>, u32);

/// The days of `stats`, in order.
pub open spec fn stat_days(stats: Seq<PomodoroStats>) -> Seq<StreakDay> {
    stats.map_values(|s: PomodoroStats| (iso_day(s.date@), s.completed))
}

/// Length of the run of days at the end of `days` (oldest first) that are
/// exactly `expected`, `expected - 1`, ... with at least one completed
/// Pomodoro each.
pub open spec fn trailing_streak(days: Seq<StreakDay>, expected: int) -> nat
    decreases days.len(),
{
    if days.len() == 0 {
        0
    } else {
        match days.last().0 {
            Some(d) => if d == expected && days.last().1 > 0 {
                1 + trailing_streak(days.drop_last(), expected - 1)
            } else {
                0
            },
            None => 0,
        }
    }
}

/// `trailing_streak` ending at day `today`.
pub open spec fn streak_ending(days: Seq<StreakDay>, today: i32) -> nat {
    trailing_streak(days, today as int)
}

/// After scanning `days` (oldest first): the best run so far, the current run
/// and the day that ended it. A day counts when it parses and has a completed
/// Pomodoro; it extends the current run when it follows the previous counted
/// day directly.
pub open spec fn run_state(days: Seq<StreakDay>) -> (nat, nat, Option<int>)
    decreases days.len(),
{
    if days.len() == 0 {
        (0, 0, None)
    } else {
        let (best, current, prev) = run_state(days.drop_last());
        let (d, c) = days.last();
        match d {
            Some(x) => if c == 0 {
                (best, 0, None)
            } else {
                let cur = if prev == Some(x - 1) {
                    current + 1
                } else {
                    1
                };
                (if cur > best {
                    cur
                } else {
                    best
                }, cur, Some(x as int))
            },
            None => (best, 0, None),
        }
    }
}

/// The longest run of consecutive counted days in `days`.
pub open spec fn best_streak_spec(days: Seq<StreakDay>) -> nat {
    run_state(days).0
}

proof fn lemma_take_last(days: Seq<StreakDay>, i: int)
    requires
        0 < i <= days.len(),
    ensures
        days.take(i).drop_last() == days.take(i - 1),
        days.take(i).last() == days[i - 1],
{
    assert(days.take(i).drop_last() =~= days.take(i - 1));
}

proof fn lemma_run_bounds(days: Seq<StreakDay>)
    ensures
        run_state(days).1 <= run_state(days).0 <= days.len(),
    decreases days.len(),
{
    if days.len() > 0 {
        lemma_run_bounds(days.drop_last());
    }
}

proof fn lemma_trailing_within_current(days: Seq<StreakDay>, expected: int)
    ensures
        trailing_streak(days, expected) <= run_state(days).1,
        trailing_streak(days, expected) > 0 ==> run_state(days).2 == Some(expected),
    decreases days.len(),
{
    if days.len() > 0 {
        lemma_trailing_within_current(days.drop_last(), expected - 1);
    }
}

/// The current streak never exceeds the best streak: whatever day is taken
/// as today, the run ending on it is one of the runs the best streak ranges over.
pub proof fn law_current_streak_within_best(stats: Seq<PomodoroStats>, today: i32)
    ensures
        streak_ending(stat_days(stats), today) <= best_streak_spec(stat_days(stats)),
{
    lemma_trailing_within_current(stat_days(stats), today as int);
    lemma_run_bounds(stat_days(stats));
}

/// The streak of consecutive days, ending on day `today`, with at least one
/// completed Pomodoro; `days` is ordered oldest first.
pub fn trailing_streak_of(days: &[StreakDay], today: i32) -> (r: u32)
    requires
        days@.len() <= u32::MAX,
    ensures
        r == streak_ending(days@, today),
{
    let n = days.len();
    let mut i: usize = n;
    let mut streak: u32 = 0;
    let mut expected: i64 = today as i64;
    proof {
        assert(days@.take(n as int) =~= days@);
    }
    loop
        invariant
            i <= n,
            n == days@.len(),
            n <= u32::MAX,
            streak + i <= n,
            expected == today - streak,
            streak + trailing_streak(days@.take(i as int), expected as int) == streak_ending(
                days@,
                today,
            ),
        ensures
            streak == streak_ending(days@, today),
        decreases i,
    {
        if i == 0 {
            assert(days@.take(0) =~= Seq::<StreakDay>::empty());
            break;
        }
        proof {
            lemma_take_last(days@, i as int);
        }
        let (d, c) = days[i - 1];
        let matched = match d {
            Some(x) => (x as i64) == expected && c > 0,
            None => false,
        };
        if !matched {
            break;
        }
        streak = streak + 1;
        expected = expected - 1;
        i = i - 1;
    }
    streak
}

/// The longest run of consecutive counted days in `days` (oldest first).
pub fn best_streak_of(days: &[StreakDay]) -> (r: u32)
    requires
        days@.len() <= u32::MAX,
    ensures
        r == best_streak_spec(days@),
{
    let n = days.len();
    let mut best: u32 = 0;
    let mut current: u32 = 0;
    let mut prev: Option<i32> = None;
    let mut i: usize = 0;
    while i < n
        invariant
            i <= n,
            n == days@.len(),
            n <= u32::MAX,
            (best as nat, current as nat, match prev {
                Some(p) => Some(p as int),
                None => None::<int>,
            }) == run_state(days@.take(i as int)),
        decreases n - i,
    {
        proof {
            lemma_take_last(days@, i + 1);
            lemma_run_bounds(days@.take(i as int));
        }
        let (d, c) = days[i];
        match d {
            Some(x) => {
                if c == 0 {
                    current = 0;
                    prev = None;
                } else {
                    let follows = match prev {
                        Some(p) => (p as i64) + 1 == (x as i64),
                        None => false,
                    };
                    if follows {
                        current = current + 1;
                    } else {
                        current = 1;
                    }
                    if current > best {
                        best = current;
                    }
                    prev = Some(x);
                }
            },
            None => {
                current = 0;
                prev = None;
            },
        }
        i = i + 1;
    }
    assert(days@.take(n as int) =~= days@);
    best
}

fn stat_days_of(stats: &[PomodoroStats]) -> (days: Vec<StreakDay>)
    ensures
        days@ == stat_days(stats@),
{
    let mut days: Vec<StreakDay> = Vec::new();
    let mut i: usize = 0;
    while i < stats.len()
        invariant
            i <= stats@.len(),
            days@ =~= stat_days(stats@).take(i as int),
        decreases stats@.len() - i,
    {
        let d = parse_iso_day(stats[i].date.as_str());
        days.push((d, stats[i].completed));
        i = i + 1;
    }
    assert(stat_days(stats@).take(stats@.len() as int) =~= stat_days(stats@));
    days
}

/// Current streak for `stats` (sorted by date, oldest first): consecutive days
/// ending on day `today` with at least one completed Pomodoro.
pub fn calculate_streak_from(stats: &[PomodoroStats], today: i32) -> (r: u32)
    requires
        stats@.len() <= u32::MAX,
    ensures
        r == streak_ending(stat_days(stats@), today),
{
    let days = stat_days_of(stats);
    trailing_streak_of(days.as_slice(), today)
}

/// Current streak for `stats` (sorted by date, oldest first), ending today.
pub fn calculate_streak(stats: &[PomodoroStats]) -> (r: u32)
    requires
        stats@.len() <= u32::MAX,
    ensures
        exists|today: i32| r == #[trigger] streak_ending(stat_days(stats@), today),
{
    let today = local_today();
    calculate_streak_from(stats, today)
}

/// Best streak for `stats` (sorted by date, oldest first): the longest run of
/// consecutive days with at least one completed Pomodoro.
pub fn calculate_best_streak(stats: &[PomodoroStats]) -> (r: u32)
    requires
        stats@.len() <= u32::MAX,
    ensures
        r == best_streak_spec(stat_days(stats@)),
{
    let days = stat_days_of(stats);
    best_streak_of(days.as_slice())
}

} // verus!
