//! Metrics of the dashboard's report panel.
use vstd::prelude::*;
use crate::calendar::{day_before, iso_day, local_today, parse_iso_day, pred_day};
use crate::pomodoro::stats::clock_text;
use crate::text::push_pad2;

verus! {

/// Session analytics shown in the report panel.
#[derive(Debug, Clone)]
pub struct ReportMetrics {
    /// Sessions completed today.
    pub count_today: u32,
    /// Sessions completed this week.
    pub count_week: u32,
    /// Sessions completed, all time.
    pub count_all_time: u32,
    /// Seconds of sessions today.
    pub total_duration_today: u64,
    /// Seconds of sessions this week.
    pub total_duration_week: u64,
    /// Seconds of sessions, all time.
    pub total_duration_all_time: u64,
    /// Percentage of TODOs completed (0–100).
    pub completion_rate: u32,
    /// Consecutive days with at least one session.
    pub focus_streak_days: u32,
}

/// The productivity score: 40% of the completion rate (rounded down), one
/// point per streak day up to 30, and six points per session today up to 30.
pub open spec fn productivity_score(m: ReportMetrics) -> nat {
    (2 * m.completion_rate as nat) / 5 + (if m.focus_streak_days >= 30 {
        30
    } else {
        m.focus_streak_days as nat
    }) + (if m.count_today >= 5 {
        30
    } else {
        6 * m.count_today as nat
    })
}

/// The percentage of `completed` among `total`, rounded down; 0 when there is
/// nothing to count.
pub open spec fn completion_percent(completed: nat, total: nat) -> nat {
    if total > 0 {
        (completed * 100) / total
    } else {
        0
    }
}

/// The number of consecutive days, counting back from `expected`, found in
/// `days` (newest first, unparsable dates skipped): a day equal to the one
/// expected counts and moves the expectation a day back, an earlier day ends
/// the streak, a later one is passed over.
pub open spec fn focus_run(days: Seq<Option<i32>>, expected: i32) -> nat
    decreases days.len(),
{
    if days.len() == 0 {
        0
    } else {
        match days[0] {
            None => focus_run(days.drop_first(), expected),
            Some(d) => if d == expected {
                1 + focus_run(
                    days.drop_first(),
                    match day_before(expected) {
                        Some(p) => p,
                        None => expected,
                    },
                )
            } else if d < expected {
                0
            } else {
                focus_run(days.drop_first(), expected)
            },
        }
    }
}

/// The parsed days of date texts.
pub open spec fn parsed_days(dates: Seq<String>) -> Seq<Option<i32>> {
    dates.map_values(|s: String| iso_day(s@))
}

impl ReportMetrics {
    /// Metrics with the given values.
    pub fn new(
        count_today: u32,
        count_week: u32,
        count_all_time: u32,
        total_duration_today: u64,
        total_duration_week: u64,
        total_duration_all_time: u64,
        completion_rate: u32,
        focus_streak_days: u32,
    ) -> (r: Self)
        ensures
            r.count_today == count_today,
            r.count_week == count_week,
            r.count_all_time == count_all_time,
            r.total_duration_today == total_duration_today,
            r.total_duration_week == total_duration_week,
            r.total_duration_all_time == total_duration_all_time,
            r.completion_rate == completion_rate,
            r.focus_streak_days == focus_streak_days,
    {
        ReportMetrics {
            count_today,
            count_week,
            count_all_time,
            total_duration_today,
            total_duration_week,
            total_duration_all_time,
            completion_rate,
            focus_streak_days,
        }
    }

    /// Today's duration as HH:MM:SS.
    pub fn format_duration_today(&self) -> (r: String)
        ensures
            r@ == clock_text(self.total_duration_today as nat),
    {
        Self::format_duration(self.total_duration_today)
    }

    /// This week's duration as HH:MM:SS.
    pub fn format_duration_week(&self) -> (r: String)
        ensures
            r@ == clock_text(self.total_duration_week as nat),
    {
        Self::format_duration(self.total_duration_week)
    }

    /// The all-time duration as HH:MM:SS.
    pub fn format_duration_all_time(&self) -> (r: String)
        ensures
            r@ == clock_text(self.total_duration_all_time as nat),
    {
        Self::format_duration(self.total_duration_all_time)
    }

    /// Seconds as HH:MM:SS.
    fn format_duration(secs: u64) -> (r: String)
        ensures
            r@ == clock_text(secs as nat),
    {
        let mut s = String::new();
        push_pad2(&mut s, secs / 3600);
        s.push(':');
        push_pad2(&mut s, (secs % 3600) / 60);
        s.push(':');
        push_pad2(&mut s, secs % 60);
        assert(s@ =~= clock_text(secs as nat));
        s
    }

    /// The productivity score (at most 100 while the completion rate is a
    /// percentage).
    pub fn compute_productivity_score(&self) -> (r: u32)
        ensures
            r == productivity_score(*self),
    {
        let completion_score: u32 = self.completion_rate / 5 * 2 + (self.completion_rate % 5) * 2 / 5;
        let streak_score: u32 = if self.focus_streak_days >= 30 {
            30
        } else {
            self.focus_streak_days
        };
        let session_score: u32 = if self.count_today >= 5 {
            30
        } else {
            6 * self.count_today
        };
        assert(completion_score == (2 * self.completion_rate as nat) / 5) by (nonlinear_arith)
            requires
                completion_score == self.completion_rate / 5 * 2 + (self.completion_rate % 5) * 2
                    / 5,
        ;
        completion_score + streak_score + session_score
    }
}

/// An all-zero record.
impl Default for ReportMetrics {
    fn default() -> (r: Self)
        ensures
            r.count_today == 0,
            r.count_week == 0,
            r.count_all_time == 0,
            r.total_duration_today == 0,
            r.total_duration_week == 0,
            r.total_duration_all_time == 0,
            r.completion_rate == 0,
            r.focus_streak_days == 0,
    {
        ReportMetrics::new(0, 0, 0, 0, 0, 0, 0, 0)
    }
}

/// The productivity score is at most 100 while the completion rate is a
/// percentage, and reaches 100 at a full completion rate, a streak of 30 days
/// and five sessions today.
pub proof fn law_productivity_score_bounded(m: ReportMetrics)
    requires
        m.completion_rate <= 100,
    ensures
        productivity_score(m) <= 100,
        m.completion_rate == 100 && m.focus_streak_days >= 30 && m.count_today >= 5
            ==> productivity_score(m) == 100,
{
}

/// How the score answers each input, others held: every session today adds
/// six points up to the fifth, and none after; every streak day adds one
/// point up to the thirtieth, and none after; five points more of completion
/// rate add two points; a day with nothing done scores nothing; and with no
/// session and no streak the score is 40% of the completion rate, rounded
/// down.
pub proof fn law_productivity_score_steps(m: ReportMetrics)
    ensures
        ({
            let z = productivity_score(
                ReportMetrics { count_today: 0, focus_streak_days: 0, ..m },
            );
            5 * z <= 2 * m.completion_rate < 5 * z + 5
        }),
        productivity_score(ReportMetrics {
            count_today: 0,
            focus_streak_days: 0,
            completion_rate: 0,
            ..m
        }) == 0,
        m.count_today < u32::MAX ==> productivity_score(
            ReportMetrics { count_today: (m.count_today + 1) as u32, ..m },
        ) == productivity_score(m) + if m.count_today < 5 {
            6int
        } else {
            0int
        },
        m.focus_streak_days < u32::MAX ==> productivity_score(
            ReportMetrics { focus_streak_days: (m.focus_streak_days + 1) as u32, ..m },
        ) == productivity_score(m) + if m.focus_streak_days < 30 {
            1int
        } else {
            0int
        },
        m.completion_rate + 5 <= u32::MAX ==> productivity_score(
            ReportMetrics { completion_rate: (m.completion_rate + 5) as u32, ..m },
        ) == productivity_score(m) + 2,
{
    let r = m.completion_rate as nat;
    assert((2 * (r + 5)) / 5 == (2 * r) / 5 + 2) by (nonlinear_arith);
}

/// The completion rate is a percentage: when no more TODOs are completed than
/// exist, it lies between 0 and 100, and it is 100 when all are completed.
pub proof fn law_completion_rate_is_percentage(completed: nat, total: nat)
    requires
        completed <= total,
    ensures
        completion_percent(completed, total) <= 100,
        total > 0 && completed == total ==> completion_percent(completed, total) == 100,
{
    if total > 0 {
        assert((completed * 100) / total <= 100) by (nonlinear_arith)
            requires
                completed <= total,
                total > 0,
        ;
        assert(completed == total ==> (completed * 100) / total == 100) by (nonlinear_arith)
            requires
                total > 0,
        ;
    }
}

/// The percentage of TODOs completed: `completed * 100 / total`, 0 without TODOs.
pub fn completion_rate(completed: u32, total: u32) -> (r: u32)
    requires
        completed * 100 <= u32::MAX,
    ensures
        r == completion_percent(completed as nat, total as nat),
{
    if total > 0 {
        completed * 100 / total
    } else {
        0
    }
}

/// The focus streak of session dates (`YYYY-MM-DD`, newest first) counted
/// back from day `today`.
pub fn focus_streak_from(dates: &[String], today: i32) -> (r: u32)
    requires
        dates@.len() <= u32::MAX,
    ensures
        r == focus_run(parsed_days(dates@), today),
{
    let ghost all = parsed_days(dates@);
    let n = dates.len();
    let mut streak: u32 = 0;
    let mut expected = today;
    let mut i: usize = 0;
    assert(all.skip(0) =~= all);
    loop
        invariant
            i <= n,
            n == dates@.len(),
            n <= u32::MAX,
            streak <= i,
            all == parsed_days(dates@),
            streak + focus_run(all.skip(i as int), expected) == focus_run(all, today),
        ensures
            streak == focus_run(all, today),
        decreases n - i,
    {
        if i == n {
            assert(all.skip(i as int) =~= Seq::<Option<i32>>::empty());
            break;
        }
        assert(all.skip(i as int).drop_first() =~= all.skip(i + 1));
        assert(all.skip(i as int)[0] == all[i as int]);
        let d = parse_iso_day(dates[i].as_str());
        match d {
            Some(x) => {
                if x == expected {
                    streak = streak + 1;
                    expected = match pred_day(expected) {
                        Some(p) => p,
                        None => expected,
                    };
                } else if x < expected {
                    break;
                }
            },
            None => {},
        }
        i = i + 1;
    }
    streak
}

/// The focus streak of session dates (`YYYY-MM-DD`, newest first) counted back
/// from today.
pub fn compute_focus_streak(dates: &[String]) -> (r: u32)
    requires
        dates@.len() <= u32::MAX,
    ensures
        exists|today: i32| r == #[trigger] focus_run(parsed_days(dates@), today),
{
    let today = local_today();
    focus_streak_from(dates, today)
}

} // verus!
