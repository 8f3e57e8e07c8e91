//! Texts of the dashboard's panels.
use vstd::prelude::*;
use crate::models::todo::Todo;
use crate::pomodoro::stats::clock_text;
use crate::text::{decimal, push_decimal, push_str};
use crate::tui::report::{productivity_score, ReportMetrics};

verus! {

/// A line of the TODO list: a check mark for a completed TODO, a bullet
/// otherwise, then the title.
pub open spec fn todo_line_spec(t: Todo) -> Seq<char> {
    "  "@ + (if t.status@ == "completed"@ {
        "✓"@
    } else {
        "•"@
    }) + " "@ + t.title@
}

/// The line of `todo` in the TODO list.
pub fn todo_line(todo: &Todo) -> (r: String)
    ensures
        r@ == todo_line_spec(*todo),
{
    let mut s = String::new();
    push_str(&mut s, "  ");
    push_str(
        &mut s,
        if todo.is_completed() {
            "✓"
        } else {
            "•"
        },
    );
    push_str(&mut s, " ");
    push_str(&mut s, todo.title.as_str());
    s
}

/// The lines of the report panel (blank lines between the groups).
pub open spec fn report_lines_spec(m: ReportMetrics) -> Seq<Seq<char>> {
    seq![
        "Today's Report"@,
        Seq::empty(),
        "Sessions: "@ + decimal(m.count_today as nat) + "  Duration: "@ + clock_text(
            m.total_duration_today as nat,
        ),
        Seq::empty(),
        "Completion: "@ + decimal(m.completion_rate as nat) + "%  Streak: "@ + decimal(
            m.focus_streak_days as nat,
        ) + " days"@,
        Seq::empty(),
        "Productivity: "@ + decimal(productivity_score(m)) + "/100"@,
        Seq::empty(),
        "Week: "@ + decimal(m.count_week as nat) + " sessions • "@ + clock_text(
            m.total_duration_week as nat,
        ),
        "All-time: "@ + decimal(m.count_all_time as nat) + " sessions"@,
    ]
}

/// The lines of the report panel for `m`.
pub fn report_lines(m: &ReportMetrics) -> (r: Vec<String>)
    ensures
        r@.map_values(|l: String| l@) == report_lines_spec(*m),
{
    let mut lines: Vec<String> = Vec::new();
    lines.push("Today's Report".to_owned());
    lines.push(String::new());
    let mut a = String::new();
    push_str(&mut a, "Sessions: ");
    push_decimal(&mut a, m.count_today as u64);
    push_str(&mut a, "  Duration: ");
    let d = m.format_duration_today();
    push_str(&mut a, d.as_str());
    lines.push(a);
    lines.push(String::new());
    let mut b = String::new();
    push_str(&mut b, "Completion: ");
    push_decimal(&mut b, m.completion_rate as u64);
    push_str(&mut b, "%  Streak: ");
    push_decimal(&mut b, m.focus_streak_days as u64);
    push_str(&mut b, " days");
    lines.push(b);
    lines.push(String::new());
    let mut c = String::new();
    push_str(&mut c, "Productivity: ");
    push_decimal(&mut c, m.compute_productivity_score() as u64);
    push_str(&mut c, "/100");
    lines.push(c);
    lines.push(String::new());
    let mut w = String::new();
    push_str(&mut w, "Week: ");
    push_decimal(&mut w, m.count_week as u64);
    push_str(&mut w, " sessions • ");
    let dw = m.format_duration_week();
    push_str(&mut w, dw.as_str());
    lines.push(w);
    let mut t = String::new();
    push_str(&mut t, "All-time: ");
    push_decimal(&mut t, m.count_all_time as u64);
    push_str(&mut t, " sessions");
    lines.push(t);
    assert(lines@.map_values(|l: String| l@) =~= report_lines_spec(*m));
    lines
}

} // verus!
