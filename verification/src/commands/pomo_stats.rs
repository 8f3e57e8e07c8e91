//! `focus pomo-stats`: the day's and the week's Pomodoro statistics.
use vstd::prelude::*;
use crate::display::format::{format_duration_mins, minutes_text};
use crate::models::pomodoro::PomodoroStats;
use crate::text::{decimal, padded_left, padded_right, push_decimal, push_padded_left, push_padded_right, push_str};

verus! {

/// "─" repeated `n` times.
pub open spec fn rule(n: nat) -> Seq<char> {
    Seq::new(n, |_i: int| '─')
}

fn rule_string(n: usize) -> (r: String)
    ensures
        r@ == rule(n as nat),
{
    let mut s = String::new();
    let mut k: usize = 0;
    while k < n
        invariant
            k <= n,
            s@ =~= rule(k as nat),
        decreases n - k,
    {
        s.push('─');
        k = k + 1;
    }
    s
}

/// A labelled line of the day's statistics.
pub open spec fn stat_line(label: Seq<char>, value: Seq<char>) -> Seq<char> {
    padded_right(label, 22) + ": "@ + value
}

/// The day's statistics, or a note that there were no sessions.
pub open spec fn today_spec(s: PomodoroStats, streak: u32, display_date: Seq<char>) -> Seq<Seq<char>> {
    if s.completed == 0 && s.abandoned == 0 {
        seq!["No Pomodoro sessions today."@]
    } else {
        seq![
            "Pomodoro Statistics — "@ + display_date,
            rule(42),
            stat_line("Completed pomodoros"@, decimal(s.completed as nat)),
            stat_line("Abandoned"@, decimal(s.abandoned as nat)),
            stat_line("Work time"@, minutes_text(s.work_minutes as nat)),
            stat_line("Break time"@, minutes_text(s.break_minutes as nat)),
            stat_line("Current streak"@, decimal(streak as nat) + " days"@),
        ]
    }
}

fn stat_line_of(label: &str, value: &str) -> (r: String)
    ensures
        r@ == stat_line(label@, value@),
{
    let mut s = String::new();
    push_padded_right(&mut s, label, 22);
    push_str(&mut s, ": ");
    push_str(&mut s, value);
    s
}

/// The lines of `focus pomo-stats --today`.
pub fn today_lines(stats: &PomodoroStats, streak: u32, display_date: &str) -> (r: Vec<String>)
    ensures
        r@.map_values(|l: String| l@) == today_spec(*stats, streak, display_date@),
{
    let mut lines: Vec<String> = Vec::new();
    if stats.completed == 0 && stats.abandoned == 0 {
        lines.push("No Pomodoro sessions today.".to_owned());
        assert(lines@.map_values(|l: String| l@) =~= today_spec(*stats, streak, display_date@));
        return lines;
    }
    let mut title = String::new();
    push_str(&mut title, "Pomodoro Statistics — ");
    push_str(&mut title, display_date);
    lines.push(title);
    lines.push(rule_string(42));
    let mut n = String::new();
    push_decimal(&mut n, stats.completed as u64);
    lines.push(stat_line_of("Completed pomodoros", n.as_str()));
    let mut a = String::new();
    push_decimal(&mut a, stats.abandoned as u64);
    lines.push(stat_line_of("Abandoned", a.as_str()));
    let w = format_duration_mins(stats.work_minutes);
    lines.push(stat_line_of("Work time", w.as_str()));
    let b = format_duration_mins(stats.break_minutes);
    lines.push(stat_line_of("Break time", b.as_str()));
    let mut st = String::new();
    push_decimal(&mut st, streak as u64);
    push_str(&mut st, " days");
    lines.push(stat_line_of("Current streak", st.as_str()));
    assert(lines@.map_values(|l: String| l@) =~= today_spec(*stats, streak, display_date@));
    lines
}

/// The statistics recorded for `date`: the last record with that date.
pub open spec fn entry_for(stats: Seq<PomodoroStats>, date: Seq<char>) -> Option<PomodoroStats>
    decreases stats.len(),
{
    if stats.len() == 0 {
        None
    } else if stats.last().date@ == date {
        Some(stats.last())
    } else {
        entry_for(stats.drop_last(), date)
    }
}

/// A day without Pomodoro activity (no record, or nothing completed nor abandoned).
pub open spec fn idle_day(e: Option<PomodoroStats>) -> bool {
    match e {
        Some(s) => s.completed == 0 && s.abandoned == 0,
        None => true,
    }
}

/// The four counts of `date`, zero without a record.
pub open spec fn counts(stats: Seq<PomodoroStats>, date: Seq<char>) -> (u32, u32, u32, u32) {
    match entry_for(stats, date) {
        Some(s) => (s.completed, s.abandoned, s.work_minutes, s.break_minutes),
        None => (0, 0, 0, 0),
    }
}

/// Column totals over the dates.
pub open spec fn week_totals(dates: Seq<String>, stats: Seq<PomodoroStats>) -> (nat, nat, nat, nat)
    decreases dates.len(),
{
    if dates.len() == 0 {
        (0, 0, 0, 0)
    } else {
        let t = week_totals(dates.drop_last(), stats);
        let c = counts(stats, dates.last()@);
        (t.0 + c.0 as nat, t.1 + c.1 as nat, t.2 + c.2 as nat, t.3 + c.3 as nat)
    }
}

/// The week's totals are sums: no date gives nothing, one date gives its
/// own counts, and the totals of two runs of dates put together are the sums
/// of their totals, column by column.
pub proof fn law_week_totals_add(a: Seq<String>, b: Seq<String>, stats: Seq<PomodoroStats>)
    ensures
        week_totals(Seq::empty(), stats) == (0nat, 0nat, 0nat, 0nat),
        b.len() == 1 ==> week_totals(b, stats) == (
            counts(stats, b[0]@).0 as nat,
            counts(stats, b[0]@).1 as nat,
            counts(stats, b[0]@).2 as nat,
            counts(stats, b[0]@).3 as nat,
        ),
        week_totals(a + b, stats) == (
            week_totals(a, stats).0 + week_totals(b, stats).0,
            week_totals(a, stats).1 + week_totals(b, stats).1,
            week_totals(a, stats).2 + week_totals(b, stats).2,
            week_totals(a, stats).3 + week_totals(b, stats).3,
        ),
    decreases b.len(),
{
    if b.len() == 1 {
        assert(b.drop_last() =~= Seq::<String>::empty());
    }
    if b.len() == 0 {
        assert(a + b =~= a);
    } else {
        law_week_totals_add(a, b.drop_last(), stats);
        assert((a + b).drop_last() =~= a + b.drop_last());
        assert((a + b).last() == b.last());
    }
}

/// One line of the week table.
pub open spec fn week_row(date: Seq<char>, c: nat, a: nat, w: nat, b: nat) -> Seq<char> {
    padded_right(date, 12) + " "@ + padded_left(decimal(c), 10) + " "@ + padded_left(decimal(a), 10)
        + " "@ + padded_left(minutes_text(w), 12) + " "@ + padded_left(minutes_text(b), 12)
}

/// The week table: a line per date, then the totals and the best streak; a
/// note instead when no date saw any activity.
pub open spec fn week_spec(dates: Seq<String>, stats: Seq<PomodoroStats>, best: u32) -> Seq<Seq<char>> {
    if forall|i: int| 0 <= i < dates.len() ==> idle_day(#[trigger] entry_for(stats, dates[i]@)) {
        seq!["No Pomodoro sessions in the past 7 days."@]
    } else {
        let t = week_totals(dates, stats);
        seq![
            "Pomodoro Statistics — Last 7 Days"@,
            rule(64),
            padded_right("Date"@, 12) + " "@ + padded_left("Completed"@, 10) + " "@ + padded_left(
                "Abandoned"@,
                10,
            ) + " "@ + padded_left("Work time"@, 12) + " "@ + padded_left("Break time"@, 12),
            rule(64),
        ] + dates.map_values(
            |d: String|
                week_row(
                    d@,
                    counts(stats, d@).0 as nat,
                    counts(stats, d@).1 as nat,
                    counts(stats, d@).2 as nat,
                    counts(stats, d@).3 as nat,
                ),
        ) + seq![
            rule(64),
            padded_right("Total"@, 12) + " "@ + padded_left(decimal(t.0), 10) + " "@ + padded_left(
                decimal(t.1),
                10,
            ) + " "@ + padded_left(minutes_text(t.2), 12) + " "@ + padded_left(
                minutes_text(t.3),
                12,
            ),
            "Best streak : "@ + decimal(best as nat) + " days"@,
        ]
    }
}

fn lookup(stats: &Vec<PomodoroStats>, date: &String) -> (r: (u32, u32, u32, u32, bool))
    ensures
        (r.0, r.1, r.2, r.3) == counts(stats@, date@),
        r.4 == idle_day(entry_for(stats@, date@)),
{
    let mut i: usize = stats.len();
    assert(stats@.take(i as int) =~= stats@);
    while i > 0
        invariant
            i <= stats@.len(),
            entry_for(stats@, date@) == entry_for(stats@.take(i as int), date@),
        decreases i,
    {
        let s = &stats[i - 1];
        assert(stats@.take(i as int).drop_last() =~= stats@.take(i - 1));
        if crate::text::str_eq(s.date.as_str(), date.as_str()) {
            return (s.completed, s.abandoned, s.work_minutes, s.break_minutes, s.completed == 0
                && s.abandoned == 0);
        }
        i = i - 1;
    }
    (0, 0, 0, 0, true)
}

fn week_row_of(date: &str, c: u64, a: u64, w: u32, b: u32) -> (r: String)
    ensures
        r@ == week_row(date@, c as nat, a as nat, w as nat, b as nat),
{
    let mut s = String::new();
    push_padded_right(&mut s, date, 12);
    push_str(&mut s, " ");
    let cs = crate::text::decimal_string(c);
    push_padded_left(&mut s, cs.as_str(), 10);
    push_str(&mut s, " ");
    let as_ = crate::text::decimal_string(a);
    push_padded_left(&mut s, as_.as_str(), 10);
    push_str(&mut s, " ");
    let ws = format_duration_mins(w);
    push_padded_left(&mut s, ws.as_str(), 12);
    push_str(&mut s, " ");
    let bs = format_duration_mins(b);
    push_padded_left(&mut s, bs.as_str(), 12);
    s
}

/// The lines of `focus pomo-stats --week` for `dates` (oldest first), the
/// records `stats` of that range, and the best streak.
pub fn week_lines(dates: &Vec<String>, stats: &Vec<PomodoroStats>, best: u32) -> (r: Vec<String>)
    requires
        week_totals(dates@, stats@).0 <= u32::MAX,
        week_totals(dates@, stats@).1 <= u32::MAX,
        week_totals(dates@, stats@).2 <= u32::MAX,
        week_totals(dates@, stats@).3 <= u32::MAX,
    ensures
        r@.map_values(|l: String| l@) == week_spec(dates@, stats@, best),
{
    // Whether every date is idle.
    let mut all_idle = true;
    let mut i: usize = 0;
    while i < dates.len()
        invariant
            i <= dates@.len(),
            all_idle == (forall|k: int| 0 <= k < i ==> idle_day(#[trigger] entry_for(stats@, dates@[k]@))),
        decreases dates@.len() - i,
    {
        let (_, _, _, _, idle) = lookup(stats, &dates[i]);
        all_idle = all_idle && idle;
        i = i + 1;
    }
    let mut lines: Vec<String> = Vec::new();
    if all_idle {
        lines.push("No Pomodoro sessions in the past 7 days.".to_owned());
        assert(lines@.map_values(|l: String| l@) =~= week_spec(dates@, stats@, best));
        return lines;
    }
    lines.push("Pomodoro Statistics — Last 7 Days".to_owned());
    lines.push(rule_string(64));
    let mut head = String::new();
    push_padded_right(&mut head, "Date", 12);
    push_str(&mut head, " ");
    push_padded_left(&mut head, "Completed", 10);
    push_str(&mut head, " ");
    push_padded_left(&mut head, "Abandoned", 10);
    push_str(&mut head, " ");
    push_padded_left(&mut head, "Work time", 12);
    push_str(&mut head, " ");
    push_padded_left(&mut head, "Break time", 12);
    lines.push(head);
    lines.push(rule_string(64));
    let ghost top = lines@.map_values(|l: String| l@);
    let mut tc: u64 = 0;
    let mut ta: u64 = 0;
    let mut tw: u64 = 0;
    let mut tb: u64 = 0;
    let mut j: usize = 0;
    while j < dates.len()
        invariant
            j <= dates@.len(),
            week_totals(dates@, stats@).0 <= u32::MAX,
            week_totals(dates@, stats@).1 <= u32::MAX,
            week_totals(dates@, stats@).2 <= u32::MAX,
            week_totals(dates@, stats@).3 <= u32::MAX,
            (tc as nat, ta as nat, tw as nat, tb as nat) == week_totals(dates@.take(j as int), stats@),
            lines@.map_values(|l: String| l@) =~= top + dates@.take(j as int).map_values(
                |d: String|
                    week_row(
                        d@,
                        counts(stats@, d@).0 as nat,
                        counts(stats@, d@).1 as nat,
                        counts(stats@, d@).2 as nat,
                        counts(stats@, d@).3 as nat,
                    ),
            ),
        decreases dates@.len() - j,
    {
        assert(dates@.take(j + 1).drop_last() =~= dates@.take(j as int));
        proof {
            lemma_totals_prefix(dates@, stats@, j + 1);
        }
        let (c, a, w, b, _) = lookup(stats, &dates[j]);
        let line = week_row_of(dates[j].as_str(), c as u64, a as u64, w, b);
        let ghost prev = lines@;
        let ghost lv = line@;
        lines.push(line);
        assert(lines@.map_values(|l: String| l@) =~= prev.map_values(|l: String| l@).push(lv));
        tc = tc + c as u64;
        ta = ta + a as u64;
        tw = tw + w as u64;
        tb = tb + b as u64;
        j = j + 1;
    }
    assert(dates@.take(dates@.len() as int) =~= dates@);
    let ghost mid = lines@.map_values(|l: String| l@);
    lines.push(rule_string(64));
    let mut total = String::new();
    push_padded_right(&mut total, "Total", 12);
    push_str(&mut total, " ");
    let cs = crate::text::decimal_string(tc);
    push_padded_left(&mut total, cs.as_str(), 10);
    push_str(&mut total, " ");
    let as_ = crate::text::decimal_string(ta);
    push_padded_left(&mut total, as_.as_str(), 10);
    push_str(&mut total, " ");
    let ws = format_duration_mins(tw as u32);
    push_padded_left(&mut total, ws.as_str(), 12);
    push_str(&mut total, " ");
    let bs = format_duration_mins(tb as u32);
    push_padded_left(&mut total, bs.as_str(), 12);
    let ghost total_v = total@;
    lines.push(total);
    let mut best_line = String::new();
    push_str(&mut best_line, "Best streak : ");
    push_decimal(&mut best_line, best as u64);
    push_str(&mut best_line, " days");
    let ghost best_v = best_line@;
    lines.push(best_line);
    assert(lines@.map_values(|l: String| l@) =~= mid + seq![rule(64), total_v, best_v]);
    assert(lines@.map_values(|l: String| l@) =~= week_spec(dates@, stats@, best));
    lines
}

/// Totals of a prefix never exceed the totals of the whole.
proof fn lemma_totals_prefix(dates: Seq<String>, stats: Seq<PomodoroStats>, i: int)
    requires
        0 <= i <= dates.len(),
    ensures
        week_totals(dates.take(i), stats).0 <= week_totals(dates, stats).0,
        week_totals(dates.take(i), stats).1 <= week_totals(dates, stats).1,
        week_totals(dates.take(i), stats).2 <= week_totals(dates, stats).2,
        week_totals(dates.take(i), stats).3 <= week_totals(dates, stats).3,
    decreases dates.len() - i,
{
    if i < dates.len() {
        lemma_totals_prefix(dates, stats, i + 1);
        assert(dates.take(i + 1).drop_last() =~= dates.take(i));
    } else {
        assert(dates.take(i) =~= dates);
    }
}

} // verus!
