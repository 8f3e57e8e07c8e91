//! `focus stop`, `status`, `log`, `export` and `report`: their checks and
//! the lines they print.
use vstd::prelude::*;
use crate::clock::unix_now;
use crate::commands::start::{opt_view, push_tag_suffix, tag_suffix_spec};
use crate::display::format::{
    dash, duration_text, format_duration, time_text, utc_time_text, TableRow,
};
use crate::error::FocusError;
use crate::models::session::{clamp_i64, secs_between, session_duration, sub_clamped, Session};
use crate::commands::settings::{lowercase, to_lower};
use crate::text::{padded_right, push_padded_right, push_str, str_eq, trim, trimmed};

verus! {

/// Bytes of the UTF-8 encoding of `s`, as `str::len` reports them.
pub open spec fn byte_len(s: Seq<char>) -> usize {
    vstd::utf8::encode_utf8(s).len() as usize
}

fn tag_of(s: &Session) -> (r: Option<&str>)
    ensures
        opt_view(r) == (match s.tag {
            Some(t) => Some(t@),
            None => None,
        }),
{
    match &s.tag {
        Some(t) => Some(t.as_str()),
        None => None,
    }
}

/// The two lines printed after stopping session `s`.
pub fn stopped_lines(s: &Session) -> (r: (String, String))
    ensures
        r.0@ == "Stopped: \""@ + s.task@ + "\""@ + tag_suffix_spec(
            match s.tag {
                Some(t) => Some(t@),
                None => None,
            },
            "  "@,
        ),
        r.1@ == "Duration: "@ + match session_duration(*s) {
            Some(d) => duration_text(d as int),
            None => "0s"@,
        },
{
    let mut a = String::new();
    push_str(&mut a, "Stopped: \"");
    push_str(&mut a, s.task.as_str());
    push_str(&mut a, "\"");
    push_tag_suffix(&mut a, tag_of(s), "  ");
    let mut b = String::new();
    push_str(&mut b, "Duration: ");
    match s.duration() {
        Some(d) => {
            let t = format_duration(d);
            push_str(&mut b, t.as_str());
        },
        None => push_str(&mut b, "0s"),
    }
    (a, b)
}

/// The status lines for the running session (if any), measured at `now`.
pub open spec fn status_spec(active: Option<Session>, now: i64) -> Seq<Seq<char>> {
    match active {
        None => seq!["No active session."@],
        Some(s) => seq![
            "Working on: \""@ + s.task@ + "\""@ + tag_suffix_spec(
                match s.tag {
                    Some(t) => Some(t@),
                    None => None,
                },
                "  "@,
            ),
            "Elapsed: "@ + duration_text(secs_between(s.start_time, now) as int),
        ],
    }
}

/// The lines of `focus status` at the moment `now`.
pub fn status_lines_at(active: &Option<Session>, now: i64) -> (r: Vec<String>)
    ensures
        r@.map_values(|l: String| l@) == status_spec(*active, now),
{
    let mut lines: Vec<String> = Vec::new();
    match active {
        None => {
            lines.push("No active session.".to_owned());
        },
        Some(s) => {
            let mut a = String::new();
            push_str(&mut a, "Working on: \"");
            push_str(&mut a, s.task.as_str());
            push_str(&mut a, "\"");
            push_tag_suffix(&mut a, tag_of(s), "  ");
            let mut b = String::new();
            push_str(&mut b, "Elapsed: ");
            let e = format_duration(sub_clamped(now, s.start_time));
            push_str(&mut b, e.as_str());
            lines.push(a);
            lines.push(b);
        },
    }
    assert(lines@.map_values(|l: String| l@) =~= status_spec(*active, now));
    lines
}

/// The lines of `focus status`, measured now.
pub fn status_lines(active: &Option<Session>) -> (r: Vec<String>)
    ensures
        exists|now: i64| r@.map_values(|l: String| l@) == #[trigger] status_spec(*active, now),
{
    let now = unix_now();
    status_lines_at(active, now)
}

/// `focus log` needs a positive limit.
pub fn check_limit(limit: u32) -> (r: Result<(), FocusError>)
    ensures
        r is Ok <==> limit > 0,
        r matches Err(e) ==> e is InvalidLimit,
{
    if limit == 0 {
        Err(FocusError::InvalidLimit)
    } else {
        Ok(())
    }
}

/// The widest byte length among `min` and the chosen fields of `rows`.
pub open spec fn widest(rows: Seq<TableRow>, min: usize, task: bool) -> usize
    decreases rows.len(),
{
    if rows.len() == 0 {
        min
    } else {
        let w = widest(rows.drop_last(), min, task);
        let l = byte_len(if task {
            rows.last().task@
        } else {
            rows.last().tag@
        });
        if l > w {
            l
        } else {
            w
        }
    }
}

/// One line of the log table.
pub open spec fn log_line(date: Seq<char>, task: Seq<char>, tag: Seq<char>, mode: Seq<char>, last: Seq<char>, tw: usize, gw: usize) -> Seq<char> {
    padded_right(date, 20) + " "@ + padded_right(task, tw as nat) + " "@ + padded_right(
        tag,
        gw as nat,
    ) + " "@ + padded_right(mode, 9) + " "@ + last
}

/// The log table: a header, then one line per row, with the task and tag
/// columns as wide as their widest entry (at least 4 and 3).
pub open spec fn log_table_spec(rows: Seq<TableRow>) -> Seq<Seq<char>> {
    let tw = widest(rows, 4, true);
    let gw = widest(rows, 3, false);
    seq![log_line("DATE"@, "TASK"@, "TAG"@, "MODE"@, "DURATION"@, tw, gw)] + rows.map_values(
        |r: TableRow| log_line(r.date@, r.task@, r.tag@, r.mode@, r.duration@, tw, gw),
    )
}

fn widest_of(rows: &[TableRow], min: usize, task: bool) -> (r: usize)
    ensures
        r == widest(rows@, min, task),
{
    let mut w = min;
    let mut i: usize = 0;
    while i < rows.len()
        invariant
            i <= rows@.len(),
            w == widest(rows@.take(i as int), min, task),
        decreases rows@.len() - i,
    {
        assert(rows@.take(i + 1).drop_last() =~= rows@.take(i as int));
        let l = if task {
            rows[i].task.as_str().len()
        } else {
            rows[i].tag.as_str().len()
        };
        if l > w {
            w = l;
        }
        i = i + 1;
    }
    assert(rows@.take(rows@.len() as int) =~= rows@);
    w
}

fn log_line_of(date: &str, task: &str, tag: &str, mode: &str, last: &str, tw: usize, gw: usize) -> (r: String)
    ensures
        r@ == log_line(date@, task@, tag@, mode@, last@, tw, gw),
{
    let mut s = String::new();
    push_padded_right(&mut s, date, 20);
    push_str(&mut s, " ");
    push_padded_right(&mut s, task, tw);
    push_str(&mut s, " ");
    push_padded_right(&mut s, tag, gw);
    push_str(&mut s, " ");
    push_padded_right(&mut s, mode, 9);
    push_str(&mut s, " ");
    push_str(&mut s, last);
    s
}

/// The lines of the session log table.
pub fn log_table_lines(rows: &[TableRow]) -> (r: Vec<String>)
    ensures
        r@.map_values(|l: String| l@) == log_table_spec(rows@),
{
    let tw = widest_of(rows, 4, true);
    let gw = widest_of(rows, 3, false);
    let mut lines: Vec<String> = Vec::new();
    lines.push(log_line_of("DATE", "TASK", "TAG", "MODE", "DURATION", tw, gw));
    let mut i: usize = 0;
    while i < rows.len()
        invariant
            i <= rows@.len(),
            tw == widest(rows@, 4, true),
            gw == widest(rows@, 3, false),
            lines@.map_values(|l: String| l@) =~= log_table_spec(rows@).take(i + 1),
        decreases rows@.len() - i,
    {
        let r = &rows[i];
        let line = log_line_of(
            r.date.as_str(),
            r.task.as_str(),
            r.tag.as_str(),
            r.mode.as_str(),
            r.duration.as_str(),
            tw,
            gw,
        );
        assert(log_table_spec(rows@)[i + 1] == log_line(
            r.date@,
            r.task@,
            r.tag@,
            r.mode@,
            r.duration@,
            tw,
            gw,
        ));
        let ghost prev = lines@;
        let ghost lv = line@;
        lines.push(line);
        assert(lines@.map_values(|l: String| l@) =~= prev.map_values(|l: String| l@).push(lv));
        assert(log_table_spec(rows@).take(i + 2) =~= log_table_spec(rows@).take(i + 1).push(lv));
        i = i + 1;
    }
    assert(log_table_spec(rows@).take(rows@.len() as int + 1) =~= log_table_spec(rows@));
    lines
}

/// The Markdown row of a completed session.
pub open spec fn markdown_row(s: Session, end: i64) -> Seq<char> {
    "| "@ + time_text(s.start_time, "%Y-%m-%d"@) + " | "@ + s.task@ + " | "@ + (match s.tag {
        Some(t) => t@,
        None => dash(),
    }) + " | "@ + time_text(s.start_time, "%H:%M"@) + " | "@ + time_text(end, "%H:%M"@) + " | "@
        + duration_text(clamp_i64(end - s.start_time) as int) + " |\n"@
}

/// The Markdown rows of the completed sessions among `sessions`, in order.
pub open spec fn markdown_rows(sessions: Seq<Session>) -> Seq<char>
    decreases sessions.len(),
{
    if sessions.len() == 0 {
        Seq::empty()
    } else {
        markdown_rows(sessions.drop_last()) + match sessions.last().end_time {
            Some(end) => markdown_row(sessions.last(), end),
            None => Seq::empty(),
        }
    }
}

/// The Markdown table of the completed sessions.
pub open spec fn markdown_spec(sessions: Seq<Session>) -> Seq<char> {
    "| Date | Task | Tag | Start | End | Duration |\n"@
        + "|------|------|-----|-------|-----|----------|\n"@ + markdown_rows(sessions)
}

fn markdown_row_of(s: &Session, end: i64) -> (r: String)
    ensures
        r@ == markdown_row(*s, end),
{
    let mut out = String::new();
    push_str(&mut out, "| ");
    let date = utc_time_text(s.start_time, "%Y-%m-%d");
    push_str(&mut out, date.as_str());
    push_str(&mut out, " | ");
    push_str(&mut out, s.task.as_str());
    push_str(&mut out, " | ");
    match &s.tag {
        Some(t) => push_str(&mut out, t.as_str()),
        None => push_str(&mut out, "—"),
    }
    push_str(&mut out, " | ");
    let start = utc_time_text(s.start_time, "%H:%M");
    push_str(&mut out, start.as_str());
    push_str(&mut out, " | ");
    let end_s = utc_time_text(end, "%H:%M");
    push_str(&mut out, end_s.as_str());
    push_str(&mut out, " | ");
    let d = format_duration(sub_clamped(end, s.start_time));
    push_str(&mut out, d.as_str());
    push_str(&mut out, " |\n");
    proof {
        reveal_strlit("—");
    }
    assert(out@ =~= markdown_row(*s, end));
    out
}

/// Exports the completed sessions as a Markdown table (times in UTC).
pub fn export_markdown(sessions: &[Session]) -> (r: String)
    ensures
        r@ == markdown_spec(sessions@),
{
    let mut out = String::new();
    push_str(&mut out, "| Date | Task | Tag | Start | End | Duration |\n");
    push_str(&mut out, "|------|------|-----|-------|-----|----------|\n");
    let ghost head = out@;
    let mut i: usize = 0;
    while i < sessions.len()
        invariant
            i <= sessions@.len(),
            head == "| Date | Task | Tag | Start | End | Duration |\n"@
                + "|------|------|-----|-------|-----|----------|\n"@,
            out@ =~= head + markdown_rows(sessions@.take(i as int)),
        decreases sessions@.len() - i,
    {
        assert(sessions@.take(i + 1).drop_last() =~= sessions@.take(i as int));
        let s = &sessions[i];
        match s.end_time {
            Some(end) => {
                let row = markdown_row_of(s, end);
                push_str(&mut out, row.as_str());
            },
            None => {},
        }
        i = i + 1;
    }
    assert(sessions@.take(sessions@.len() as int) =~= sessions@);
    out
}

/// The export formats.
#[derive(Debug, Clone, Copy, PartialEq, Eq, Structural)]
pub enum ExportFormat {
    Json,
    Markdown,
}

/// The format named by `--format`, compared trimmed and in lower case.
pub fn export_format(format: &str) -> (r: Result<ExportFormat, FocusError>)
    ensures
        lowercase(trim(format@)) == "json"@ ==> r == Ok::<ExportFormat, FocusError>(ExportFormat::Json),
        lowercase(trim(format@)) == "markdown"@ ==> r == Ok::<ExportFormat, FocusError>(
            ExportFormat::Markdown,
        ),
        lowercase(trim(format@)) != "json"@ && lowercase(trim(format@)) != "markdown"@ ==> (r matches Err(
            e,
        ) && e is InvalidFormat),
{
    proof {
        reveal_strlit("json");
        reveal_strlit("markdown");
        assert("json"@.len() != "markdown"@.len());
    }
    let t = trimmed(format);
    let l = to_lower(t.as_str());
    if str_eq(l.as_str(), "json") {
        Ok(ExportFormat::Json)
    } else if str_eq(l.as_str(), "markdown") {
        Ok(ExportFormat::Markdown)
    } else {
        Err(FocusError::InvalidFormat)
    }
}

/// A completed session as the JSON export lists it, times in UTC ISO 8601.
#[derive(Debug, Clone)]
pub struct ExportRecord {
    pub id: i64,
    pub task: String,
    pub tag: Option<String>,
    pub start_time: String,
    pub end_time: String,
    pub duration_seconds: i64,
}

/// The completed sessions among `sessions`, in order, with their end times.
pub open spec fn completed_sessions(sessions: Seq<Session>) -> Seq<(Session, i64)>
    decreases sessions.len(),
{
    if sessions.len() == 0 {
        Seq::empty()
    } else {
        completed_sessions(sessions.drop_last()) + match sessions.last().end_time {
            Some(end) => seq![(sessions.last(), end)],
            None => Seq::empty(),
        }
    }
}

/// `r` exports session `s` ended at `end`.
pub open spec fn exports(r: ExportRecord, s: Session, end: i64) -> bool {
    &&& r.id == s.id
    &&& r.task@ == s.task@
    &&& r.tag == s.tag
    &&& r.start_time@ == time_text(s.start_time, "%Y-%m-%dT%H:%M:%SZ"@)
    &&& r.end_time@ == time_text(end, "%Y-%m-%dT%H:%M:%SZ"@)
    &&& r.duration_seconds == clamp_i64(end - s.start_time)
}

/// The records of the JSON export: one per completed session, in order.
pub fn export_records(sessions: &[Session]) -> (r: Vec<ExportRecord>)
    ensures
        r@.len() == completed_sessions(sessions@).len(),
        forall|i: int|
            0 <= i < r@.len() ==> exports(
                #[trigger] r@[i],
                completed_sessions(sessions@)[i].0,
                completed_sessions(sessions@)[i].1,
            ),
{
    let mut out: Vec<ExportRecord> = Vec::new();
    let mut i: usize = 0;
    while i < sessions.len()
        invariant
            i <= sessions@.len(),
            out@.len() == completed_sessions(sessions@.take(i as int)).len(),
            forall|j: int|
                0 <= j < out@.len() ==> exports(
                    #[trigger] out@[j],
                    completed_sessions(sessions@.take(i as int))[j].0,
                    completed_sessions(sessions@.take(i as int))[j].1,
                ),
        decreases sessions@.len() - i,
    {
        assert(sessions@.take(i + 1).drop_last() =~= sessions@.take(i as int));
        let s = &sessions[i];
        match s.end_time {
            Some(end) => {
                let rec = ExportRecord {
                    id: s.id,
                    task: s.task.clone(),
                    tag: s.tag.clone(),
                    start_time: utc_time_text(s.start_time, "%Y-%m-%dT%H:%M:%SZ"),
                    end_time: utc_time_text(end, "%Y-%m-%dT%H:%M:%SZ"),
                    duration_seconds: sub_clamped(end, s.start_time),
                };
                out.push(rec);
            },
            None => {},
        }
        i = i + 1;
    }
    assert(sessions@.take(sessions@.len() as int) =~= sessions@);
    out
}

/// The label of a tag in the report: the tag, or "untagged".
pub open spec fn tag_label(tag: Option<String>) -> Seq<char> {
    match tag {
        Some(t) => t@,
        None => "untagged"@,
    }
}

/// Width of the tag column: the widest label in bytes, at least 8.
pub open spec fn tag_width(rows: Seq<(Option<String>, i64)>) -> usize
    decreases rows.len(),
{
    if rows.len() == 0 {
        8
    } else {
        let w = tag_width(rows.drop_last());
        let l = byte_len(tag_label(rows.last().0));
        if l > w {
            l
        } else {
            w
        }
    }
}

/// The total of the seconds of `rows`.
pub open spec fn total_secs(rows: Seq<(Option<String>, i64)>) -> int
    decreases rows.len(),
{
    if rows.len() == 0 {
        0
    } else {
        total_secs(rows.drop_last()) + rows.last().1
    }
}

/// "─" repeated `n` times.
pub open spec fn rule(n: nat) -> Seq<char> {
    Seq::new(n, |_i: int| '─')
}

/// The time-by-tag report: a header, a rule, one line per tag, a rule, and
/// the total; the rules are 22 columns longer than the tag column.
pub open spec fn tag_report_spec(rows: Seq<(Option<String>, i64)>) -> Seq<Seq<char>> {
    let w = tag_width(rows) as nat;
    let sep = rule(if w + 22 <= usize::MAX {
        w + 22
    } else {
        usize::MAX as nat
    });
    seq![padded_right("Tag"@, w) + " Total"@, sep] + rows.map_values(
        |r: (Option<String>, i64)| padded_right(tag_label(r.0), w) + " "@ + duration_text(r.1 as int),
    ) + seq![sep, padded_right("TOTAL"@, w) + " "@ + duration_text(total_secs(rows))]
}

proof fn lemma_total_prefix(rows: Seq<(Option<String>, i64)>, i: int)
    requires
        0 <= i < rows.len(),
    ensures
        total_secs(rows.take(i + 1)) == total_secs(rows.take(i)) + rows[i].1,
{
    assert(rows.take(i + 1).drop_last() =~= rows.take(i));
}

/// The lines of `focus report` for the per-tag totals `rows` (seconds).
pub fn tag_report_lines(rows: &Vec<(Option<String>, i64)>) -> (r: Vec<String>)
    requires
        forall|i: int| 0 <= i <= rows@.len() ==> i64::MIN <= #[trigger] total_secs(rows@.take(i)) <= i64::MAX,
    ensures
        r@.map_values(|l: String| l@) == tag_report_spec(rows@),
{
    let mut w: usize = 8;
    let mut i: usize = 0;
    while i < rows.len()
        invariant
            i <= rows@.len(),
            w == tag_width(rows@.take(i as int)),
        decreases rows@.len() - i,
    {
        assert(rows@.take(i + 1).drop_last() =~= rows@.take(i as int));
        let l = match &rows[i].0 {
            Some(t) => t.as_str().len(),
            None => "untagged".len(),
        };
        proof {
            reveal_strlit("untagged");
        }
        if l > w {
            w = l;
        }
        i = i + 1;
    }
    assert(rows@.take(rows@.len() as int) =~= rows@);
    let mut sep = String::new();
    let n = w.saturating_add(22);
    let mut k: usize = 0;
    while k < n
        invariant
            k <= n,
            sep@ =~= rule(k as nat),
        decreases n - k,
    {
        sep.push('─');
        k = k + 1;
    }
    let mut lines: Vec<String> = Vec::new();
    let mut head = String::new();
    push_padded_right(&mut head, "Tag", w);
    push_str(&mut head, " Total");
    lines.push(head);
    lines.push(sep.clone());
    let ghost sep_v = rule(if w as nat + 22 <= usize::MAX {
        w as nat + 22
    } else {
        usize::MAX as nat
    });
    assert(sep@ == sep_v);
    let ghost top = lines@.map_values(|l: String| l@);
    assert(top =~= seq![padded_right("Tag"@, w as nat) + " Total"@, sep_v]);
    let mut total: i64 = 0;
    let mut j: usize = 0;
    while j < rows.len()
        invariant
            j <= rows@.len(),
            w == tag_width(rows@),
            forall|i: int| 0 <= i <= rows@.len() ==> i64::MIN <= #[trigger] total_secs(rows@.take(i)) <= i64::MAX,
            total == total_secs(rows@.take(j as int)),
            lines@.map_values(|l: String| l@) =~= top + rows@.take(j as int).map_values(
                |r: (Option<String>, i64)| padded_right(tag_label(r.0), w as nat) + " "@ + duration_text(r.1 as int),
            ),
        decreases rows@.len() - j,
    {
        proof {
            lemma_total_prefix(rows@, j as int);
        }
        let mut line = String::new();
        match &rows[j].0 {
            Some(t) => push_padded_right(&mut line, t.as_str(), w),
            None => push_padded_right(&mut line, "untagged", w),
        }
        push_str(&mut line, " ");
        let d = format_duration(rows[j].1);
        push_str(&mut line, d.as_str());
        assert(line@ == padded_right(tag_label(rows@[j as int].0), w as nat) + " "@ + duration_text(rows@[j as int].1 as int));
        let ghost prev = lines@;
        let ghost lv = line@;
        lines.push(line);
        assert(lines@.map_values(|l: String| l@) =~= prev.map_values(|l: String| l@).push(lv));
        assert(rows@.take(j + 1).map_values(
            |r: (Option<String>, i64)| padded_right(tag_label(r.0), w as nat) + " "@ + duration_text(r.1 as int),
        ) =~= rows@.take(j as int).map_values(
            |r: (Option<String>, i64)| padded_right(tag_label(r.0), w as nat) + " "@ + duration_text(r.1 as int),
        ).push(lv));
        total = total + rows[j].1;
        j = j + 1;
    }
    assert(rows@.take(rows@.len() as int) =~= rows@);
    let ghost mid = lines@.map_values(|l: String| l@);
    lines.push(sep);
    let mut last = String::new();
    push_padded_right(&mut last, "TOTAL", w);
    push_str(&mut last, " ");
    let d = format_duration(total);
    push_str(&mut last, d.as_str());
    let ghost last_v = last@;
    lines.push(last);
    assert(lines@.map_values(|l: String| l@) =~= mid + seq![sep_v, last_v]);
    assert(lines@.map_values(|l: String| l@) =~= tag_report_spec(rows@));
    lines
}

} // verus!
