//! Durations and session rows as text.
use vstd::prelude::*;
use crate::calendar::{format_utc, known_format, utc_text};
use crate::clock::unix_now;
use crate::models::session::{secs_between, session_duration, sub_clamped, Session};
use crate::text::{decimal, pad2, push_decimal, push_pad2};

verus! {

/// A duration given in seconds as "Xh MMm SSs", "Mm SSs" or "Ss": the
/// leading unit unpadded, the ones after it on two digits; negative
/// durations count as zero.
pub open spec fn duration_text(secs: int) -> Seq<char> {
    let t: nat = if secs < 0 {
        0
    } else {
        secs as nat
    };
    let h = t / 3600;
    let m = (t % 3600) / 60;
    let s = t % 60;
    if h > 0 {
        decimal(h) + seq!['h', ' '] + pad2(m) + seq!['m', ' '] + pad2(s) + seq!['s']
    } else if m > 0 {
        decimal(m) + seq!['m', ' '] + pad2(s) + seq!['s']
    } else {
        decimal(s) + seq!['s']
    }
}

/// The placeholder shown for a missing value.
pub open spec fn dash() -> Seq<char> {
    seq!['—']
}

/// A duration given in whole minutes: "—" for none, "1h 05m" from an hour on,
/// "30m" below.
pub open spec fn minutes_text(mins: nat) -> Seq<char> {
    if mins == 0 {
        dash()
    } else if mins / 60 > 0 {
        decimal(mins / 60) + seq!['h', ' '] + pad2(mins % 60) + seq!['m']
    } else {
        decimal(mins % 60) + seq!['m']
    }
}

/// The text of `h` hours, `m` minutes and `s` seconds: the leading non-zero
/// unit written as is, the ones after it on two digits.
pub open spec fn hms_parts_text(h: nat, m: nat, s: nat) -> Seq<char> {
    if h > 0 {
        decimal(h) + "h "@ + pad2(m) + "m "@ + pad2(s) + "s"@
    } else if m > 0 {
        decimal(m) + "m "@ + pad2(s) + "s"@
    } else {
        decimal(s) + "s"@
    }
}

/// A duration's text reads back as the duration: it is the text of an hour
/// count `h`, a minute count `m` and a second count `s` (minutes and seconds
/// below 60) with `h * 3600 + m * 60 + s` equal to the duration, so hours are
/// unbounded (a day and more shows as 24h and more). A negative duration
/// reads as none.
pub proof fn law_duration_text_reads_back(secs: int)
    ensures
        exists|h: nat, m: nat, s: nat|
            {
                &&& m < 60
                &&& s < 60
                &&& h * 3600 + m * 60 + s == (if secs < 0 {
                    0
                } else {
                    secs
                })
                &&& duration_text(secs) == #[trigger] hms_parts_text(h, m, s)
            },
{
    let t: nat = if secs < 0 {
        0
    } else {
        secs as nat
    };
    let h = t / 3600;
    let m = (t % 3600) / 60;
    let s = t % 60;
    assert(h * 3600 + m * 60 + s == t) by (nonlinear_arith)
        requires
            h == t / 3600,
            m == (t % 3600) / 60,
            s == t % 60,
    ;
    assert(m < 60);
    assert(s < 60);
    reveal_strlit("h ");
    reveal_strlit("m ");
    reveal_strlit("s");
    assert(duration_text(secs) =~= hms_parts_text(h, m, s));
}

/// Formats a duration in seconds: "1h 02m 03s", "2m 03s" or "3s".
pub fn format_duration(secs: i64) -> (r: String)
    ensures
        r@ == duration_text(secs as int),
{
    let t: u64 = if secs < 0 {
        0
    } else {
        secs as u64
    };
    let h = t / 3600;
    let m = (t % 3600) / 60;
    let s = t % 60;
    let mut out = String::new();
    if h > 0 {
        push_decimal(&mut out, h);
        out.push('h');
        out.push(' ');
        push_pad2(&mut out, m);
        out.push('m');
        out.push(' ');
        push_pad2(&mut out, s);
    } else if m > 0 {
        push_decimal(&mut out, m);
        out.push('m');
        out.push(' ');
        push_pad2(&mut out, s);
    } else {
        push_decimal(&mut out, s);
    }
    out.push('s');
    assert(out@ =~= duration_text(secs as int));
    out
}

/// Formats a duration in whole minutes (65 → "1h 05m", 30 → "30m", 0 → "—").
pub fn format_duration_mins(mins: u32) -> (r: String)
    ensures
        r@ == minutes_text(mins as nat),
{
    let mut out = String::new();
    if mins == 0 {
        out.push('—');
        assert(out@ =~= minutes_text(mins as nat));
        return out;
    }
    let h = mins / 60;
    let m = mins % 60;
    if h > 0 {
        push_decimal(&mut out, h as u64);
        out.push('h');
        out.push(' ');
        push_pad2(&mut out, m as u64);
    } else {
        push_decimal(&mut out, m as u64);
    }
    out.push('m');
    assert(out@ =~= minutes_text(mins as nat));
    out
}

/// The time elapsed since `start` (Unix seconds) until the present moment.
pub fn format_elapsed(start: i64) -> (r: String)
    ensures
        exists|now: i64| r@ == duration_text(#[trigger] secs_between(start, now) as int),
{
    let now = unix_now();
    let d = sub_clamped(now, start);
    assert(d == secs_between(start, now));
    format_duration(d)
}

/// One line of the session log table.
#[derive(Debug, Clone)]
pub struct TableRow {
    pub date: String,
    pub task: String,
    pub tag: String,
    pub duration: String,
    pub mode: String,
}

/// A Unix time in UTC with the format `fmt`; a time outside the calendar's
/// range shows as the Unix epoch.
pub open spec fn time_text(ts: i64, fmt: Seq<char>) -> Seq<char> {
    match utc_text(ts, fmt) {
        Some(t) => t,
        None => match utc_text(0, fmt) {
            Some(t) => t,
            None => Seq::empty(),
        },
    }
}

/// The date column: the start in UTC to the minute.
pub open spec fn date_text(ts: i64) -> Seq<char> {
    time_text(ts, "%Y-%m-%d %H:%M"@)
}

/// The log table row of session `s`.
pub open spec fn row_of(r: TableRow, s: Session) -> bool {
    &&& r.date@ == date_text(s.start_time)
    &&& r.task@ == s.task@
    &&& r.tag@ == (match s.tag {
        Some(t) => t@,
        None => dash(),
    })
    &&& r.duration@ == (match session_duration(s) {
        Some(d) => duration_text(d as int),
        None => dash(),
    })
    &&& r.mode@ == s.mode@
}

fn dash_string() -> (r: String)
    ensures
        r@ == dash(),
{
    let mut s = String::new();
    s.push('—');
    assert(s@ =~= dash());
    s
}

/// `ts` in UTC with the format `fmt` (the Unix epoch when out of range).
pub fn utc_time_text(ts: i64, fmt: &str) -> (r: String)
    requires
        known_format(fmt@),
    ensures
        r@ == time_text(ts, fmt@),
{
    match format_utc(ts, fmt) {
        Some(t) => t,
        None => match format_utc(0, fmt) {
            Some(t) => t,
            None => String::new(),
        },
    }
}

/// The rows of the session log table, one per session, in order.
pub fn build_table_rows(sessions: &[Session]) -> (rows: Vec<TableRow>)
    ensures
        rows@.len() == sessions@.len(),
        forall|i: int| 0 <= i < sessions@.len() ==> row_of(#[trigger] rows@[i], sessions@[i]),
{
    let mut rows: Vec<TableRow> = Vec::new();
    let mut i: usize = 0;
    while i < sessions.len()
        invariant
            i <= sessions@.len(),
            rows@.len() == i,
            forall|k: int| 0 <= k < i ==> row_of(#[trigger] rows@[k], sessions@[k]),
        decreases sessions@.len() - i,
    {
        let s = &sessions[i];
        let tag = match &s.tag {
            Some(t) => t.clone(),
            None => dash_string(),
        };
        let duration = match s.duration() {
            Some(d) => format_duration(d),
            None => dash_string(),
        };
        let row = TableRow {
            date: utc_time_text(s.start_time, "%Y-%m-%d %H:%M"),
            task: s.task.clone(),
            tag,
            duration,
            mode: s.mode.clone(),
        };
        rows.push(row);
        i = i + 1;
    }
    rows
}

} // verus!
