//! `focus start`: freeform sessions and the terminal Pomodoro.
use vstd::prelude::*;
use crate::error::FocusError;
use crate::models::pomodoro::{phase_label_spec, PomodoroPhase};
use crate::pomodoro::timer::{mm_ss, PomodoroTimer, TimerEvent};
use crate::text::{decimal, push_decimal, push_str, trim, trimmed};
use crate::tui::keys::Key;

verus! {

/// The task of a new session: trimmed, and an error when blank.
pub fn validate_task(task: &str) -> (r: Result<String, FocusError>)
    ensures
        r is Ok <==> trim(task@).len() > 0,
        r matches Ok(t) ==> t@ == trim(task@),
        r matches Err(e) ==> e is EmptyTask,
{
    let t = trimmed(task);
    if t.as_str().is_empty() {
        Err(FocusError::EmptyTask)
    } else {
        Ok(t)
    }
}

/// `gap` then "[tag: …]" for a tag, nothing without one.
pub open spec fn tag_suffix_spec(tag: Option<Seq<char>>, gap: Seq<char>) -> Seq<char> {
    match tag {
        Some(t) => gap + "[tag: "@ + t + "]"@,
        None => Seq::empty(),
    }
}

pub open spec fn opt_view(tag: Option<&str>) -> Option<Seq<char>> {
    match tag {
        Some(t) => Some(t@),
        None => None,
    }
}

/// Appends `gap` and "[tag: …]" when there is a tag.
pub fn push_tag_suffix(out: &mut String, tag: Option<&str>, gap: &str)
    ensures
        final(out)@ == old(out)@ + tag_suffix_spec(opt_view(tag), gap@),
{
    match tag {
        Some(t) => {
            push_str(out, gap);
            push_str(out, "[tag: ");
            push_str(out, t);
            push_str(out, "]");
        },
        None => {},
    }
    assert(final(out)@ =~= old(out)@ + tag_suffix_spec(opt_view(tag), gap@));
}

/// The error line when a session is already running.
pub fn already_running_text(task: &str, tag: Option<&str>, elapsed: &str) -> (r: String)
    ensures
        r@ == "Error: Session already running: \""@ + task@ + "\""@ + tag_suffix_spec(
            opt_view(tag),
            " "@,
        ) + "  — elapsed: "@ + elapsed@,
{
    let mut s = String::new();
    push_str(&mut s, "Error: Session already running: \"");
    push_str(&mut s, task);
    push_str(&mut s, "\"");
    push_tag_suffix(&mut s, tag, " ");
    push_str(&mut s, "  — elapsed: ");
    push_str(&mut s, elapsed);
    s
}

/// The confirmation of a started freeform session.
pub fn session_started_text(task: &str, tag: Option<&str>) -> (r: String)
    ensures
        r@ == "Session started: "@ + task@ + tag_suffix_spec(opt_view(tag), "  "@),
{
    let mut s = String::new();
    push_str(&mut s, "Session started: ");
    push_str(&mut s, task);
    push_tag_suffix(&mut s, tag, "  ");
    s
}

/// The confirmation of a started Pomodoro.
pub fn pomodoro_started_text(task: &str, tag: Option<&str>) -> (r: String)
    ensures
        r@ == "Pomodoro session started: "@ + task@ + tag_suffix_spec(opt_view(tag), " "@),
{
    let mut s = String::new();
    push_str(&mut s, "Pomodoro session started: ");
    push_str(&mut s, task);
    push_tag_suffix(&mut s, tag, " ");
    s
}

/// The line announcing a phase change in the terminal Pomodoro.
pub open spec fn phase_change_spec(from: PomodoroPhase, to: PomodoroPhase) -> Seq<char> {
    match from {
        PomodoroPhase::Work => "Work phase complete! Starting "@ + phase_label_spec(to) + "."@,
        _ => "Break over! Starting "@ + phase_label_spec(to) + "."@,
    }
}

/// The line announcing a phase change from `from` to `to`.
pub fn phase_change_text(from: PomodoroPhase, to: PomodoroPhase) -> (r: String)
    ensures
        r@ == phase_change_spec(from, to),
{
    let mut s = String::new();
    match from {
        PomodoroPhase::Work => push_str(&mut s, "Work phase complete! Starting "),
        _ => push_str(&mut s, "Break over! Starting "),
    }
    push_str(&mut s, to.label());
    push_str(&mut s, ".");
    assert(s@ =~= phase_change_spec(from, to));
    s
}

/// The status line of the terminal Pomodoro.
pub open spec fn status_line_spec(t: PomodoroTimer) -> Seq<char> {
    phase_label_spec(t.phase) + " | "@ + mm_ss(t.remaining_secs as nat) + " | Pomodoro "@
        + decimal(t.completed_work as nat) + "/"@ + decimal(t.config.long_break_after as nat)
        + (if t.paused {
        " [PAUSED]"@
    } else {
        Seq::empty()
    }) + "  [P] pause  [S] skip  [Q] stop"@
}

/// The status line: phase, time left, work phases done, pause marker, keys.
pub fn pomodoro_status_line(timer: &PomodoroTimer) -> (r: String)
    ensures
        r@ == status_line_spec(*timer),
{
    let mut s = String::new();
    push_str(&mut s, timer.phase_label());
    push_str(&mut s, " | ");
    let rem = timer.format_remaining();
    push_str(&mut s, rem.as_str());
    push_str(&mut s, " | Pomodoro ");
    push_decimal(&mut s, timer.completed_work as u64);
    push_str(&mut s, "/");
    push_decimal(&mut s, timer.config.long_break_after as u64);
    if timer.paused {
        push_str(&mut s, " [PAUSED]");
    }
    push_str(&mut s, "  [P] pause  [S] skip  [Q] stop");
    assert(s@ =~= status_line_spec(*timer));
    s
}

/// What the terminal Pomodoro makes of a timer tick: the lines to print (one
/// per phase change), the notifications to send (for changes that saved a
/// work phase), and whether the session was abandoned.
pub open spec fn tick_lines(events: Seq<TimerEvent>) -> (Seq<Seq<char>>, Seq<Seq<char>>, bool)
    decreases events.len(),
{
    if events.len() == 0 {
        (Seq::empty(), Seq::empty(), false)
    } else {
        let (lines, notes, ab) = tick_lines(events.drop_last());
        match events.last() {
            TimerEvent::PhaseComplete { from, to, work_saved } => (
                lines.push(phase_change_spec(from, to)),
                if work_saved {
                    notes.push(phase_change_spec(from, to))
                } else {
                    notes
                },
                ab,
            ),
            TimerEvent::AutoAbandoned { .. } => (lines, notes, true),
            _ => (lines, notes, ab),
        }
    }
}

/// Reacts to the events of a tick of the terminal Pomodoro (see `tick_lines`).
pub fn pomodoro_tick_output(events: &Vec<TimerEvent>) -> (r: (Vec<String>, Vec<String>, bool))
    ensures
        r.0@.map_values(|s: String| s@) == tick_lines(events@).0,
        r.1@.map_values(|s: String| s@) == tick_lines(events@).1,
        r.2 == tick_lines(events@).2,
{
    let mut lines: Vec<String> = Vec::new();
    let mut notes: Vec<String> = Vec::new();
    let mut abandoned = false;
    let mut i: usize = 0;
    while i < events.len()
        invariant
            i <= events@.len(),
            lines@.map_values(|s: String| s@) == tick_lines(events@.take(i as int)).0,
            notes@.map_values(|s: String| s@) == tick_lines(events@.take(i as int)).1,
            abandoned == tick_lines(events@.take(i as int)).2,
        decreases events@.len() - i,
    {
        assert(events@.take(i + 1).drop_last() =~= events@.take(i as int));
        assert(events@.take(i + 1).last() == events@[i as int]);
        match events[i] {
            TimerEvent::PhaseComplete { from, to, work_saved } => {
                let line = phase_change_text(from, to);
                if work_saved {
                    let note = phase_change_text(from, to);
                    notes.push(note);
                }
                lines.push(line);
            },
            TimerEvent::AutoAbandoned { .. } => {
                abandoned = true;
            },
            _ => {},
        }
        assert(lines@.map_values(|s: String| s@) =~= tick_lines(events@.take(i + 1)).0);
        assert(notes@.map_values(|s: String| s@) =~= tick_lines(events@.take(i + 1)).1);
        i = i + 1;
    }
    assert(events@.take(events@.len() as int) =~= events@);
    (lines, notes, abandoned)
}

/// A key in the terminal Pomodoro: Ctrl-C or `q` stops (returns true), `p`
/// pauses or resumes, `s` skips a break.
pub fn pomodoro_cli_key(timer: &mut PomodoroTimer, key: Key, ctrl: bool) -> (quit: bool)
    ensures
        quit == ((ctrl && key == Key::Char('c')) || key == Key::Char('q') || key == Key::Char('Q')),
        quit ==> *final(timer) == *old(timer),
        !quit && (key == Key::Char('p') || key == Key::Char('P')) ==> crate::tui::events::toggled(
            *old(timer),
            *final(timer),
        ),
        !quit && (key == Key::Char('s') || key == Key::Char('S'))
            ==> crate::tui::events::break_skipped(*old(timer), *final(timer)),
        !quit && !(key == Key::Char('p') || key == Key::Char('P') || key == Key::Char('s') || key
            == Key::Char('S')) ==> *final(timer) == *old(timer),
{
    if (ctrl && key == Key::Char('c')) || key == Key::Char('q') || key == Key::Char('Q') {
        return true;
    }
    if key == Key::Char('p') || key == Key::Char('P') {
        if timer.paused {
            timer.resume();
        } else {
            timer.pause();
        }
    } else if key == Key::Char('s') || key == Key::Char('S') {
        timer.skip_break();
    }
    false
}

/// The closing line of the terminal Pomodoro, and whether to count an
/// abandoned work phase (stopping during work abandons it).
pub fn pomodoro_summary(timer: &PomodoroTimer) -> (r: (String, bool))
    ensures
        r.1 == (timer.phase is Work),
        r.0@ == decimal(timer.completed_work as nat) + " completed, "@ + decimal(
            if timer.phase is Work {
                1nat
            } else {
                0nat
            },
        ) + " abandoned."@,
{
    let in_work = timer.is_in_work_phase();
    let mut s = String::new();
    push_decimal(&mut s, timer.completed_work as u64);
    push_str(&mut s, " completed, ");
    push_decimal(
        &mut s,
        if in_work {
            1
        } else {
            0
        },
    );
    push_str(&mut s, " abandoned.");
    (s, in_work)
}

} // verus!
