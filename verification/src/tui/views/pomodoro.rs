//! The Pomodoro view.
use vstd::prelude::*;
use crate::models::pomodoro::{phase_label_spec, PomodoroPhase};
use crate::clock::unix_now;
use crate::pomodoro::timer::{elapsed_from, phase_after, format_secs, mm_ss, PomodoroTimer};
use crate::text::{decimal, push_decimal, push_str};
use crate::tui::timer_display::{anim_rows, glyph_text, max1, ms_text, pomo_tier, views, TimerDisplay};

verus! {

/// The preview of the next phase: after work, a long break when the next
/// completed work phase is a multiple of `long_break_after` (taken as 1 at
/// least), a break otherwise; after a break, work.
pub open spec fn next_phase_spec(t: PomodoroTimer) -> Seq<char> {
    let c = t.config;
    match t.phase {
        PomodoroPhase::Work => {
            let n: nat = if c.long_break_after >= 1 {
                c.long_break_after as nat
            } else {
                1
            };
            if (t.completed_work as nat + 1) % n == 0 {
                "Next: "@ + decimal(c.long_break_duration_mins as nat) + "m long break"@
            } else {
                "Next: "@ + decimal(c.break_duration_mins as nat) + "m break"@
            }
        },
        _ => "Next: "@ + decimal(c.work_duration_mins as nat) + "m work"@,
    }
}

/// The preview names the phase the timer enters next, as the timer's own
/// transition rule `phase_after` decides it (counting the work phase under
/// way as done), with that phase's length in minutes. (With
/// `long_break_after` at 0 the preview takes it as 1 and announces a long
/// break after every work phase.)
pub proof fn law_preview_names_the_next_phase(t: PomodoroTimer)
    ensures
        t.phase is Work && t.config.long_break_after == 0 ==> next_phase_spec(t) == "Next: "@
            + decimal(t.config.long_break_duration_mins as nat) + "m long break"@,
        t.config.long_break_after >= 1 ==>
        ({
            let c = t.config;
            let next = if t.phase is Work {
                phase_after(c, PomodoroPhase::Work, t.completed_work as nat + 1)
            } else {
                PomodoroPhase::Work
            };
            next_phase_spec(t) == "Next: "@ + match next {
                PomodoroPhase::Work => decimal(c.work_duration_mins as nat) + "m work"@,
                PomodoroPhase::Break => decimal(c.break_duration_mins as nat) + "m break"@,
                PomodoroPhase::LongBreak => decimal(c.long_break_duration_mins as nat)
                    + "m long break"@,
            }
        }),
{
}

/// The "Next: …" preview line of the Pomodoro view.
pub fn next_phase_text(timer: &PomodoroTimer) -> (r: String)
    ensures
        r@ == next_phase_spec(*timer),
{
    let cfg = &timer.config;
    let mut s = String::new();
    push_str(&mut s, "Next: ");
    match timer.phase {
        PomodoroPhase::Work => {
            let n: u64 = if cfg.long_break_after >= 1 {
                cfg.long_break_after as u64
            } else {
                1
            };
            if (timer.completed_work as u64 + 1) % n == 0 {
                push_decimal(&mut s, cfg.long_break_duration_mins as u64);
                push_str(&mut s, "m long break");
            } else {
                push_decimal(&mut s, cfg.break_duration_mins as u64);
                push_str(&mut s, "m break");
            }
        },
        _ => {
            push_decimal(&mut s, cfg.work_duration_mins as u64);
            push_str(&mut s, "m work");
        },
    }
    assert(s@ =~= next_phase_spec(*timer));
    s
}

/// The clock of the Pomodoro view in a panel `width` columns wide: plain
/// "MM:SS" when big digits do not fit, thin digits at the smallest size, and
/// fading big digits otherwise, drawn from the tracked current and previous
/// texts and their per-character frames.
pub open spec fn clock_spec(width: nat, remaining: nat, curr: Seq<char>, prev: Seq<char>, frames: Seq<u8>) -> Seq<Seq<char>> {
    match pomo_tier(width) {
        None => seq![ms_text(remaining)],
        Some(dw) => if dw >= 5 {
            anim_rows(curr, prev, frames, dw as nat)
        } else {
            glyph_text(curr, true)
        },
    }
}

/// The rows of the Pomodoro clock (see `clock_spec`).
pub fn pomodoro_clock_rows(width: u16, remaining_secs: u64, curr: &str, prev: &str, frames: &[u8]) -> (rows: Vec<String>)
    ensures
        views(rows@) == clock_spec(width as nat, remaining_secs as nat, curr@, prev@, frames@),
{
    match TimerDisplay::best_digit_width_pomo(width) {
        None => {
            let plain = TimerDisplay { duration_secs: remaining_secs }.render_pomodoro();
            let v = vec![plain];
            assert(views(v@) =~= seq![ms_text(remaining_secs as nat)]);
            v
        },
        Some(dw) => if dw >= 5 {
            TimerDisplay::render_animated_big_sized(curr, prev, frames, dw)
        } else {
            TimerDisplay::render_big_thin_str(curr)
        },
    }
}

/// Whether a panel `height` rows high has room for the three info lines
/// below a clock `clock_height` rows high (with the phase label, the
/// progress bar and two spacers).
pub fn shows_info(height: u16, clock_height: u16) -> (r: bool)
    ensures
        r == (height as int >= clock_height as int + 8),
{
    height as u32 >= clock_height as u32 + 8
}

/// The phase heading: its label, marked when paused.
pub open spec fn heading_spec(t: PomodoroTimer) -> Seq<char> {
    phase_label_spec(t.phase) + if t.paused {
        " [PAUSED]"@
    } else {
        Seq::empty()
    }
}

/// The phase heading of the Pomodoro view.
pub fn phase_heading(timer: &PomodoroTimer) -> (r: String)
    ensures
        r@ == heading_spec(*timer),
{
    let mut s = String::new();
    push_str(&mut s, timer.phase_label());
    if timer.paused {
        push_str(&mut s, " [PAUSED]");
    }
    s
}

/// A work phase of the current cycle, as drawn in the session dots.
#[derive(Debug, Clone, Copy, PartialEq, Eq, Structural)]
pub enum SessionDot {
    /// Completed.
    Done,
    /// Being worked on now.
    Current,
    /// Still to come.
    Pending,
}

/// Work phases in a cycle: `long_break_after`, at least 1.
pub open spec fn cycle_len(t: PomodoroTimer) -> nat {
    max1(t.config.long_break_after as nat)
}

/// Work phases completed in the current cycle.
pub open spec fn done_in_cycle(t: PomodoroTimer) -> nat {
    t.completed_work as nat % cycle_len(t)
}

/// The dot of the `i`-th work phase of the cycle.
pub open spec fn dot_at(t: PomodoroTimer, i: nat) -> SessionDot {
    if i < done_in_cycle(t) {
        SessionDot::Done
    } else if i == done_in_cycle(t) && t.phase is Work {
        SessionDot::Current
    } else {
        SessionDot::Pending
    }
}

/// The number of the work phase in progress (the last completed one during a break).
pub open spec fn current_session(t: PomodoroTimer) -> nat {
    if t.phase is Work {
        done_in_cycle(t) + 1
    } else {
        done_in_cycle(t)
    }
}

/// The session dots of the cycle, the number of the current work phase, and
/// the cycle length ("● ◉ ○ ○  2 / 4").
pub fn session_dots(timer: &PomodoroTimer) -> (r: (Vec<SessionDot>, u32, u32))
    ensures
        r.0@.len() == cycle_len(*timer),
        forall|i: int| 0 <= i < r.0@.len() ==> r.0@[i] == dot_at(*timer, i as nat),
        r.1 == current_session(*timer),
        r.2 == cycle_len(*timer),
{
    let n: u32 = if timer.config.long_break_after >= 1 {
        timer.config.long_break_after
    } else {
        1
    };
    let done = timer.completed_work % n;
    let work = timer.is_in_work_phase();
    let mut dots: Vec<SessionDot> = Vec::new();
    let mut i: u32 = 0;
    while i < n
        invariant
            i <= n,
            n == cycle_len(*timer),
            done == done_in_cycle(*timer),
            work == (timer.phase is Work),
            dots@.len() == i,
            forall|j: int| 0 <= j < i ==> dots@[j] == dot_at(*timer, j as nat),
        decreases n - i,
    {
        let d = if i < done {
            SessionDot::Done
        } else if i == done && work {
            SessionDot::Current
        } else {
            SessionDot::Pending
        };
        dots.push(d);
        i = i + 1;
    }
    let current = if work {
        done + 1
    } else {
        done
    };
    (dots, current, n)
}

/// The line of next phase and keys under the Pomodoro clock; the extension
/// key is listed in panels 50 columns wide or more.
pub open spec fn hints_spec(t: PomodoroTimer, width: nat) -> Seq<char> {
    next_phase_spec(t) + "   [P] pause  [S] skip  "@ + (if width >= 50 {
        "[+] +5m  "@
    } else {
        Seq::empty()
    }) + "[Q] stop"@
}

/// The hints line of the Pomodoro view (see `hints_spec`).
pub fn hints_text(timer: &PomodoroTimer, width: u16) -> (r: String)
    ensures
        r@ == hints_spec(*timer, width as nat),
{
    let mut s = next_phase_text(timer);
    push_str(&mut s, "   [P] pause  [S] skip  ");
    if width >= 50 {
        push_str(&mut s, "[+] +5m  ");
    }
    push_str(&mut s, "[Q] stop");
    s
}

/// The title of the full-screen Pomodoro panel, with the session's elapsed
/// time measured at `now`.
pub open spec fn panel_title_spec(timer: Option<PomodoroTimer>, now: i64) -> Seq<char> {
    match timer {
        Some(t) => " Pomodoro  "@ + decimal(t.completed_work as nat) + "/"@ + decimal(
            t.config.long_break_after as nat,
        ) + "  elapsed: "@ + mm_ss(elapsed_from(t.session_started_at, now) as nat)
            + "  [F] collapse "@,
        None => " Pomodoro — Full View  [F] collapse "@,
    }
}

/// The title of the full-screen Pomodoro panel at the moment `now`.
pub fn full_panel_title_at(timer: &Option<PomodoroTimer>, now: i64) -> (r: String)
    ensures
        r@ == panel_title_spec(*timer, now),
{
    let mut s = String::new();
    match timer {
        Some(t) => {
            push_str(&mut s, " Pomodoro  ");
            push_decimal(&mut s, t.completed_work as u64);
            push_str(&mut s, "/");
            push_decimal(&mut s, t.config.long_break_after as u64);
            push_str(&mut s, "  elapsed: ");
            let e = format_secs(t.elapsed_secs_at(now));
            push_str(&mut s, e.as_str());
            push_str(&mut s, "  [F] collapse ");
        },
        None => push_str(&mut s, " Pomodoro — Full View  [F] collapse "),
    }
    s
}

/// The title of the full-screen Pomodoro panel, measured now.
pub fn full_panel_title(timer: &Option<PomodoroTimer>) -> (r: String)
    ensures
        exists|now: i64| r@ == #[trigger] panel_title_spec(*timer, now),
{
    full_panel_title_at(timer, unix_now())
}

} // verus!
