//! The Pomodoro timer: a state machine over work and break phases.
//!
//! Persisting finished phases is the caller's business: every
//! `PhaseComplete` event tells which phase ended.
use vstd::prelude::*;
use std::time::Instant;
use crate::clock::{secs_since, unix_now};
use crate::models::pomodoro::{PomodoroPhase, phase_label_spec};
use crate::pomodoro::config::PomodoroConfig;
use crate::text::{pad2, push_pad2};

verus! {

/// Events emitted by `PomodoroTimer::tick_secs`.
#[derive(Debug, Clone, Copy, PartialEq, Eq, Structural)]
pub enum TimerEvent {
    Tick,
    PhaseComplete { from: PomodoroPhase, to: PomodoroPhase, work_saved: bool },
    AutoAbandoned { completed: u32 },
    Paused,
    Resumed,
}

pub struct PomodoroTimer {
    pub phase: PomodoroPhase,
    pub completed_work: u32,
    pub remaining_secs: u64,
    pub paused: bool,
    /// Seconds of the pauses of the current phase that have ended (the one
    /// under way, if any, is measured from `pause_started`).
    pub pause_accumulated_secs: u64,
    /// Monotonic instant when the current pause began (None if not paused).
    pub pause_started: Option<Instant>,
    pub config: PomodoroConfig,
    pub task: String,
    pub tag: Option<String>,
    /// Wall-clock start of the overall session (for total-elapsed display).
    pub session_started_at: i64,
}

/// Length in seconds of a phase under a configuration.
pub open spec fn phase_secs(c: PomodoroConfig, p: PomodoroPhase) -> nat {
    match p {
        PomodoroPhase::Work => c.work_duration_mins as nat * 60,
        PomodoroPhase::Break => c.break_duration_mins as nat * 60,
        PomodoroPhase::LongBreak => c.long_break_duration_mins as nat * 60,
    }
}

/// `a.is_multiple_of(n)` for unsigned integers (only 0 is a multiple of 0).
pub open spec fn multiple_of(a: nat, n: nat) -> bool {
    if n == 0 {
        a == 0
    } else {
        a % n == 0
    }
}

/// The phase that follows `p` once `completed` work phases have been finished:
/// a long break after every `long_break_after`-th work phase, a short break
/// after the others, and work after any break.
pub open spec fn phase_after(c: PomodoroConfig, p: PomodoroPhase, completed: nat) -> PomodoroPhase {
    match p {
        PomodoroPhase::Work => if multiple_of(completed, c.long_break_after as nat) {
            PomodoroPhase::LongBreak
        } else {
            PomodoroPhase::Break
        },
        _ => PomodoroPhase::Work,
    }
}

/// Every phase lasts at least one minute.
pub open spec fn durations_positive(c: PomodoroConfig) -> bool {
    c.work_duration_mins >= 1 && c.break_duration_mins >= 1 && c.long_break_duration_mins >= 1
}

/// Running the clock gets on: after a phase of no length, a phase with a
/// length comes within a few phases. That is so when work lasts; when both
/// kinds of break do; when only the long break does and one comes every
/// `long_break_after` work phases; and when only the short break does and
/// long breaks do not follow every work phase. (With every phase empty, or
/// empty phases only between which the only phase with a length never comes,
/// the clock would turn forever.)
pub open spec fn phases_progress(c: PomodoroConfig) -> bool {
    ||| c.work_duration_mins >= 1
    ||| (c.break_duration_mins >= 1 && c.long_break_duration_mins >= 1)
    ||| (c.break_duration_mins == 0 && c.long_break_duration_mins >= 1 && c.long_break_after >= 1)
    ||| (c.break_duration_mins >= 1 && c.long_break_duration_mins == 0 && c.long_break_after != 1)
}

/// Work phases still to complete, counting from `completed`, until the count
/// is a multiple of `n` (between 1 and `n`).
pub open spec fn to_long_break(completed: nat, n: nat) -> nat {
    (n - completed % n) as nat
}

/// How many empty phases may still be passed at most, from phase `p` with
/// `completed` work phases done and `remaining` seconds left, before one with
/// time left (none when time is left).
pub open spec fn zero_rank(c: PomodoroConfig, p: PomodoroPhase, completed: nat, remaining: nat) -> int {
    let n = c.long_break_after as nat;
    if remaining > 0 {
        0
    } else if c.work_duration_mins >= 1 {
        if p is Work {
            2
        } else {
            1
        }
    } else if c.break_duration_mins >= 1 && c.long_break_duration_mins >= 1 {
        if p is Work {
            1
        } else {
            2
        }
    } else if c.break_duration_mins == 0 && c.long_break_duration_mins >= 1 && n >= 1 {
        if p is Work {
            2 * to_long_break(completed, n) - 1
        } else {
            2 * to_long_break(completed, n) as int
        }
    } else {
        match p {
            PomodoroPhase::Work => if multiple_of(completed + 1, n) {
                3
            } else {
                1
            },
            PomodoroPhase::LongBreak => if multiple_of(completed, n) {
                2
            } else {
                4
            },
            PomodoroPhase::Break => 4,
        }
    }
}

proof fn lemma_mod_succ(k: nat, n: nat)
    requires
        n >= 1,
        (k + 1) % n != 0,
    ensures
        (k + 1) % n == k % n + 1,
{
    vstd::arithmetic::div_mod::lemma_add_mod_noop(k as int, 1, n as int);
    vstd::arithmetic::div_mod::lemma_small_mod(1, n);
    if k % n + 1 < n {
        vstd::arithmetic::div_mod::lemma_small_mod((k % n + 1) as nat, n);
    } else {
        assert(k % n + 1 == n);
        assert((n as int) % (n as int) == 0) by {
            vstd::arithmetic::div_mod::lemma_mod_self_0(n as int);
        }
    }
}

/// Passing the end of an empty phase brings the clock nearer to a phase with
/// a length.
pub proof fn lemma_zero_rank_decreases(c: PomodoroConfig, p: PomodoroPhase, completed: nat)
    requires
        phases_progress(c),
    ensures
        ({
            let k = count_after(p, completed);
            let p2 = phase_after(c, p, k);
            0 <= zero_rank(c, p2, k, phase_secs(c, p2)) < zero_rank(c, p, completed, 0)
        }),
{
    let n = c.long_break_after as nat;
    let k = count_after(p, completed);
    let p2 = phase_after(c, p, k);
    if c.work_duration_mins == 0 && !(c.break_duration_mins >= 1 && c.long_break_duration_mins >= 1) {
        if c.break_duration_mins == 0 && c.long_break_duration_mins >= 1 && n >= 1 {
            assert(completed % n < n);
            assert(k % n < n);
            if p is Work && !multiple_of(k, n) {
                lemma_mod_succ(completed, n);
            }
        } else {
            if p is LongBreak && multiple_of(completed, n) && n >= 1 {
                assert(n != 1);
                vstd::arithmetic::div_mod::lemma_small_mod(1, n);
                vstd::arithmetic::div_mod::lemma_add_mod_noop(completed as int, 1, n as int);
                vstd::arithmetic::div_mod::lemma_mod_self_0(n as int);
            }
        }
    }
}

/// The count after finishing phase `p` with `completed` work phases done so far.
pub open spec fn count_after(p: PomodoroPhase, completed: nat) -> nat {
    if p is Work {
        completed + 1
    } else {
        completed
    }
}

/// Running the clock for `delta` seconds from phase `p` with `remaining`
/// seconds left: the phase, completed-work count and remaining seconds at
/// the end, and the events emitted on the way (one `PhaseComplete` per phase
/// boundary crossed, and a `Tick` when time is left over in the last phase).
pub open spec fn run(c: PomodoroConfig, p: PomodoroPhase, completed: nat, remaining: nat, delta: nat) -> (
    PomodoroPhase,
    nat,
    nat,
    Seq<TimerEvent>,
)
    decreases delta, zero_rank(c, p, completed, remaining),
    when phases_progress(c)
{
    if delta == 0 {
        (p, completed, remaining, seq![])
    } else if delta < remaining {
        (p, completed, (remaining - delta) as nat, seq![TimerEvent::Tick])
    } else {
        let k = count_after(p, completed);
        let p2 = phase_after(c, p, k);
        proof {
            if remaining == 0 {
                lemma_zero_rank_decreases(c, p, completed);
            }
        }
        let rest = run(c, p2, k, phase_secs(c, p2), (delta - remaining) as nat);
        (
            rest.0,
            rest.1,
            rest.2,
            seq![TimerEvent::PhaseComplete { from: p, to: p2, work_saved: p is Work }] + rest.3,
        )
    }
}

/// Threshold of pause time after which a paused session is abandoned.
pub open spec fn abandon_after_secs() -> nat {
    3600
}

/// How long the pause under way has lasted when a tick of `delta` seconds
/// comes: what the clock measured since it began, and at least the tick
/// itself, since that time passed while paused.
pub open spec fn current_pause(pause_elapsed: nat, delta: nat) -> nat {
    if pause_elapsed >= delta {
        pause_elapsed
    } else {
        delta
    }
}

/// The paused timer `t` resumed after a pause of `e` seconds.
pub open spec fn resumed_after(t: PomodoroTimer, e: u64) -> PomodoroTimer {
    PomodoroTimer {
        paused: false,
        pause_started: None,
        pause_accumulated_secs: sat_add(t.pause_accumulated_secs, e),
        ..t
    }
}

/// `a + b`, saturating at `u64::MAX`.
pub open spec fn sat_add(a: u64, b: u64) -> u64 {
    if a + b > u64::MAX {
        u64::MAX
    } else {
        (a + b) as u64
    }
}

/// The timer and events after `tick_secs(delta)`, when the current pause (if
/// any) has lasted `pause_elapsed` seconds: a paused timer is abandoned once
/// its ended pauses and the current one reach an hour, and otherwise left as
/// it is.
pub open spec fn tick_result(t: PomodoroTimer, delta: nat, pause_elapsed: nat) -> (
    PomodoroTimer,
    Seq<TimerEvent>,
) {
    if delta == 0 {
        (t, seq![TimerEvent::Tick])
    } else if t.paused {
        if t.pause_accumulated_secs + current_pause(pause_elapsed, delta) >= abandon_after_secs() {
            (
                PomodoroTimer { paused: false, ..t },
                seq![TimerEvent::AutoAbandoned { completed: t.completed_work }],
            )
        } else {
            (t, seq![TimerEvent::Tick])
        }
    } else if delta < t.remaining_secs {
        (
            PomodoroTimer { remaining_secs: (t.remaining_secs - delta) as u64, ..t },
            seq![TimerEvent::Tick],
        )
    } else {
        let r = run(t.config, t.phase, t.completed_work as nat, t.remaining_secs as nat, delta);
        (
            PomodoroTimer {
                phase: r.0,
                completed_work: r.1 as u32,
                remaining_secs: r.2 as u64,
                pause_accumulated_secs: 0,
                ..t
            },
            r.3,
        )
    }
}

/// The tick can be carried out: a tick that crosses the end of a running
/// phase needs phases that get on (with every phase empty it would never
/// end) and a completed-work counter that does not overflow.
pub open spec fn tick_allowed(t: PomodoroTimer, delta: nat) -> bool {
    ||| t.paused
    ||| delta < t.remaining_secs
    ||| {
        &&& phases_progress(t.config)
        &&& run(t.config, t.phase, t.completed_work as nat, t.remaining_secs as nat, delta).1
            <= u32::MAX
    }
}

/// "MM:SS" with minutes padded to at least two digits.
pub open spec fn mm_ss(secs: nat) -> Seq<char> {
    pad2(secs / 60) + seq![':'] + pad2(secs % 60)
}

pub proof fn lemma_run_count_monotone(
    c: PomodoroConfig,
    p: PomodoroPhase,
    completed: nat,
    remaining: nat,
    delta: nat,
)
    requires
        phases_progress(c),
    ensures
        run(c, p, completed, remaining, delta).1 >= completed,
    decreases delta, zero_rank(c, p, completed, remaining),
{
    if delta != 0 && delta >= remaining {
        let k = count_after(p, completed);
        let p2 = phase_after(c, p, k);
        if remaining == 0 {
            lemma_zero_rank_decreases(c, p, completed);
        }
        lemma_run_count_monotone(c, p2, k, phase_secs(c, p2), (delta - remaining) as nat);
    }
}

/// The most empty phases passed in a row before one with a length.
pub open spec fn max_rank(c: PomodoroConfig) -> nat {
    2 * c.long_break_after as nat + 4
}

proof fn lemma_zero_rank_bounded(c: PomodoroConfig, p: PomodoroPhase, completed: nat, remaining: nat)
    ensures
        0 <= zero_rank(c, p, completed, remaining) <= max_rank(c),
{
    let n = c.long_break_after as nat;
    if n >= 1 {
        assert(completed % n < n);
    }
}

/// Each phase crossed either takes a second at least or is one of at most
/// `max_rank` empty ones in a row, so the count grows by at most
/// `max_rank + 1` per second, and `max_rank` more.
pub proof fn lemma_run_count_bound(
    c: PomodoroConfig,
    p: PomodoroPhase,
    completed: nat,
    remaining: nat,
    delta: nat,
)
    requires
        phases_progress(c),
    ensures
        run(c, p, completed, remaining, delta).1 <= completed + (max_rank(c) + 1) * delta + zero_rank(
            c,
            p,
            completed,
            remaining,
        ),
    decreases delta, zero_rank(c, p, completed, remaining),
{
    lemma_zero_rank_bounded(c, p, completed, remaining);
    if delta != 0 && delta >= remaining {
        let k = count_after(p, completed);
        let p2 = phase_after(c, p, k);
        if remaining == 0 {
            lemma_zero_rank_decreases(c, p, completed);
        }
        let d2 = (delta - remaining) as nat;
        lemma_run_count_bound(c, p2, k, phase_secs(c, p2), d2);
        lemma_zero_rank_bounded(c, p2, k, phase_secs(c, p2));
        let m = max_rank(c) + 1;
        assert(m * delta == m * d2 + m * remaining) by (nonlinear_arith)
            requires
                delta == d2 + remaining,
        ;
        if remaining > 0 {
            assert(m * remaining >= m) by (nonlinear_arith)
                requires
                    remaining >= 1,
            ;
        }
    }
}

/// The events of a run: one per phase crossed and a last tick.
pub proof fn lemma_run_events_bound(
    c: PomodoroConfig,
    p: PomodoroPhase,
    completed: nat,
    remaining: nat,
    delta: nat,
)
    requires
        phases_progress(c),
    ensures
        run(c, p, completed, remaining, delta).3.len() <= (max_rank(c) + 1) * delta + zero_rank(
            c,
            p,
            completed,
            remaining,
        ) + 1,
    decreases delta, zero_rank(c, p, completed, remaining),
{
    lemma_zero_rank_bounded(c, p, completed, remaining);
    if delta != 0 && delta >= remaining {
        let k = count_after(p, completed);
        let p2 = phase_after(c, p, k);
        if remaining == 0 {
            lemma_zero_rank_decreases(c, p, completed);
        }
        let d2 = (delta - remaining) as nat;
        lemma_run_events_bound(c, p2, k, phase_secs(c, p2), d2);
        lemma_zero_rank_bounded(c, p2, k, phase_secs(c, p2));
        let m = max_rank(c) + 1;
        assert(m * delta == m * d2 + m * remaining) by (nonlinear_arith)
            requires
                delta == d2 + remaining,
        ;
        if remaining > 0 {
            assert(m * remaining >= m) by (nonlinear_arith)
                requires
                    remaining >= 1,
            ;
        }
    } else if delta > 0 {
        assert((max_rank(c) + 1) * delta >= 0) by (nonlinear_arith);
    }
}

/// Running the clock for `a` seconds and then for `b` seconds ends in the same
/// phase, count and remaining time as running it for `a + b` seconds.
pub proof fn lemma_run_additive(
    c: PomodoroConfig,
    p: PomodoroPhase,
    completed: nat,
    remaining: nat,
    a: nat,
    b: nat,
)
    requires
        phases_progress(c),
    ensures
        ({
            let r1 = run(c, p, completed, remaining, a);
            let r2 = run(c, r1.0, r1.1, r1.2, b);
            let r = run(c, p, completed, remaining, a + b);
            r2.0 == r.0 && r2.1 == r.1 && r2.2 == r.2
        }),
    decreases a, zero_rank(c, p, completed, remaining),
{
    if a != 0 && a >= remaining {
        let k = count_after(p, completed);
        let p2 = phase_after(c, p, k);
        if remaining == 0 {
            lemma_zero_rank_decreases(c, p, completed);
        }
        lemma_run_additive(c, p2, k, phase_secs(c, p2), (a - remaining) as nat, b);
        assert((a - remaining) as nat + b == (a + b - remaining) as nat);
    }
}

/// After running for a positive time the current phase always has time left.
pub proof fn lemma_run_remaining_positive(
    c: PomodoroConfig,
    p: PomodoroPhase,
    completed: nat,
    remaining: nat,
    delta: nat,
)
    requires
        durations_positive(c),
        delta > 0,
    ensures
        run(c, p, completed, remaining, delta).2 > 0,
    decreases delta, zero_rank(c, p, completed, remaining),
{
    if delta >= remaining {
        let k = count_after(p, completed);
        let p2 = phase_after(c, p, k);
        if remaining == 0 {
            lemma_zero_rank_decreases(c, p, completed);
        }
        if delta - remaining > 0 {
            lemma_run_remaining_positive(c, p2, k, phase_secs(c, p2), (delta - remaining) as nat);
        } else {
            assert(phase_secs(c, p2) > 0);
            assert(run(c, p2, k, phase_secs(c, p2), 0).2 == phase_secs(c, p2));
        }
        assert(run(c, p, completed, remaining, delta).2 == run(c, p2, k, phase_secs(c, p2), (delta - remaining) as nat).2);
    }
}

/// The remaining time after running never exceeds the larger of the time that
/// was left and the longest possible phase.
pub proof fn lemma_run_remaining_bounded(
    c: PomodoroConfig,
    p: PomodoroPhase,
    completed: nat,
    remaining: nat,
    delta: nat,
)
    requires
        phases_progress(c),
    ensures
        run(c, p, completed, remaining, delta).2 <= remaining || run(c, p, completed, remaining, delta).2
            <= u32::MAX as nat * 60,
    decreases delta, zero_rank(c, p, completed, remaining),
{
    if delta != 0 && delta >= remaining {
        let k = count_after(p, completed);
        let p2 = phase_after(c, p, k);
        if remaining == 0 {
            lemma_zero_rank_decreases(c, p, completed);
        }
        lemma_run_remaining_bounded(c, p2, k, phase_secs(c, p2), (delta - remaining) as nat);
    }
}

/// Seconds from `start` to `now`, or 0 when `now` is earlier.
pub open spec fn elapsed_from(start: i64, now: i64) -> int {
    if now >= start {
        now - start
    } else {
        0
    }
}

/// Formats seconds as "MM:SS".
pub fn format_secs(secs: u64) -> (r: String)
    ensures
        r@ == mm_ss(secs as nat),
{
    let mut s = String::new();
    push_pad2(&mut s, secs / 60);
    s.push(':');
    push_pad2(&mut s, secs % 60);
    assert(s@ =~= mm_ss(secs as nat));
    s
}

/// What the history records when a phase ends.
#[derive(Debug, Clone, Copy, PartialEq, Eq, Structural)]
pub enum PhaseRecord {
    /// A work phase: a Pomodoro session of `work_secs` seconds ending now, and
    /// `work_mins` minutes of work in the day's statistics.
    WorkSession { work_secs: i64, work_mins: u32 },
    /// A break: `mins` minutes of break in the day's statistics.
    BreakMinutes { mins: u32 },
}

/// The record of the end of a phase `from` under `config`.
pub fn phase_record(config: &PomodoroConfig, from: PomodoroPhase) -> (r: PhaseRecord)
    ensures
        r == (match from {
            PomodoroPhase::Work => PhaseRecord::WorkSession {
                work_secs: (config.work_duration_mins * 60) as i64,
                work_mins: config.work_duration_mins,
            },
            PomodoroPhase::Break => PhaseRecord::BreakMinutes { mins: config.break_duration_mins },
            PomodoroPhase::LongBreak => PhaseRecord::BreakMinutes {
                mins: config.long_break_duration_mins,
            },
        }),
{
    match from {
        PomodoroPhase::Work => PhaseRecord::WorkSession {
            work_secs: (config.work_duration_mins as i64) * 60,
            work_mins: config.work_duration_mins,
        },
        PomodoroPhase::Break => PhaseRecord::BreakMinutes { mins: config.break_duration_mins },
        PomodoroPhase::LongBreak => PhaseRecord::BreakMinutes {
            mins: config.long_break_duration_mins,
        },
    }
}

impl PomodoroTimer {
    pub fn new(task: String, tag: Option<String>, config: PomodoroConfig) -> (r: Self)
        ensures
            r.phase == PomodoroPhase::Work,
            r.completed_work == 0,
            r.remaining_secs == config.work_duration_mins as nat * 60,
            !r.paused,
            r.pause_accumulated_secs == 0,
            r.pause_started is None,
            r.config == config,
            r.task == task,
            r.tag == tag,
    {
        let remaining_secs = (config.work_duration_mins as u64) * 60;
        let started = unix_now();
        PomodoroTimer {
            phase: PomodoroPhase::Work,
            completed_work: 0,
            remaining_secs,
            paused: false,
            pause_accumulated_secs: 0,
            pause_started: None,
            config,
            task,
            tag,
            session_started_at: started,
        }
    }

    /// Length in seconds of phase `p` under this timer's configuration.
    pub fn phase_total_secs(&self, p: PomodoroPhase) -> (r: u64)
        ensures
            r == phase_secs(self.config, p),
    {
        match p {
            PomodoroPhase::Work => (self.config.work_duration_mins as u64) * 60,
            PomodoroPhase::Break => (self.config.break_duration_mins as u64) * 60,
            PomodoroPhase::LongBreak => (self.config.long_break_duration_mins as u64) * 60,
        }
    }

    /// Finish the current phase and enter the next one.  Returns true when the
    /// finished phase was a work phase.
    fn advance_phase(&mut self) -> (work_saved: bool)
        requires
            old(self).phase is Work ==> old(self).completed_work < u32::MAX,
        ensures
            work_saved == (old(self).phase is Work),
            final(self).completed_work == count_after(
                old(self).phase,
                old(self).completed_work as nat,
            ),
            final(self).phase == phase_after(
                old(self).config,
                old(self).phase,
                count_after(old(self).phase, old(self).completed_work as nat),
            ),
            final(self).remaining_secs == phase_secs(old(self).config, final(self).phase),
            final(self).pause_accumulated_secs == 0,
            final(self).paused == old(self).paused,
            final(self).pause_started == old(self).pause_started,
            final(self).config == old(self).config,
            final(self).task == old(self).task,
            final(self).tag == old(self).tag,
            final(self).session_started_at == old(self).session_started_at,
    {
        let work_saved = self.phase.is_work();
        if work_saved {
            self.completed_work = self.completed_work + 1;
        }
        let next = match self.phase {
            PomodoroPhase::Work => {
                let n = self.config.long_break_after;
                let is_multiple = if n == 0 {
                    self.completed_work == 0
                } else {
                    self.completed_work % n == 0
                };
                if is_multiple {
                    PomodoroPhase::LongBreak
                } else {
                    PomodoroPhase::Break
                }
            },
            _ => PomodoroPhase::Work,
        };
        self.phase = next;
        self.remaining_secs = self.phase_total_secs(next);
        self.pause_accumulated_secs = 0;
        work_saved
    }

    /// Advance the timer by `delta_secs` seconds, given that the current pause
    /// (if the timer is paused) has lasted `pause_elapsed_secs` seconds.
    pub fn tick_with_pause_elapsed(&mut self, delta_secs: u64, pause_elapsed_secs: u64) -> (events: Vec<TimerEvent>)
        requires
            tick_allowed(*old(self), delta_secs as nat),
        ensures
            *final(self) == tick_result(*old(self), delta_secs as nat, pause_elapsed_secs as nat).0,
            events@ == tick_result(*old(self), delta_secs as nat, pause_elapsed_secs as nat).1,
    {
        if delta_secs == 0 {
            return vec![TimerEvent::Tick];
        }
        if self.paused {
            let current = if pause_elapsed_secs >= delta_secs {
                pause_elapsed_secs
            } else {
                delta_secs
            };
            let paused_so_far = self.pause_accumulated_secs.saturating_add(current);
            if paused_so_far >= 3600 {
                let completed = self.completed_work;
                self.paused = false;
                return vec![TimerEvent::AutoAbandoned { completed }];
            }
            return vec![TimerEvent::Tick];
        }
        if delta_secs < self.remaining_secs {
            self.remaining_secs = self.remaining_secs - delta_secs;
            return vec![TimerEvent::Tick];
        }
        let ghost t0 = *self;
        let ghost r0 = run(t0.config, t0.phase, t0.completed_work as nat, t0.remaining_secs as nat, delta_secs as nat);
        proof {
            lemma_run_count_monotone(t0.config, t0.phase, t0.completed_work as nat, t0.remaining_secs as nat, delta_secs as nat);
        }
        let mut events: Vec<TimerEvent> = Vec::new();
        let mut remaining_delta = delta_secs;
        let ghost mut advanced = false;
        while remaining_delta > 0
            invariant
                phases_progress(self.config),
                r0.1 <= u32::MAX,
                self.config == t0.config,
                self.paused == t0.paused,
                self.pause_started == t0.pause_started,
                self.task == t0.task,
                self.tag == t0.tag,
                self.session_started_at == t0.session_started_at,
                r0 == run(t0.config, t0.phase, t0.completed_work as nat, t0.remaining_secs as nat, delta_secs as nat),
                ({
                    let r = run(self.config, self.phase, self.completed_work as nat, self.remaining_secs as nat, remaining_delta as nat);
                    &&& r.0 == r0.0
                    &&& r.1 == r0.1
                    &&& r.2 == r0.2
                    &&& r0.3 == events@ + r.3
                }),
                r0.1 >= self.completed_work,
                !advanced ==> self.pause_accumulated_secs == t0.pause_accumulated_secs,
                advanced ==> self.pause_accumulated_secs == 0 && delta_secs >= t0.remaining_secs,
                !advanced && remaining_delta > 0 ==> self.phase == t0.phase && self.remaining_secs
                    == t0.remaining_secs && self.completed_work == t0.completed_work && events@.len() == 0
                    && remaining_delta == delta_secs,
                !advanced && remaining_delta == 0 ==> delta_secs < t0.remaining_secs,
                remaining_delta <= delta_secs,
            decreases remaining_delta, zero_rank(self.config, self.phase, self.completed_work as nat, self.remaining_secs as nat),
        {
            if remaining_delta < self.remaining_secs {
                self.remaining_secs = self.remaining_secs - remaining_delta;
                remaining_delta = 0;
                events.push(TimerEvent::Tick);
                assert(events@ =~= r0.3);
            } else {
                let ghost before = *self;
                let ghost rd = remaining_delta;
                remaining_delta = remaining_delta - self.remaining_secs;
                let completed_phase = self.phase;
                proof {
                    let k = count_after(before.phase, before.completed_work as nat);
                    let p2 = phase_after(before.config, before.phase, k);
                    lemma_run_count_monotone(before.config, p2, k, phase_secs(before.config, p2), remaining_delta as nat);
                }
                proof {
                    if before.remaining_secs == 0 {
                        lemma_zero_rank_decreases(before.config, before.phase, before.completed_work as nat);
                    }
                }
                let work_saved = self.advance_phase();
                proof {
                    advanced = true;
                }
                let next_phase = self.phase;
                let ev = TimerEvent::PhaseComplete { from: completed_phase, to: next_phase, work_saved };
                let ghost ev_before = events@;
                events.push(ev);
                proof {
                    let r = run(self.config, self.phase, self.completed_work as nat, self.remaining_secs as nat, remaining_delta as nat);
                    let rb = run(before.config, before.phase, before.completed_work as nat, before.remaining_secs as nat, rd as nat);
                    assert(rb.3 == seq![ev] + r.3);
                    assert(r0.3 == ev_before + rb.3);
                    assert(r0.3 =~= events@ + r.3);
                }
            }
        }
        proof {
            let r = run(self.config, self.phase, self.completed_work as nat, self.remaining_secs as nat, 0);
            assert(events@ =~= r0.3);
        }
        events
    }

    /// Advance the timer by `delta_secs` seconds.  While paused, the length of
    /// the current pause is read from the clock.
    pub fn tick_secs(&mut self, delta_secs: u64) -> (events: Vec<TimerEvent>)
        requires
            tick_allowed(*old(self), delta_secs as nat),
        ensures
            exists|e: nat|
                {
                    &&& *final(self) == tick_result(*old(self), delta_secs as nat, e).0
                    &&& events@ == tick_result(*old(self), delta_secs as nat, e).1
                },
            !old(self).paused ==> *final(self) == tick_result(*old(self), delta_secs as nat, 0).0
                && events@ == tick_result(*old(self), delta_secs as nat, 0).1,
    {
        let elapsed = if self.paused {
            match &self.pause_started {
                Some(started) => secs_since(started),
                None => 0,
            }
        } else {
            0
        };
        self.tick_with_pause_elapsed(delta_secs, elapsed)
    }

    pub fn pause(&mut self)
        ensures
            final(self).paused,
            old(self).paused ==> *final(self) == *old(self),
            !old(self).paused ==> final(self).pause_started is Some && *final(self) == (
            PomodoroTimer { paused: true, pause_started: final(self).pause_started, ..*old(self) }),
    {
        if !self.paused {
            self.paused = true;
            self.pause_started = Some(Instant::now());
        }
    }

    /// Resume after a pause that lasted `elapsed_secs` seconds: the pause is
    /// added (saturating) to the ended pauses of the phase.
    pub fn resume_after(&mut self, elapsed_secs: u64)
        ensures
            !old(self).paused ==> *final(self) == *old(self),
            old(self).paused ==> *final(self) == resumed_after(*old(self), elapsed_secs),
    {
        if self.paused {
            self.pause_started = None;
            self.pause_accumulated_secs = self.pause_accumulated_secs.saturating_add(elapsed_secs);
            self.paused = false;
        }
    }

    /// Resume after a pause, adding the length of the pause, as read from the
    /// clock since `pause_started`, to the ended pauses of the phase.
    pub fn resume(&mut self)
        ensures
            !old(self).paused ==> *final(self) == *old(self),
            old(self).paused && old(self).pause_started is None ==> *final(self) == (PomodoroTimer {
                paused: false,
                ..*old(self)
            }),
            old(self).paused && old(self).pause_started is Some ==> exists|e: u64|
                *final(self) == #[trigger] resumed_after(*old(self), e),
    {
        let e: u64 = match &self.pause_started {
            Some(s) => secs_since(s),
            None => 0,
        };
        self.resume_after(e);
        proof {
            if old(self).paused && old(self).pause_started is Some {
                assert(*self == resumed_after(*old(self), e));
            }
        }
    }

    /// Skip the current break phase, transitioning immediately to the next work phase.
    /// No-op if already in a work phase.
    pub fn skip_break(&mut self)
        ensures
            old(self).phase is Work ==> *final(self) == *old(self),
            !(old(self).phase is Work) ==> *final(self) == (PomodoroTimer {
                phase: PomodoroPhase::Work,
                remaining_secs: phase_secs(old(self).config, PomodoroPhase::Work) as u64,
                pause_accumulated_secs: 0,
                ..*old(self)
            }),
    {
        if !self.phase.is_work() {
            self.phase = PomodoroPhase::Work;
            self.remaining_secs = (self.config.work_duration_mins as u64) * 60;
            self.pause_accumulated_secs = 0;
        }
    }

    /// Extend the current phase by 5 minutes.
    pub fn extend(&mut self)
        requires
            old(self).remaining_secs + 300 <= u64::MAX,
        ensures
            *final(self) == (PomodoroTimer {
                remaining_secs: (old(self).remaining_secs + 300) as u64,
                ..*old(self)
            }),
    {
        self.remaining_secs = self.remaining_secs + 300;
    }

    /// Seconds of the current phase already run (none when more than its
    /// length is left, as after an extension), and the length of the phase.
    pub fn phase_elapsed_secs(&self) -> (r: (u64, u64))
        ensures
            r.1 == phase_secs(self.config, self.phase),
            r.0 == (if self.remaining_secs >= r.1 {
                0
            } else {
                r.1 - self.remaining_secs
            }),
    {
        let total = self.phase_total_secs(self.phase);
        (total.saturating_sub(self.remaining_secs), total)
    }

    /// Whether a tick of `delta_secs` seconds may be made: a paused timer or
    /// a tick within the phase always; a tick that ends a running phase when
    /// the phases get on and the completed-work count surely fits (it grows
    /// by at most `max_rank + 1` per second, and `max_rank` more).
    pub fn can_tick(&self, delta_secs: u64) -> (r: bool)
        ensures
            r == (self.paused || delta_secs < self.remaining_secs || (phases_progress(self.config)
                && self.completed_work + (max_rank(self.config) + 1) * delta_secs + max_rank(self.config)
                <= u32::MAX)),
            r ==> tick_allowed(*self, delta_secs as nat),
    {
        if self.paused || delta_secs < self.remaining_secs {
            return true;
        }
        let c = self.config;
        let w = c.work_duration_mins;
        let b = c.break_duration_mins;
        let l = c.long_break_duration_mins;
        let n = c.long_break_after;
        let progress = w >= 1 || (b >= 1 && l >= 1) || (b == 0 && l >= 1 && n >= 1) || (b >= 1 && l
            == 0 && n != 1);
        let rank_max: u128 = 2 * (n as u128) + 4;
        assert((rank_max + 1) * (delta_secs as u128) <= (2 * 4294967295u128 + 5) * 18446744073709551615u128)
            by (nonlinear_arith)
            requires
                rank_max <= 2 * 4294967295u128 + 4,
                delta_secs <= 18446744073709551615u64,
        ;
        let fits = (self.completed_work as u128) + (rank_max + 1) * (delta_secs as u128) + rank_max
            <= u32::MAX as u128;
        proof {
            if progress && fits {
                lemma_run_count_bound(
                    c,
                    self.phase,
                    self.completed_work as nat,
                    self.remaining_secs as nat,
                    delta_secs as nat,
                );
                lemma_zero_rank_bounded(c, self.phase, self.completed_work as nat, self.remaining_secs as nat);
            }
        }
        progress && fits
    }

    pub fn is_in_work_phase(&self) -> (r: bool)
        ensures
            r == (self.phase is Work),
    {
        self.phase.is_work()
    }

    /// Format remaining seconds as "MM:SS".
    pub fn format_remaining(&self) -> (r: String)
        ensures
            r@ == mm_ss(self.remaining_secs as nat),
    {
        format_secs(self.remaining_secs)
    }

    /// Seconds from the session start to `now`, or 0 when `now` is earlier.
    pub fn elapsed_secs_at(&self, now: i64) -> (r: u64)
        ensures
            r == elapsed_from(self.session_started_at, now),
    {
        if now >= self.session_started_at {
            let d: i128 = now as i128 - self.session_started_at as i128;
            d as u64
        } else {
            0
        }
    }

    /// Total elapsed time since the session started, read from the clock.
    pub fn total_elapsed_secs(&self) -> (r: u64)
        ensures
            exists|now: i64| r == #[trigger] elapsed_from(self.session_started_at, now),
    {
        let now = unix_now();
        self.elapsed_secs_at(now)
    }

    pub fn phase_label(&self) -> (r: &'static str)
        ensures
            r@ == phase_label_spec(self.phase),
    {
        self.phase.label()
    }
}

/// Two ticks of `a` and `b` seconds of a running (not paused) timer leave it in
/// the same state as one tick of `a + b` seconds.
pub proof fn law_ticks_compose(t: PomodoroTimer, a: nat, b: nat)
    requires
        durations_positive(t.config),
        !t.paused,
    ensures
        ({
            let t1 = tick_result(t, a, 0).0;
            tick_allowed(t, a) && tick_allowed(t1, b) ==> tick_result(t1, b, 0).0 == tick_result(t, a + b, 0).0
        }),
{
    let t1 = tick_result(t, a, 0).0;
    if tick_allowed(t, a) && tick_allowed(t1, b) && a > 0 && b > 0 {
        let c = t.config;
        lemma_run_additive(c, t.phase, t.completed_work as nat, t.remaining_secs as nat, a, b);
        lemma_run_remaining_bounded(c, t.phase, t.completed_work as nat, t.remaining_secs as nat, a);
        let r1 = run(c, t.phase, t.completed_work as nat, t.remaining_secs as nat, a);
        assert(t1.phase == r1.0);
        assert(t1.completed_work as nat == r1.1);
        assert(t1.remaining_secs as nat == r1.2);
        assert(t1.config == c);
        assert(!t1.paused);
        if a < t.remaining_secs {
            assert(r1.2 == t.remaining_secs - a);
        }
        let r2 = run(c, r1.0, r1.1, r1.2, b);
        let r = run(c, t.phase, t.completed_work as nat, t.remaining_secs as nat, a + b);
        assert(tick_result(t1, b, 0).0 == tick_result(t, a + b, 0).0);
    }
}

/// A tick of `delta` seconds reports a bounded number of events: at most
/// `max_rank + 1` per second and `max_rank + 1` more (with the durations a
/// configuration is validated to, one per phase crossed and a last tick).
pub proof fn law_tick_events_bounded(t: PomodoroTimer, delta: nat, pause_elapsed: nat)
    requires
        tick_allowed(t, delta),
    ensures
        tick_result(t, delta, pause_elapsed).1.len() <= (max_rank(t.config) + 1) * delta + max_rank(
            t.config,
        ) + 1,
{
    if !t.paused && delta > 0 && delta >= t.remaining_secs {
        lemma_run_events_bound(t.config, t.phase, t.completed_work as nat, t.remaining_secs as nat, delta);
        lemma_zero_rank_bounded(t.config, t.phase, t.completed_work as nat, t.remaining_secs as nat);
    } else {
        assert((max_rank(t.config) + 1) * delta >= 0) by (nonlinear_arith);
    }
}

/// A running timer that ticks for a positive time always has time left in its phase.
pub proof fn law_tick_leaves_time_in_phase(t: PomodoroTimer, delta: nat)
    requires
        durations_positive(t.config),
        !t.paused,
        delta > 0,
        tick_allowed(t, delta),
    ensures
        tick_result(t, delta, 0).0.remaining_secs > 0,
{
    lemma_run_remaining_positive(t.config, t.phase, t.completed_work as nat, t.remaining_secs as nat, delta);
    lemma_run_remaining_bounded(t.config, t.phase, t.completed_work as nat, t.remaining_secs as nat, delta);
}

} // verus!
