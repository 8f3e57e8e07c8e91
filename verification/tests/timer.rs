use focus::models::pomodoro::PomodoroPhase;
use focus::pomodoro::config::PomodoroConfig;
use focus::pomodoro::timer::{format_secs, PomodoroTimer, TimerEvent};

fn test_config(work_mins: u32, break_mins: u32) -> PomodoroConfig {
    PomodoroConfig {
        work_duration_mins: work_mins,
        break_duration_mins: break_mins,
        long_break_duration_mins: 15,
        long_break_after: 4,
    }
}

#[test]
fn initial_state_is_work_phase() {
    let cfg = test_config(25, 5);
    let t = PomodoroTimer::new("task".into(), None, cfg);
    assert_eq!(t.phase, PomodoroPhase::Work);
    assert_eq!(t.remaining_secs, 25 * 60);
    assert!(!t.paused);
    assert_eq!(t.completed_work, 0);
}

#[test]
fn tick_decrements_remaining() {
    let cfg = test_config(25, 5);
    let mut t = PomodoroTimer::new("task".into(), None, cfg);
    let events = t.tick_secs(10);
    assert_eq!(t.remaining_secs, 25 * 60 - 10);
    assert!(matches!(events[0], TimerEvent::Tick));
}

#[test]
fn tick_completes_work_phase_transitions_to_break() {
    let cfg = test_config(1, 1);
    let mut t = PomodoroTimer::new("task".into(), None, cfg);
    let events = t.tick_secs(60);
    let phase_complete = events.iter().any(|e| {
        matches!(
            e,
            TimerEvent::PhaseComplete {
                from: PomodoroPhase::Work,
                to: PomodoroPhase::Break,
                work_saved: true,
            }
        )
    });
    assert!(phase_complete, "expected PhaseComplete Work→Break");
    assert_eq!(t.phase, PomodoroPhase::Break);
    assert_eq!(t.completed_work, 1);
}

#[test]
fn fourth_work_completion_transitions_to_long_break() {
    let cfg = test_config(1, 1);
    let mut t = PomodoroTimer::new("task".into(), None, cfg);
    for _ in 0..3 {
        t.tick_secs(60);
        t.tick_secs(60);
    }
    assert_eq!(t.completed_work, 3);
    assert_eq!(t.phase, PomodoroPhase::Work);
    let events = t.tick_secs(60);
    let long_break = events
        .iter()
        .any(|e| matches!(e, TimerEvent::PhaseComplete { to: PomodoroPhase::LongBreak, .. }));
    assert!(long_break, "4th completion should trigger long break");
    assert_eq!(t.phase, PomodoroPhase::LongBreak);
}

#[test]
fn pause_freezes_remaining_secs() {
    let cfg = test_config(25, 5);
    let mut t = PomodoroTimer::new("task".into(), None, cfg);
    t.tick_secs(5);
    let before_pause = t.remaining_secs;
    t.pause();
    t.tick_secs(5);
    assert_eq!(t.remaining_secs, before_pause);
    assert!(t.paused);
}

#[test]
fn resume_continues_from_paused_value() {
    let cfg = test_config(25, 5);
    let mut t = PomodoroTimer::new("task".into(), None, cfg);
    t.tick_secs(10);
    let before_pause = t.remaining_secs;
    t.pause();
    t.tick_secs(5);
    t.resume();
    assert!(!t.paused);
    t.tick_secs(1);
    assert_eq!(t.remaining_secs, before_pause - 1);
}

#[test]
fn auto_abandon_after_3600_paused_secs() {
    let cfg = test_config(25, 5);
    let mut t = PomodoroTimer::new("task".into(), None, cfg);
    t.pause();
    let events = t.tick_secs(3601);
    let abandoned = events.iter().any(|e| matches!(e, TimerEvent::AutoAbandoned { .. }));
    assert!(abandoned, "expected AutoAbandoned event");
}

#[test]
fn skip_break_transitions_to_work() {
    let cfg = test_config(1, 5);
    let mut t = PomodoroTimer::new("task".into(), None, cfg);
    t.tick_secs(60);
    assert_eq!(t.phase, PomodoroPhase::Break);
    t.skip_break();
    assert_eq!(t.phase, PomodoroPhase::Work);
    assert_eq!(t.remaining_secs, 60);
}

#[test]
fn skip_break_in_work_phase_is_noop() {
    let cfg = test_config(25, 5);
    let mut t = PomodoroTimer::new("task".into(), None, cfg);
    assert_eq!(t.phase, PomodoroPhase::Work);
    t.skip_break();
    assert_eq!(t.phase, PomodoroPhase::Work);
}

#[test]
fn extend_adds_300_secs() {
    let cfg = test_config(25, 5);
    let mut t = PomodoroTimer::new("task".into(), None, cfg);
    t.tick_secs(60);
    let before = t.remaining_secs;
    t.extend();
    assert_eq!(t.remaining_secs, before + 300);
}

#[test]
fn format_remaining_mm_ss() {
    let cfg = test_config(25, 5);
    let mut t = PomodoroTimer::new("task".into(), None, cfg);
    t.remaining_secs = 1499;
    assert_eq!(t.format_remaining(), "24:59");
    t.remaining_secs = 0;
    assert_eq!(t.format_remaining(), "00:00");
}

#[test]
fn phase_label_contains_emoji() {
    let cfg = test_config(25, 5);
    let t = PomodoroTimer::new("task".into(), None, cfg);
    assert!(t.phase_label().contains("WORK"));
}

#[test]
fn is_in_work_phase() {
    let cfg = test_config(1, 5);
    let mut t = PomodoroTimer::new("task".into(), None, cfg);
    assert!(t.is_in_work_phase());
    t.tick_secs(60);
    assert!(!t.is_in_work_phase());
}

#[test]
fn ticks_compose_across_phase_boundaries() {
    let cfg = test_config(1, 1);
    let mut split = PomodoroTimer::new("task".into(), None, cfg);
    split.tick_secs(45);
    split.tick_secs(50);
    let mut whole = PomodoroTimer::new("task".into(), None, cfg);
    whole.tick_secs(95);
    assert_eq!(split.phase, whole.phase);
    assert_eq!(split.remaining_secs, whole.remaining_secs);
    assert_eq!(split.completed_work, whole.completed_work);
    assert_eq!(whole.phase, PomodoroPhase::Break);
    assert_eq!(whole.remaining_secs, 25);
}

#[test]
fn zero_tick_changes_nothing() {
    let cfg = test_config(25, 5);
    let mut t = PomodoroTimer::new("task".into(), None, cfg);
    let events = t.tick_secs(0);
    assert_eq!(events, vec![TimerEvent::Tick]);
    assert_eq!(t.remaining_secs, 1500);
}

#[test]
fn format_secs_pads_minutes_and_seconds() {
    assert_eq!(format_secs(65), "01:05");
    assert_eq!(format_secs(6000), "100:00");
}

#[test]
fn elapsed_secs_at_counts_from_session_start() {
    let cfg = test_config(25, 5);
    let t = PomodoroTimer::new("task".into(), None, cfg);
    let start = t.session_started_at;
    assert_eq!(t.elapsed_secs_at(start + 90), 90);
    assert_eq!(t.elapsed_secs_at(start - 5), 0);
}

#[test]
fn phase_elapsed_counts_up_to_the_phase_length() {
    let cfg = test_config(25, 5);
    let mut t = PomodoroTimer::new("task".into(), None, cfg);
    assert_eq!(t.phase_elapsed_secs(), (0, 1500));
    t.tick_secs(100);
    assert_eq!(t.phase_elapsed_secs(), (100, 1500));
    t.extend();
    assert_eq!(t.phase_elapsed_secs(), (0, 1500));
}

#[test]
fn total_elapsed_counts_from_the_session_start() {
    let t = PomodoroTimer::new("task".into(), None, test_config(25, 5));
    assert!(t.total_elapsed_secs() < 5);
    assert_eq!(t.elapsed_secs_at(t.session_started_at + 90), 90);
    assert_eq!(t.elapsed_secs_at(t.session_started_at - 1), 0);
}

#[test]
fn an_hour_of_real_pause_abandons_the_session() {
    let mut t = PomodoroTimer::new("task".into(), None, test_config(25, 5));
    t.pause();
    // Half an hour into the pause, ticking one second at a time.
    assert_eq!(t.tick_with_pause_elapsed(1, 1800), vec![TimerEvent::Tick]);
    assert_eq!(t.pause_accumulated_secs, 0);
    assert!(t.paused);
    assert_eq!(t.tick_with_pause_elapsed(1, 3599), vec![TimerEvent::Tick]);
    assert!(t.paused);
    assert_eq!(
        t.tick_with_pause_elapsed(1, 3600),
        vec![TimerEvent::AutoAbandoned { completed: 0 }]
    );
    assert!(!t.paused);
}

#[test]
fn ended_pauses_count_toward_the_hour() {
    let mut t = PomodoroTimer::new("task".into(), None, test_config(25, 5));
    t.pause();
    t.resume_after(2000);
    assert_eq!(t.pause_accumulated_secs, 2000);
    assert!(!t.paused && t.pause_started.is_none());
    t.pause();
    assert_eq!(t.tick_with_pause_elapsed(1, 1599), vec![TimerEvent::Tick]);
    assert_eq!(
        t.tick_with_pause_elapsed(1, 1600),
        vec![TimerEvent::AutoAbandoned { completed: 0 }]
    );
    let mut u = PomodoroTimer::new("task".into(), None, test_config(25, 5));
    u.resume_after(50);
    assert_eq!(u.pause_accumulated_secs, 0);
    u.pause();
    u.resume();
    assert!(!u.paused);
}

#[test]
fn phases_of_no_length_within_a_phase_and_across_a_break() {
    let mut t = PomodoroTimer::new("task".into(), None, test_config(0, 0));
    assert_eq!(t.remaining_secs, 0);
    t.pause();
    assert!(t.can_tick(10));
    assert_eq!(t.tick_secs(10), vec![TimerEvent::Tick]);
    t.resume();
    // Empty work and short breaks: the clock runs on to the long break.
    assert!(t.can_tick(1));
    let events = t.tick_secs(1);
    assert_eq!(events.len(), 8);
    assert_eq!(t.completed_work, 4);
    assert_eq!(t.phase, PomodoroPhase::LongBreak);
    assert_eq!(t.remaining_secs, 15 * 60 - 1);
    // With every phase empty a tick would never end.
    let empty = PomodoroTimer::new("task".into(), None, PomodoroConfig {
        work_duration_mins: 0,
        break_duration_mins: 0,
        long_break_duration_mins: 0,
        long_break_after: 4,
    });
    assert!(!empty.can_tick(1));
    let mut w = PomodoroTimer::new("task".into(), None, PomodoroConfig {
        work_duration_mins: 1,
        break_duration_mins: 0,
        long_break_duration_mins: 15,
        long_break_after: 4,
    });
    assert!(w.can_tick(60));
    let events = w.tick_secs(60);
    assert_eq!(
        events,
        vec![TimerEvent::PhaseComplete {
            from: PomodoroPhase::Work,
            to: PomodoroPhase::Break,
            work_saved: true
        }]
    );
    assert_eq!(w.completed_work, 1);
    assert_eq!(w.remaining_secs, 0);
    assert!(w.can_tick(30));
    w.tick_secs(30);
    assert_eq!(w.phase, PomodoroPhase::Work);
    assert_eq!(w.remaining_secs, 30);
}
