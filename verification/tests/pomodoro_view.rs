use focus::pomodoro::config::PomodoroConfig;
use focus::pomodoro::timer::PomodoroTimer;
use focus::tui::timer_display::TimerDisplay;
use focus::tui::views::pomodoro::{
    full_panel_title_at, hints_text, phase_heading, pomodoro_clock_rows, session_dots,
    shows_info, SessionDot,
};

fn timer(long_break_after: u32) -> PomodoroTimer {
    PomodoroTimer::new(
        "Write".into(),
        Some("docs".into()),
        PomodoroConfig {
            work_duration_mins: 25,
            break_duration_mins: 5,
            long_break_duration_mins: 15,
            long_break_after,
        },
    )
}

#[test]
fn clock_rows_follow_the_panel_width() {
    let plain = pomodoro_clock_rows(21, 1500, "25:00", "25:00", &[0; 5]);
    assert_eq!(plain, vec!["25:00".to_string()]);
    let thin = pomodoro_clock_rows(22, 1500, "25:00", "25:00", &[0; 5]);
    assert_eq!(thin, TimerDisplay::render_big_thin_str("25:00"));
    let big = pomodoro_clock_rows(30, 1500, "25:00", "25:01", &[0, 0, 0, 0, 2]);
    assert_eq!(
        big,
        TimerDisplay::render_animated_big_sized("25:00", "25:01", &[0, 0, 0, 0, 2], 5)
    );
}

#[test]
fn info_lines_need_eight_spare_rows() {
    assert!(shows_info(13, 5));
    assert!(!shows_info(12, 5));
    assert!(shows_info(9, 1));
}

#[test]
fn heading_marks_a_pause() {
    let mut t = timer(4);
    assert_eq!(phase_heading(&t), "🍅 WORK");
    t.pause();
    assert_eq!(phase_heading(&t), "🍅 WORK [PAUSED]");
}

#[test]
fn dots_show_the_cycle() {
    let mut t = timer(4);
    t.tick_secs(25 * 60);
    t.skip_break();
    assert_eq!(
        session_dots(&t),
        (
            vec![SessionDot::Done, SessionDot::Current, SessionDot::Pending, SessionDot::Pending],
            2,
            4
        )
    );
    t.tick_secs(25 * 60);
    assert_eq!(
        session_dots(&t),
        (
            vec![SessionDot::Done, SessionDot::Done, SessionDot::Pending, SessionDot::Pending],
            2,
            4
        )
    );
    let zero = timer(0);
    assert_eq!(session_dots(&zero), (vec![SessionDot::Current], 1, 1));
}

#[test]
fn hints_list_the_extension_in_wide_panels() {
    let t = timer(4);
    assert_eq!(
        hints_text(&t, 49),
        "Next: 5m break   [P] pause  [S] skip  [Q] stop"
    );
    assert_eq!(
        hints_text(&t, 50),
        "Next: 5m break   [P] pause  [S] skip  [+] +5m  [Q] stop"
    );
}

#[test]
fn full_panel_title_shows_progress_and_elapsed_time() {
    let t = timer(4);
    let start = t.session_started_at;
    assert_eq!(
        full_panel_title_at(&Some(t), start + 125),
        " Pomodoro  0/4  elapsed: 02:05  [F] collapse "
    );
    assert_eq!(full_panel_title_at(&None, 0), " Pomodoro — Full View  [F] collapse ");
}
