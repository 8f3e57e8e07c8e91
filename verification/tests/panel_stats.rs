use focus::pomodoro::stats::PomodoroPanelState;

#[test]
fn test_pomodoro_panel_idle_state() {
    let state = PomodoroPanelState::idle();
    assert_eq!(state.total_cycles_today, 0);
    assert_eq!(state.cumulative_duration_secs, 0);
    assert_eq!(state.focus_streak_days, 0);
    assert!(state.last_completion_time.is_none());
    assert!(!state.has_activity());
}

#[test]
fn test_pomodoro_panel_with_stats() {
    let state = PomodoroPanelState::new(3, 2700, 5, Some(1712000000));
    assert_eq!(state.total_cycles_today, 3);
    assert_eq!(state.cumulative_duration_secs, 2700);
    assert_eq!(state.focus_streak_days, 5);
    assert!(state.last_completion_time.is_some());
    assert!(state.has_activity());
}

#[test]
fn test_pomodoro_panel_format_duration() {
    let state = PomodoroPanelState::new(3, 2700, 5, None);
    assert_eq!(state.format_duration(), "00:45:00");
    let state = PomodoroPanelState::new(3, 5400, 5, None);
    assert_eq!(state.format_duration(), "01:30:00");
    let state = PomodoroPanelState::new(3, 8130, 5, None);
    assert_eq!(state.format_duration(), "02:15:30");
    let state = PomodoroPanelState::idle();
    assert_eq!(state.format_duration(), "00:00:00");
}

#[test]
fn test_pomodoro_panel_focus_streak() {
    let state = PomodoroPanelState::new(2, 1800, 7, Some(chrono::Utc::now().timestamp()));
    assert_eq!(state.focus_streak_days, 7);
    let idle = PomodoroPanelState::idle();
    assert_eq!(idle.focus_streak_days, 0);
}

#[test]
fn panel_duration_beyond_99_hours_keeps_all_digits() {
    let state = PomodoroPanelState::new(1, 360000 + 61, 0, None);
    assert_eq!(state.format_duration(), "100:01:01");
}
