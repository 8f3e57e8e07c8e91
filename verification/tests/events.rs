use focus::config::AppConfig;
use focus::models::session::Session;
use focus::tui::app::{App, MessageKind, Overlay, PromptAction, Tab};
use focus::tui::events::Effect;
use focus::models::pomodoro::PomodoroPhase;
use focus::pomodoro::timer::TimerEvent;
use focus::tui::app::truncate_to;
use focus::tui::keys::Key;

fn make_app() -> App {
    App::new(false, AppConfig::default())
}

fn completed(id: i64, task: &str) -> Session {
    Session {
        id,
        task: task.to_string(),
        tag: None,
        start_time: 1_700_000_000 + id * 100,
        end_time: Some(1_700_000_060 + id * 100),
        mode: "freeform".to_string(),
    }
}

fn active(task: &str) -> Session {
    Session {
        id: 99,
        task: task.to_string(),
        tag: None,
        start_time: chrono::Utc::now().timestamp() - 60,
        end_time: None,
        mode: "freeform".to_string(),
    }
}

/// The log as `load_log` leaves it for sessions `tasks` (oldest first).
fn app_with_log(tasks: &[&str]) -> App {
    let mut app = make_app();
    let sessions: Vec<Session> =
        tasks.iter().enumerate().map(|(i, t)| completed(i as i64 + 1, t)).collect();
    app.set_log_entries(sessions);
    app
}

fn prompt(value: &str, action: PromptAction) -> Overlay {
    Overlay::Prompt { label: "test:".into(), value: value.into(), action }
}

#[test]
fn dashboard_s_with_active_session_stops_it() {
    let mut app = make_app();
    app.set_dashboard_data(Some(active("my task")), vec![]);
    let effect = app.handle_dashboard_tab(Key::Char('s'));
    assert_eq!(effect, Effect::StopSession);
    let mut stopped = active("my task");
    stopped.end_time = Some(stopped.start_time + 90);
    app.session_stopped(&stopped);
    let msg = app.message.clone().unwrap();
    assert_eq!(msg.kind, MessageKind::Success);
    assert_eq!(msg.text, "Session stopped: \"my task\" — 1m 30s");
    assert!(matches!(app.overlay, Overlay::Hidden));
}

#[test]
fn dashboard_s_with_no_active_session_shows_error() {
    let mut app = make_app();
    let effect = app.handle_dashboard_tab(Key::Char('s'));
    assert_eq!(effect, Effect::StopSession);
    app.stop_failed(true, "No active session to stop");
    let msg = app.message.unwrap();
    assert_eq!(msg.kind, MessageKind::Error);
    assert_eq!(msg.text, "No active session to stop.");
    assert!(matches!(app.overlay, Overlay::Hidden));
}

#[test]
fn dashboard_s_does_not_open_overlay() {
    let mut app = make_app();
    app.set_dashboard_data(Some(active("task")), vec![]);
    app.handle_dashboard_tab(Key::Char('s'));
    assert!(matches!(app.overlay, Overlay::Hidden));
}

#[test]
fn prompt_printable_char_appends_to_value() {
    let mut app = make_app();
    app.overlay = prompt("he", PromptAction::StartSession);
    app.handle_overlay_prompt(Key::Char('y'));
    let Overlay::Prompt { value, .. } = &app.overlay else { panic!() };
    assert_eq!(value, "hey");
}

#[test]
fn prompt_backspace_removes_last_char() {
    let mut app = make_app();
    app.overlay = prompt("ab", PromptAction::StartSession);
    app.handle_overlay_prompt(Key::Backspace);
    let Overlay::Prompt { value, .. } = &app.overlay else { panic!() };
    assert_eq!(value, "a");
}

#[test]
fn prompt_esc_clears_overlay() {
    let mut app = make_app();
    app.overlay = prompt("abc", PromptAction::StartSession);
    app.handle_overlay_prompt(Key::Esc);
    assert!(matches!(app.overlay, Overlay::Hidden));
}

#[test]
fn prompt_enter_empty_uses_untitled_session() {
    let mut app = make_app();
    app.overlay = prompt("", PromptAction::StartSession);
    app.handle_overlay_prompt(Key::Enter);
    assert!(matches!(
        app.overlay,
        Overlay::Prompt { action: PromptAction::StartSessionTag { .. }, .. }
    ));
    let effect = app.handle_overlay_prompt(Key::Enter);
    assert_eq!(effect, Effect::StartSession { task: "Untitled Session".to_string(), tag: None });
    assert!(matches!(app.overlay, Overlay::Hidden));
}

#[test]
fn prompt_enter_nonempty_uses_provided_name() {
    let mut app = make_app();
    app.overlay = prompt("deep work", PromptAction::StartSession);
    app.handle_overlay_prompt(Key::Enter);
    let effect = app.handle_overlay_prompt(Key::Enter);
    assert_eq!(effect, Effect::StartSession { task: "deep work".to_string(), tag: None });
}

#[test]
fn prompt_enter_with_tag_stores_tag() {
    let mut app = make_app();
    app.overlay = prompt("coding", PromptAction::StartSession);
    app.handle_overlay_prompt(Key::Enter);
    if let Overlay::Prompt { ref mut value, .. } = app.overlay {
        *value = "dev".to_string();
    }
    let effect = app.handle_overlay_prompt(Key::Enter);
    assert_eq!(
        effect,
        Effect::StartSession { task: "coding".to_string(), tag: Some("dev".to_string()) }
    );
}

#[test]
fn key_1_sets_dashboard_tab() {
    let mut app = make_app();
    app.active_tab = Tab::Log;
    app.handle_key_event(Key::Char('1'), false);
    assert_eq!(app.active_tab, Tab::Dashboard);
}

#[test]
fn key_2_sets_log_tab() {
    let mut app = make_app();
    let effect = app.handle_key_event(Key::Char('2'), false);
    assert_eq!(app.active_tab, Tab::Log);
    assert_eq!(effect, Effect::LoadLog);
}

#[test]
fn key_3_sets_report_tab() {
    let mut app = make_app();
    let effect = app.handle_key_event(Key::Char('3'), false);
    assert_eq!(app.active_tab, Tab::Report);
    assert_eq!(effect, Effect::LoadReport);
}

#[test]
fn key_4_sets_settings_tab() {
    let mut app = make_app();
    app.handle_key_event(Key::Char('4'), false);
    assert_eq!(app.active_tab, Tab::Settings);
}

#[test]
fn tab_key_cycles_through_all_tabs() {
    let mut app = make_app();
    assert_eq!(app.active_tab, Tab::Dashboard);
    app.handle_key_event(Key::Tab, false);
    assert_eq!(app.active_tab, Tab::Log);
    app.handle_key_event(Key::Tab, false);
    assert_eq!(app.active_tab, Tab::Report);
    app.handle_key_event(Key::Tab, false);
    assert_eq!(app.active_tab, Tab::Settings);
    app.handle_key_event(Key::Tab, false);
    assert_eq!(app.active_tab, Tab::Pomodoro);
    app.handle_key_event(Key::Tab, false);
    assert_eq!(app.active_tab, Tab::Dashboard);
    app.handle_key_event(Key::BackTab, false);
    assert_eq!(app.active_tab, Tab::Pomodoro);
}

#[test]
fn log_down_increments_selected() {
    let mut app = app_with_log(&["a", "b"]);
    app.handle_log_tab(Key::Down);
    assert_eq!(app.log_selected, 1);
}

#[test]
fn log_down_does_not_exceed_last_item() {
    let mut app = app_with_log(&["only"]);
    app.handle_log_tab(Key::Down);
    assert_eq!(app.log_selected, 0);
}

#[test]
fn log_up_decrements_selected() {
    let mut app = app_with_log(&["a", "b"]);
    app.log_selected = 1;
    app.handle_log_tab(Key::Up);
    assert_eq!(app.log_selected, 0);
}

#[test]
fn log_up_does_not_go_below_zero() {
    let mut app = app_with_log(&["a"]);
    app.handle_log_tab(Key::Up);
    assert_eq!(app.log_selected, 0);
}

#[test]
fn log_right_advances_page() {
    let tasks: Vec<String> = (0..12).map(|i| format!("task {i}")).collect();
    let refs: Vec<&str> = tasks.iter().map(|s| s.as_str()).collect();
    let mut app = app_with_log(&refs);
    assert_eq!(app.log_total_pages, 2);
    app.handle_log_tab(Key::Right);
    assert_eq!(app.log_page, 1);
    assert_eq!(app.log_page_entries(1).len(), 2);
}

#[test]
fn log_left_goes_back_page() {
    let tasks: Vec<String> = (0..12).map(|i| format!("task {i}")).collect();
    let refs: Vec<&str> = tasks.iter().map(|s| s.as_str()).collect();
    let mut app = app_with_log(&refs);
    app.log_page = 1;
    app.handle_log_tab(Key::Left);
    assert_eq!(app.log_page, 0);
}

#[test]
fn vim_j_moves_down_when_enabled() {
    let mut app = app_with_log(&["a", "b"]);
    app.config.vim_mode = true;
    app.handle_log_tab(Key::Char('j'));
    assert_eq!(app.log_selected, 1);
}

#[test]
fn vim_j_has_no_effect_when_disabled() {
    let mut app = app_with_log(&["a", "b"]);
    app.config.vim_mode = false;
    app.handle_log_tab(Key::Char('j'));
    assert_eq!(app.log_selected, 0);
}

#[test]
fn vim_k_moves_up_when_enabled() {
    let mut app = app_with_log(&["a", "b"]);
    app.config.vim_mode = true;
    app.log_selected = 1;
    app.handle_log_tab(Key::Char('k'));
    assert_eq!(app.log_selected, 0);
}

#[test]
fn vim_g_jumps_to_top() {
    let mut app = app_with_log(&["a", "b"]);
    app.config.vim_mode = true;
    app.log_selected = 1;
    app.handle_log_tab(Key::Char('g'));
    assert_eq!(app.log_selected, 0);
}

#[test]
#[allow(non_snake_case)]
fn vim_G_jumps_to_bottom() {
    let mut app = app_with_log(&["a", "b"]);
    app.config.vim_mode = true;
    app.handle_log_tab(Key::Char('G'));
    assert_eq!(app.log_selected, 1);
}

#[test]
fn settings_v_toggles_vim_mode() {
    let mut app = make_app();
    assert!(!app.config.vim_mode);
    app.handle_key_event(Key::Char('4'), false);
    let effect = app.handle_settings_tab(Key::Char('v'));
    assert!(app.config.vim_mode);
    assert_eq!(
        effect,
        Effect::SaveAppConfig {
            success: "Vim mode enabled".to_string(),
            failure_prefix: "Failed to save settings: ".to_string(),
        }
    );
    app.handle_settings_tab(Key::Char('v'));
    assert!(!app.config.vim_mode);
}

#[test]
fn log_d_with_selection_opens_confirm_overlay() {
    let mut app = app_with_log(&["to delete"]);
    app.handle_log_tab(Key::Char('d'));
    assert!(matches!(app.overlay, Overlay::ConfirmDelete { session_id, .. } if session_id == 1));
}

#[test]
fn log_d_with_empty_log_does_nothing() {
    let mut app = app_with_log(&[]);
    app.handle_log_tab(Key::Char('d'));
    assert!(matches!(app.overlay, Overlay::Hidden));
}

#[test]
fn confirm_y_calls_delete_and_resets_overlay() {
    let mut app = app_with_log(&["bye"]);
    app.overlay = Overlay::ConfirmDelete { session_id: 1, session_name: "bye".into() };
    let effect = app.handle_overlay_confirm(Key::Char('y'));
    assert!(matches!(app.overlay, Overlay::Hidden));
    assert_eq!(effect, Effect::DeleteSession { id: 1, name: "bye".to_string() });
    app.session_deleted("bye", vec![]);
    assert_eq!(app.log_entries.len(), 0);
    assert_eq!(app.message.unwrap().text, "Deleted \"bye\"");
}

#[test]
fn confirm_n_resets_overlay_only() {
    let mut app = app_with_log(&["keep"]);
    app.overlay = Overlay::ConfirmDelete { session_id: 1, session_name: "keep".into() };
    let effect = app.handle_overlay_confirm(Key::Char('n'));
    assert!(matches!(app.overlay, Overlay::Hidden));
    assert_eq!(effect, Effect::Nothing);
    assert_eq!(app.log_entries.len(), 1);
}

#[test]
fn log_r_with_selection_opens_prompt_prefilled() {
    let mut app = app_with_log(&["original name"]);
    app.handle_log_tab(Key::Char('r'));
    let Overlay::Prompt { value, action, .. } = &app.overlay else { panic!("Expected Prompt") };
    assert_eq!(value, "original name");
    assert!(matches!(action, PromptAction::RenameSession { .. }));
}

#[test]
fn log_r_with_empty_log_does_nothing() {
    let mut app = app_with_log(&[]);
    app.handle_log_tab(Key::Char('r'));
    assert!(matches!(app.overlay, Overlay::Hidden));
}

#[test]
fn prompt_rename_enter_calls_rename_session() {
    let mut app = app_with_log(&["old"]);
    app.overlay = Overlay::Prompt {
        label: "Rename session:".into(),
        value: "new name".into(),
        action: PromptAction::RenameSession { id: 1 },
    };
    let effect = app.handle_overlay_prompt(Key::Enter);
    assert_eq!(effect, Effect::RenameSession { id: 1, task: "new name".to_string() });
    app.session_renamed("new name", vec![completed(1, "new name")]);
    assert_eq!(app.log_entries[0].task, "new name");
}

#[test]
fn question_mark_sets_help_overlay() {
    let mut app = make_app();
    app.handle_key_event(Key::Char('?'), false);
    assert!(matches!(app.overlay, Overlay::Help));
}

#[test]
fn any_key_dismisses_help_overlay() {
    let mut app = make_app();
    app.overlay = Overlay::Help;
    app.handle_overlay(Key::Char('x'));
    assert!(matches!(app.overlay, Overlay::Hidden));
}

#[test]
fn ctrl_c_and_q_quit() {
    let mut app = make_app();
    assert_eq!(app.handle_key_event(Key::Char('c'), true), Effect::Quit);
    assert_eq!(app.handle_key_event(Key::Char('q'), false), Effect::Quit);
}

#[test]
fn mode_selector_starts_freeform_or_pomodoro() {
    let mut app = make_app();
    app.handle_dashboard_tab(Key::Char('n'));
    assert_eq!(app.overlay, Overlay::ModeSelector { cursor: 0 });
    app.handle_key_event(Key::Down, false);
    assert_eq!(app.overlay, Overlay::ModeSelector { cursor: 1 });
    app.handle_key_event(Key::Enter, false);
    let Overlay::Prompt { label, action, .. } = &app.overlay else { panic!() };
    assert_eq!(label, "Pomodoro — task name:");
    assert_eq!(action, &PromptAction::StartPomodoroName);
    app.handle_key_event(Key::Char('x'), false);
    app.handle_key_event(Key::Enter, false);
    let effect = app.handle_key_event(Key::Enter, false);
    assert_eq!(effect, Effect::StartPomodoro { task: "x".to_string(), tag: None });
    app.start_pomodoro("x".to_string(), None, focus::pomodoro::config::PomodoroConfig::default());
    assert_eq!(app.active_tab, Tab::Pomodoro);
    assert!(app.has_active_pomodoro());
    assert_eq!(app.message.clone().unwrap().text, "Pomodoro started!");
}

#[test]
fn new_session_refused_while_one_runs() {
    let mut app = make_app();
    app.set_dashboard_data(Some(active("busy")), vec![]);
    app.handle_dashboard_tab(Key::Char('n'));
    let msg = app.message.clone().unwrap();
    assert_eq!(msg.kind, MessageKind::Warning);
    assert_eq!(msg.text, "Session already running.");
    app.session_already_running(&active("busy"));
    let msg = app.message.unwrap();
    assert_eq!(msg.kind, MessageKind::Error);
    assert!(msg.text.starts_with("Session already running: \"busy\" — elapsed: "));
}

#[test]
fn pomodoro_tab_controls_the_timer() {
    let mut app = make_app();
    app.start_pomodoro("t".to_string(), None, focus::pomodoro::config::PomodoroConfig::default());
    app.handle_key_event(Key::Char('p'), false);
    assert!(app.pomodoro_timer.as_ref().unwrap().paused);
    app.handle_key_event(Key::Char('p'), false);
    assert!(!app.pomodoro_timer.as_ref().unwrap().paused);
    app.handle_key_event(Key::Char('+'), false);
    assert_eq!(app.pomodoro_timer.as_ref().unwrap().remaining_secs, 25 * 60 + 300);
    app.handle_key_event(Key::Char('q'), false);
    assert_eq!(app.overlay, Overlay::PomodoroConfirmStop);
    let effect = app.handle_key_event(Key::Char('y'), false);
    assert_eq!(effect, Effect::EndPomodoro { abandoned: true });
    assert!(app.pomodoro_timer.is_none());
    assert_eq!(app.active_tab, Tab::Dashboard);
}

#[test]
fn settings_steps_pomodoro_durations_within_range() {
    let mut app = make_app();
    app.active_tab = Tab::Settings;
    app.handle_key_event(Key::Down, false);
    assert_eq!(app.settings_selected, 1);
    assert_eq!(app.handle_key_event(Key::Char('+'), false), Effect::SavePomodoroConfig);
    assert_eq!(app.pomo_config.work_duration_mins, 26);
    app.pomo_config.work_duration_mins = 120;
    assert_eq!(app.handle_key_event(Key::Char('+'), false), Effect::Nothing);
    assert_eq!(app.pomo_config.work_duration_mins, 120);
    for _ in 0..3 {
        app.handle_key_event(Key::Down, false);
    }
    assert_eq!(app.settings_selected, 4);
    app.handle_key_event(Key::Down, false);
    assert_eq!(app.settings_selected, 4);
    app.pomo_config.long_break_after = 2;
    assert_eq!(app.handle_key_event(Key::Char('-'), false), Effect::Nothing);
}

#[test]
fn todo_input_adds_a_todo() {
    let mut app = make_app();
    app.handle_dashboard_tab(Key::Char('a'));
    assert!(app.todo_input_mode);
    app.handle_dashboard_tab(Key::Char('h'));
    app.handle_dashboard_tab(Key::Char('i'));
    let effect = app.handle_dashboard_tab(Key::Enter);
    assert_eq!(effect, Effect::InsertTodo { title: "hi".to_string() });
    app.exit_todo_input_mode();
    assert!(!app.todo_input_mode);
    assert_eq!(app.todo_input.buffer, "");
}

#[test]
fn report_tab_cycles_windows() {
    let mut app = make_app();
    app.active_tab = Tab::Report;
    assert_eq!(app.handle_key_event(Key::Left, false), Effect::LoadReport);
    assert_eq!(app.report_selected_window, 2);
    app.handle_key_event(Key::Char('l'), false);
    assert_eq!(app.report_selected_window, 0);
}

#[test]
fn timer_events_announce_phases() {
    let mut app = make_app();
    let events = vec![
        TimerEvent::Tick,
        TimerEvent::PhaseComplete { from: PomodoroPhase::Work, to: PomodoroPhase::Break, work_saved: true },
    ];
    let (notices, reload) = app.on_timer_events(&events);
    assert_eq!(notices, vec![("Break time!".to_string(), "Work phase complete.".to_string())]);
    assert!(!reload);
    assert_eq!(app.message.clone().unwrap().text, "Work phase complete.");
    let (_, reload) = app.on_timer_events(&vec![TimerEvent::AutoAbandoned { completed: 0 }]);
    assert!(reload);
    assert_eq!(app.message.unwrap().kind, MessageKind::Error);
}

#[test]
fn truncate_and_animation_helpers() {
    assert_eq!(truncate_to("abcdef", 4), "abc…");
    assert_eq!(truncate_to("abc", 4), "abc");
    assert_eq!(truncate_to("abc", 0), "");
    let mut app = make_app();
    app.advance_clock_anim("00:00:01");
    assert_eq!(app.clock_anim_frame, vec![0; 8]);
    app.advance_clock_anim("00:00:02");
    assert_eq!(app.clock_anim_frame, vec![0, 0, 0, 0, 0, 0, 0, 1]);
    app.advance_clock_anim("00:00:02");
    assert_eq!(app.clock_anim_frame[7], 2);
    for _ in 0..5 {
        app.advance_clock_anim("00:00:02");
    }
    assert_eq!(app.clock_anim_frame[7], 0);
}

#[test]
fn open_prompt_prefills_or_clears_the_input() {
    let mut app = make_app();
    app.open_prompt("Rename session:", "Old name", PromptAction::RenameSession { id: 7 });
    match &app.overlay {
        Overlay::Prompt { label, value, action } => {
            assert_eq!(label, "Rename session:");
            assert_eq!(value, "Old name");
            assert!(matches!(action, PromptAction::RenameSession { id: 7 }));
        }
        _ => panic!("expected a prompt"),
    }
    assert_eq!(app.prompt_input.buffer, "Old name");
    assert_eq!(app.prompt_input.cursor_pos, 8);
    app.open_prompt("Session name:", "", PromptAction::StartSession);
    assert_eq!(app.prompt_input.buffer, "");
    assert_eq!(app.prompt_input.cursor_pos, 0);
}

#[test]
fn test_full_pomodoro_panel_toggle_default_off() {
    let app = App::new(false, AppConfig::default());
    assert!(!app.full_pomodoro_panel, "full_pomodoro_panel must default to false");
}

#[test]
fn test_full_pomodoro_panel_toggle_on() {
    let mut app = App::new(false, AppConfig::default());
    app.full_pomodoro_panel = true;
    assert!(app.full_pomodoro_panel, "full_pomodoro_panel must be settable to true");
}

#[test]
fn test_full_pomodoro_panel_toggle_roundtrip() {
    let mut app = App::new(false, AppConfig::default());
    app.full_pomodoro_panel = true;
    app.full_pomodoro_panel = false;
    assert!(!app.full_pomodoro_panel, "full_pomodoro_panel must be toggleable off");
}

#[test]
fn invalidated_report_metrics_are_stale() {
    let mut app = make_app();
    assert!(app.report_metrics_stale());
    app.store_report_metrics(app.report_metrics.clone());
    assert!(!app.report_metrics_stale());
    app.invalidate_report_metrics_cache();
    assert!(app.report_metrics_stale());
}

#[test]
fn pause_then_resume_keeps_the_countdown() {
    let mut app = make_app();
    app.start_pomodoro("t".to_string(), None, focus::pomodoro::config::PomodoroConfig::default());
    app.pomodoro_timer.as_mut().unwrap().tick_secs(42);
    let before = app.pomodoro_timer.as_ref().unwrap().remaining_secs;
    app.handle_key_event(Key::Char('p'), false);
    app.handle_key_event(Key::Char('P'), false);
    let t = app.pomodoro_timer.as_ref().unwrap();
    assert!(!t.paused);
    assert!(t.pause_started.is_none());
    assert_eq!(t.remaining_secs, before);
    assert_eq!(t.phase, PomodoroPhase::Work);
    assert_eq!(t.completed_work, 0);
}
