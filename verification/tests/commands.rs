use focus::commands::pomo_stats::{today_lines, week_lines};
use focus::commands::sessions::{
    check_limit, export_format, export_markdown, export_records, log_table_lines,
    status_lines_at, stopped_lines, tag_report_lines, ExportFormat,
};
use focus::commands::settings::{config_get, config_set, equals_ignore_ascii_case};
use focus::commands::start::{
    already_running_text, phase_change_text, pomodoro_cli_key, pomodoro_started_text,
    pomodoro_status_line, pomodoro_summary, pomodoro_tick_output, session_started_text,
    validate_task,
};
use focus::config::AppConfig;
use focus::display::format::TableRow;
use focus::error::FocusError;
use focus::models::pomodoro::{PomodoroPhase, PomodoroStats};
use focus::models::session::Session;
use focus::pomodoro::config::PomodoroConfig;
use focus::pomodoro::timer::{phase_record, PhaseRecord, PomodoroTimer, TimerEvent};
use focus::theme::Theme;
use focus::tui::keys::Key;

fn cfg() -> PomodoroConfig {
    PomodoroConfig {
        work_duration_mins: 25,
        break_duration_mins: 5,
        long_break_duration_mins: 15,
        long_break_after: 4,
    }
}

fn session(task: &str, tag: Option<&str>, start: i64, end: Option<i64>) -> Session {
    Session {
        id: 1,
        task: task.to_string(),
        tag: tag.map(|t| t.to_string()),
        start_time: start,
        end_time: end,
        mode: "freeform".to_string(),
    }
}

#[test]
fn task_is_trimmed_and_must_not_be_blank() {
    assert_eq!(validate_task("  write docs ").unwrap(), "write docs");
    assert!(matches!(validate_task("   "), Err(FocusError::EmptyTask)));
    assert!(matches!(validate_task(""), Err(FocusError::EmptyTask)));
}

#[test]
fn start_confirmations() {
    assert_eq!(
        session_started_text("Write", Some("docs")),
        "Session started: Write  [tag: docs]"
    );
    assert_eq!(session_started_text("Write", None), "Session started: Write");
    assert_eq!(
        pomodoro_started_text("Write", Some("docs")),
        "Pomodoro session started: Write [tag: docs]"
    );
    assert_eq!(
        already_running_text("Write", Some("a"), "5m 00s"),
        "Error: Session already running: \"Write\" [tag: a]  — elapsed: 5m 00s"
    );
    assert_eq!(
        already_running_text("Write", None, "3s"),
        "Error: Session already running: \"Write\"  — elapsed: 3s"
    );
}

#[test]
fn phase_change_lines() {
    assert_eq!(
        phase_change_text(PomodoroPhase::Work, PomodoroPhase::Break),
        "Work phase complete! Starting ☕ BREAK."
    );
    assert_eq!(
        phase_change_text(PomodoroPhase::Work, PomodoroPhase::LongBreak),
        "Work phase complete! Starting 🌿 LONG BREAK."
    );
    assert_eq!(
        phase_change_text(PomodoroPhase::Break, PomodoroPhase::Work),
        "Break over! Starting 🍅 WORK."
    );
}

#[test]
fn status_line_of_the_terminal_pomodoro() {
    let mut t = PomodoroTimer::new("task".into(), None, cfg());
    assert_eq!(
        pomodoro_status_line(&t),
        "🍅 WORK | 25:00 | Pomodoro 0/4  [P] pause  [S] skip  [Q] stop"
    );
    t.tick_secs(61);
    t.pause();
    assert_eq!(
        pomodoro_status_line(&t),
        "🍅 WORK | 23:59 | Pomodoro 0/4 [PAUSED]  [P] pause  [S] skip  [Q] stop"
    );
}

#[test]
fn tick_output_prints_changes_and_notifies_saved_work() {
    let events = vec![
        TimerEvent::Tick,
        TimerEvent::PhaseComplete {
            from: PomodoroPhase::Work,
            to: PomodoroPhase::Break,
            work_saved: true,
        },
        TimerEvent::PhaseComplete {
            from: PomodoroPhase::Break,
            to: PomodoroPhase::Work,
            work_saved: false,
        },
    ];
    let (lines, notes, abandoned) = pomodoro_tick_output(&events);
    assert_eq!(
        lines,
        vec![
            "Work phase complete! Starting ☕ BREAK.".to_string(),
            "Break over! Starting 🍅 WORK.".to_string()
        ]
    );
    assert_eq!(notes, vec!["Work phase complete! Starting ☕ BREAK.".to_string()]);
    assert!(!abandoned);
    let (lines, notes, abandoned) =
        pomodoro_tick_output(&vec![TimerEvent::AutoAbandoned { completed: 2 }]);
    assert!(lines.is_empty() && notes.is_empty() && abandoned);
}

#[test]
fn terminal_pomodoro_keys() {
    let mut t = PomodoroTimer::new("task".into(), None, cfg());
    assert!(pomodoro_cli_key(&mut t, Key::Char('c'), true));
    assert!(pomodoro_cli_key(&mut t, Key::Char('q'), false));
    assert!(pomodoro_cli_key(&mut t, Key::Char('Q'), false));
    assert!(!pomodoro_cli_key(&mut t, Key::Char('c'), false));
    assert!(!t.paused);
    assert!(!pomodoro_cli_key(&mut t, Key::Char('p'), false));
    assert!(t.paused);
    assert!(!pomodoro_cli_key(&mut t, Key::Char('P'), false));
    assert!(!t.paused);
    assert!(!pomodoro_cli_key(&mut t, Key::Char('s'), false));
    assert_eq!(t.phase, PomodoroPhase::Work);
    t.tick_secs(25 * 60);
    assert_eq!(t.phase, PomodoroPhase::Break);
    assert!(!pomodoro_cli_key(&mut t, Key::Char('s'), false));
    assert_eq!(t.phase, PomodoroPhase::Work);
}

#[test]
fn summary_counts_an_interrupted_work_phase() {
    let mut t = PomodoroTimer::new("task".into(), None, cfg());
    assert_eq!(pomodoro_summary(&t), ("0 completed, 1 abandoned.".to_string(), true));
    t.tick_secs(25 * 60);
    assert_eq!(pomodoro_summary(&t), ("1 completed, 0 abandoned.".to_string(), false));
}

#[test]
fn phase_records_follow_the_configuration() {
    let c = cfg();
    assert_eq!(
        phase_record(&c, PomodoroPhase::Work),
        PhaseRecord::WorkSession { work_secs: 1500, work_mins: 25 }
    );
    assert_eq!(phase_record(&c, PomodoroPhase::Break), PhaseRecord::BreakMinutes { mins: 5 });
    assert_eq!(
        phase_record(&c, PomodoroPhase::LongBreak),
        PhaseRecord::BreakMinutes { mins: 15 }
    );
}

#[test]
fn stop_lines() {
    let s = session("Write", Some("docs"), 1000, Some(4725));
    assert_eq!(
        stopped_lines(&s),
        (
            "Stopped: \"Write\"  [tag: docs]".to_string(),
            "Duration: 1h 02m 05s".to_string()
        )
    );
    let running = session("Read", None, 1000, None);
    assert_eq!(
        stopped_lines(&running),
        ("Stopped: \"Read\"".to_string(), "Duration: 0s".to_string())
    );
}

#[test]
fn status_lines_measure_from_the_start() {
    assert_eq!(status_lines_at(&None, 0), vec!["No active session.".to_string()]);
    let s = session("Write", Some("docs"), 1000, None);
    assert_eq!(
        status_lines_at(&Some(s), 1090),
        vec![
            "Working on: \"Write\"  [tag: docs]".to_string(),
            "Elapsed: 1m 30s".to_string()
        ]
    );
}

#[test]
fn log_limit_must_be_positive() {
    assert!(matches!(check_limit(0), Err(FocusError::InvalidLimit)));
    assert!(check_limit(1).is_ok());
}

#[test]
fn log_table_widens_to_the_longest_entry() {
    let rows = vec![
        TableRow {
            date: "2024-01-01 10:00".into(),
            task: "Write".into(),
            tag: "docs".into(),
            duration: "1h 00m 00s".into(),
            mode: "freeform".into(),
        },
        TableRow {
            date: "2024-01-02 09:00".into(),
            task: "Go".into(),
            tag: "—".into(),
            duration: "5s".into(),
            mode: "pomodoro".into(),
        },
    ];
    let lines = log_table_lines(&rows);
    assert_eq!(
        lines,
        vec![
            format!("{:<20} {:<5} {:<4} {:<9} {}", "DATE", "TASK", "TAG", "MODE", "DURATION"),
            format!("{:<20} {:<5} {:<4} {:<9} {}", "2024-01-01 10:00", "Write", "docs", "freeform", "1h 00m 00s"),
            format!("{:<20} {:<5} {:<4} {:<9} {}", "2024-01-02 09:00", "Go", "—", "pomodoro", "5s"),
        ]
    );
    let empty = log_table_lines(&[]);
    assert_eq!(empty, vec![format!("{:<20} {:<4} {:<3} {:<9} {}", "DATE", "TASK", "TAG", "MODE", "DURATION")]);
}

#[test]
fn markdown_export_lists_completed_sessions() {
    let sessions = vec![
        session("Write", None, 0, Some(3600)),
        session("Open", Some("x"), 100, None),
        session("Read", Some("books"), 86400 + 60, Some(86400 + 150)),
    ];
    assert_eq!(
        export_markdown(&sessions),
        "| Date | Task | Tag | Start | End | Duration |\n\
         |------|------|-----|-------|-----|----------|\n\
         | 1970-01-01 | Write | — | 00:00 | 01:00 | 1h 00m 00s |\n\
         | 1970-01-02 | Read | books | 00:01 | 00:02 | 1m 30s |\n"
    );
}

#[test]
fn tag_report_totals() {
    let rows = vec![(Some("deep".to_string()), 3600i64), (None, 90i64)];
    let rule = "─".repeat(30);
    assert_eq!(
        tag_report_lines(&rows),
        vec![
            "Tag      Total".to_string(),
            rule.clone(),
            "deep     1h 00m 00s".to_string(),
            "untagged 1m 30s".to_string(),
            rule,
            "TOTAL    1h 01m 30s".to_string(),
        ]
    );
    let wide = vec![(Some("a-much-longer-tag".to_string()), 5i64)];
    let lines = tag_report_lines(&wide);
    assert_eq!(lines[0], "Tag               Total");
    assert_eq!(lines[1], "─".repeat(39));
    assert_eq!(lines[2], "a-much-longer-tag 5s");
    assert_eq!(lines[4], "TOTAL             5s");
}

fn stats(date: &str, completed: u32, abandoned: u32, work: u32, brk: u32) -> PomodoroStats {
    PomodoroStats {
        date: date.to_string(),
        completed,
        abandoned,
        work_minutes: work,
        break_minutes: brk,
    }
}

#[test]
fn today_statistics() {
    let s = stats("2024-01-01", 3, 1, 75, 15);
    assert_eq!(
        today_lines(&s, 2, "Monday, Jan 01"),
        vec![
            "Pomodoro Statistics — Monday, Jan 01".to_string(),
            "─".repeat(42),
            "Completed pomodoros   : 3".to_string(),
            "Abandoned             : 1".to_string(),
            "Work time             : 1h 15m".to_string(),
            "Break time            : 15m".to_string(),
            "Current streak        : 2 days".to_string(),
        ]
    );
    let idle = stats("2024-01-01", 0, 0, 0, 0);
    assert_eq!(
        today_lines(&idle, 0, "Monday, Jan 01"),
        vec!["No Pomodoro sessions today.".to_string()]
    );
}

#[test]
fn week_statistics() {
    let dates = vec!["2024-01-01".to_string(), "2024-01-02".to_string()];
    let records = vec![stats("2024-01-02", 2, 1, 50, 10)];
    let row = |d: &str, c: &str, a: &str, w: &str, b: &str| {
        format!("{:<12} {:>10} {:>10} {:>12} {:>12}", d, c, a, w, b)
    };
    assert_eq!(
        week_lines(&dates, &records, 3),
        vec![
            "Pomodoro Statistics — Last 7 Days".to_string(),
            "─".repeat(64),
            row("Date", "Completed", "Abandoned", "Work time", "Break time"),
            "─".repeat(64),
            row("2024-01-01", "0", "0", "—", "—"),
            row("2024-01-02", "2", "1", "50m", "10m"),
            "─".repeat(64),
            row("Total", "2", "1", "50m", "10m"),
            "Best streak : 3 days".to_string(),
        ]
    );
    let quiet = vec![stats("2024-01-01", 0, 0, 0, 0)];
    assert_eq!(
        week_lines(&dates, &quiet, 0),
        vec!["No Pomodoro sessions in the past 7 days.".to_string()]
    );
}

#[test]
fn theme_names_ignore_case() {
    assert_eq!(Theme::from_name("Material"), Some(Theme::Material));
    assert_eq!(Theme::from_name("ONEDARK"), Some(Theme::OneDark));
    assert_eq!(Theme::from_name("light"), Some(Theme::Light));
    assert_eq!(Theme::from_name("dark"), Some(Theme::Dark));
    assert_eq!(Theme::from_name("solarized"), None);
    assert!(equals_ignore_ascii_case("AuTo", "auto"));
    assert!(!equals_ignore_ascii_case("autos", "auto"));
}

#[test]
fn config_get_reads_known_keys() {
    let mut c = AppConfig::default();
    assert_eq!(config_get(&c, "theme").unwrap(), "theme = auto");
    assert_eq!(config_get(&c, "vim-mode").unwrap(), "vim-mode = off");
    c.theme = Some("light".into());
    c.vim_mode = true;
    assert_eq!(config_get(&c, "theme").unwrap(), "theme = light");
    assert_eq!(config_get(&c, "vim-mode").unwrap(), "vim-mode = on");
    assert_eq!(
        config_get(&c, "colour").unwrap_err(),
        "Unknown config key 'colour'. Valid keys: theme, vim-mode"
    );
}

#[test]
fn config_set_changes_one_key() {
    let mut c = AppConfig::default();
    assert_eq!(config_set(&mut c, "theme", "Dark").unwrap(), "Theme set to 'dark'");
    assert_eq!(c.theme.as_deref(), Some("dark"));
    assert_eq!(
        config_set(&mut c, "theme", "AUTO").unwrap(),
        "Theme set to auto (system detection)"
    );
    assert_eq!(c.theme, None);
    assert_eq!(
        config_set(&mut c, "theme", "neon").unwrap_err(),
        "Unknown theme 'neon'. Valid themes: onedark, material, light, dark, auto"
    );
    assert_eq!(c.theme, None);
    assert_eq!(config_set(&mut c, "vim-mode", "Yes").unwrap(), "Vim mode enabled");
    assert!(c.vim_mode);
    assert_eq!(config_set(&mut c, "vim-mode", "0").unwrap(), "Vim mode disabled");
    assert!(!c.vim_mode);
    assert_eq!(
        config_set(&mut c, "vim-mode", "maybe").unwrap_err(),
        "Invalid value for vim-mode. Use: on/off"
    );
    assert_eq!(
        config_set(&mut c, "font", "x").unwrap_err(),
        "Unknown config key 'font'. Valid keys: theme, vim-mode"
    );
    assert!(!c.vim_mode && c.theme.is_none());
}

#[test]
fn export_format_is_trimmed_and_case_blind() {
    assert_eq!(export_format(" JSON ").unwrap(), ExportFormat::Json);
    assert_eq!(export_format("Markdown").unwrap(), ExportFormat::Markdown);
    assert!(matches!(export_format("csv"), Err(FocusError::InvalidFormat)));
    assert!(matches!(export_format(""), Err(FocusError::InvalidFormat)));
}

#[test]
fn export_records_list_completed_sessions() {
    let sessions = vec![
        session("Write", None, 0, Some(3600)),
        session("Open", Some("x"), 100, None),
        session("Read", Some("books"), 86400 + 60, Some(86400 + 150)),
    ];
    let records = export_records(&sessions);
    assert_eq!(records.len(), 2);
    assert_eq!(records[0].task, "Write");
    assert_eq!(records[0].tag, None);
    assert_eq!(records[0].start_time, "1970-01-01T00:00:00Z");
    assert_eq!(records[0].end_time, "1970-01-01T01:00:00Z");
    assert_eq!(records[0].duration_seconds, 3600);
    assert_eq!(records[1].task, "Read");
    assert_eq!(records[1].tag.as_deref(), Some("books"));
    assert_eq!(records[1].start_time, "1970-01-02T00:01:00Z");
    assert_eq!(records[1].duration_seconds, 90);
}
