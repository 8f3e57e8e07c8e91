use focus::display::format::{build_table_rows, format_duration, format_duration_mins, format_elapsed, utc_time_text};
use focus::error::FocusError;
use focus::models::session::Session;

fn session(start: i64, end: Option<i64>, tag: Option<&str>) -> Session {
    Session {
        id: 7,
        task: "write".to_string(),
        tag: tag.map(|t| t.to_string()),
        start_time: start,
        end_time: end,
        mode: "pomodoro".to_string(),
    }
}

#[test]
fn durations_in_seconds() {
    assert_eq!(format_duration(3723), "1h 02m 03s");
    assert_eq!(format_duration(3600), "1h 00m 00s");
    assert_eq!(format_duration(125), "2m 05s");
    assert_eq!(format_duration(59), "59s");
    assert_eq!(format_duration(0), "0s");
    assert_eq!(format_duration(-40), "0s");
}

#[test]
fn durations_in_minutes() {
    assert_eq!(format_duration_mins(65), "1h 05m");
    assert_eq!(format_duration_mins(30), "30m");
    assert_eq!(format_duration_mins(0), "—");
    assert_eq!(format_duration_mins(600), "10h 00m");
}

#[test]
fn elapsed_since_a_recent_start() {
    let start = chrono::Utc::now().timestamp() - 5;
    let text = format_elapsed(start);
    assert!(text.ends_with('s'));
    assert!(!text.contains('h'));
}

#[test]
fn table_rows_of_sessions() {
    let rows = build_table_rows(&[
        session(0, Some(90), Some("deep")),
        session(86_400 + 3_600, None, None),
    ]);
    assert_eq!(rows.len(), 2);
    assert_eq!(rows[0].date, "1970-01-01 00:00");
    assert_eq!(rows[0].task, "write");
    assert_eq!(rows[0].tag, "deep");
    assert_eq!(rows[0].duration, "1m 30s");
    assert_eq!(rows[0].mode, "pomodoro");
    assert_eq!(rows[1].date, "1970-01-02 01:00");
    assert_eq!(rows[1].tag, "—");
    assert_eq!(rows[1].duration, "—");
}

#[test]
fn session_duration_and_activity() {
    let s = session(100, Some(250), None);
    assert_eq!(s.duration(), Some(150));
    assert!(!s.is_active());
    let running = session(100, None, None);
    assert_eq!(running.duration(), None);
    assert!(running.is_active());
    assert_eq!(running.elapsed_at(160), 60);
    assert_eq!(session(i64::MIN, Some(i64::MAX), None).duration(), Some(i64::MAX));
}

#[test]
fn error_messages() {
    assert_eq!(FocusError::NoActiveSession.message(), "No active session to stop.");
    assert_eq!(
        FocusError::AlreadyRunning { task: "a".into(), elapsed: "5s".into() }.message(),
        "Session already running: \"a\" — elapsed: 5s"
    );
    assert_eq!(FocusError::EmptyTask.message(), "Task description cannot be empty.");
    assert_eq!(FocusError::InvalidLimit.message(), "--limit must be a positive integer.");
    assert_eq!(FocusError::InvalidFormat.message(), "--format must be one of: json, markdown.");
    assert_eq!(
        FocusError::DataFileCorrupted { path: "/x".into() }.message(),
        "Data file is corrupted or unreadable: /x"
    );
    assert_eq!(FocusError::SessionNotFound { id: -3 }.message(), "Session #-3 not found.");
}

#[test]
fn utc_texts_fall_back_to_the_epoch() {
    assert_eq!(utc_time_text(0, "%Y-%m-%d %H:%M"), "1970-01-01 00:00");
    assert_eq!(utc_time_text(86400 * 365 + 3661, "%Y-%m-%dT%H:%M:%SZ"), "1971-01-01T01:01:01Z");
    assert_eq!(utc_time_text(i64::MAX, "%H:%M"), "00:00");
    assert_eq!(utc_time_text(i64::MAX, "%Y-%m-%d"), "1970-01-01");
}

#[test]
fn durations_as_documented() {
    assert_eq!(format_duration(4323), "1h 12m 03s");
    assert_eq!(format_duration(12 * 60 + 5), "12m 05s");
    assert_eq!(format_duration(28 * 60 + 7), "28m 07s");
    assert_eq!(format_duration(3 * 3600 + 42 * 60), "3h 42m 00s");
    assert_eq!(format_duration(4 * 60 + 22), "4m 22s");
}
