use focus::error::FocusError;
use focus::pomodoro::config::{PomodoroConfig, PomodoroEnv};

#[test]
fn default_values() {
    let cfg = PomodoroConfig::default();
    assert_eq!(cfg.work_duration_mins, 25);
    assert_eq!(cfg.break_duration_mins, 5);
    assert_eq!(cfg.long_break_duration_mins, 15);
    assert_eq!(cfg.long_break_after, 4);
}

#[test]
fn cli_flags_override_defaults() {
    let mut cfg = PomodoroConfig::default();
    cfg.apply_cli_flags(Some(45), Some(15), Some(20), Some(3));
    assert_eq!(cfg.work_duration_mins, 45);
    assert_eq!(cfg.break_duration_mins, 15);
    assert_eq!(cfg.long_break_duration_mins, 20);
    assert_eq!(cfg.long_break_after, 3);
}

#[test]
fn cli_none_flags_keep_current_value() {
    let mut cfg = PomodoroConfig::default();
    cfg.apply_cli_flags(Some(30), None, None, None);
    assert_eq!(cfg.work_duration_mins, 30);
    assert_eq!(cfg.break_duration_mins, 5);
}

#[test]
fn validate_rejects_work_zero() {
    let cfg = PomodoroConfig { work_duration_mins: 0, ..PomodoroConfig::default() };
    let err = cfg.validate().unwrap_err();
    assert!(err.message().contains("work"));
}

#[test]
fn validate_rejects_work_too_large() {
    let cfg = PomodoroConfig { work_duration_mins: 121, ..PomodoroConfig::default() };
    assert!(cfg.validate().is_err());
}

#[test]
fn validate_rejects_break_zero() {
    let cfg = PomodoroConfig { break_duration_mins: 0, ..PomodoroConfig::default() };
    let err = cfg.validate().unwrap_err();
    assert!(err.message().contains("break"));
}

#[test]
fn validate_rejects_break_too_large() {
    let cfg = PomodoroConfig { break_duration_mins: 61, ..PomodoroConfig::default() };
    assert!(cfg.validate().is_err());
}

#[test]
fn validate_rejects_long_break_zero() {
    let cfg = PomodoroConfig { long_break_duration_mins: 0, ..PomodoroConfig::default() };
    assert!(cfg.validate().is_err());
}

#[test]
fn validate_rejects_long_break_too_large() {
    let cfg = PomodoroConfig { long_break_duration_mins: 61, ..PomodoroConfig::default() };
    assert!(cfg.validate().is_err());
}

#[test]
fn validate_accepts_boundary_values() {
    let cfg = PomodoroConfig {
        work_duration_mins: 1,
        break_duration_mins: 1,
        long_break_duration_mins: 1,
        long_break_after: 2,
    };
    assert!(cfg.validate().is_ok());

    let cfg2 = PomodoroConfig {
        work_duration_mins: 120,
        break_duration_mins: 60,
        long_break_duration_mins: 60,
        long_break_after: 8,
    };
    assert!(cfg2.validate().is_ok());
}

#[test]
fn validate_error_names_field_and_range() {
    let cfg = PomodoroConfig { work_duration_mins: 0, ..PomodoroConfig::default() };
    match cfg.validate() {
        Err(e @ FocusError::InvalidPomoDuration { .. }) => {
            assert_eq!(e.message(), "--work must be between 1 and 120 minutes (got 0).");
        }
        _ => panic!("expected a duration error"),
    }
}

#[test]
fn env_values_override_and_bad_values_are_ignored() {
    let mut cfg = PomodoroConfig::default();
    let env = PomodoroEnv {
        work: Some("50".to_string()),
        break_mins: Some("abc".to_string()),
        long_break: None,
        long_break_after: Some("+6".to_string()),
    };
    cfg.apply_env(&env);
    assert_eq!(cfg.work_duration_mins, 50);
    assert_eq!(cfg.break_duration_mins, 5);
    assert_eq!(cfg.long_break_duration_mins, 15);
    assert_eq!(cfg.long_break_after, 6);
}
