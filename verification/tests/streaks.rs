use focus::models::pomodoro::PomodoroStats;
use focus::pomodoro::streak::{best_streak_of, calculate_best_streak, calculate_streak, calculate_streak_from, trailing_streak_of};

fn day(date: &str, completed: u32) -> PomodoroStats {
    PomodoroStats {
        date: date.to_string(),
        completed,
        abandoned: 0,
        work_minutes: 25 * completed,
        break_minutes: 5 * completed,
    }
}

fn day_number(y: i32, m: u32, d: u32) -> i32 {
    chrono::Datelike::num_days_from_ce(&chrono::NaiveDate::from_ymd_opt(y, m, d).unwrap())
}

#[test]
fn current_streak_ends_today() {
    let stats = vec![
        day("2024-02-27", 1),
        day("2024-02-28", 2),
        day("2024-02-29", 1),
        day("2024-03-01", 3),
    ];
    assert_eq!(calculate_streak_from(&stats, day_number(2024, 3, 1)), 4);
    // A day without a completed Pomodoro ends the streak.
    let stats = vec![day("2024-02-29", 1), day("2024-03-01", 0)];
    assert_eq!(calculate_streak_from(&stats, day_number(2024, 3, 1)), 0);
    // The streak must reach today.
    let stats = vec![day("2024-02-28", 1), day("2024-02-29", 1)];
    assert_eq!(calculate_streak_from(&stats, day_number(2024, 3, 1)), 0);
    assert_eq!(calculate_streak_from(&[], day_number(2024, 3, 1)), 0);
    let _ = calculate_streak(&stats);
}

#[test]
fn best_streak_is_the_longest_run() {
    let stats = vec![
        day("2024-01-01", 1),
        day("2024-01-02", 1),
        day("2024-01-04", 1),
        day("2024-01-05", 2),
        day("2024-01-06", 1),
        day("2024-01-07", 0),
        day("2024-01-08", 1),
        day("garbage", 5),
        day("2024-01-09", 1),
    ];
    assert_eq!(calculate_best_streak(&stats), 3);
    assert_eq!(calculate_best_streak(&[]), 0);
}

#[test]
fn streaks_over_day_numbers() {
    let days = vec![(Some(10), 1), (Some(11), 1), (None, 1), (Some(12), 1), (Some(13), 1)];
    assert_eq!(best_streak_of(&days), 2);
    assert_eq!(trailing_streak_of(&days, 13), 2);
    assert_eq!(trailing_streak_of(&days, 14), 0);
}

#[test]
fn current_streak_never_exceeds_best() {
    let stats = vec![
        day("2024-02-20", 1),
        day("2024-02-21", 1),
        day("2024-02-22", 1),
        day("2024-02-29", 1),
        day("2024-03-01", 1),
    ];
    for today in [day_number(2024, 3, 1), day_number(2024, 2, 22), day_number(2024, 2, 29)] {
        assert!(calculate_streak_from(&stats, today) <= calculate_best_streak(&stats));
    }
    assert_eq!(calculate_streak_from(&stats, day_number(2024, 3, 1)), 2);
    assert_eq!(calculate_best_streak(&stats), 3);
}
