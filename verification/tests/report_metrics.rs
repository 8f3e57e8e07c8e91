use focus::tui::report::{completion_rate, focus_streak_from, ReportMetrics};

#[test]
fn test_create_default_metrics() {
    let metrics = ReportMetrics::new(0, 0, 0, 0, 0, 0, 0, 0);
    assert_eq!(metrics.count_today, 0);
    assert_eq!(metrics.completion_rate, 0);
}

#[test]
fn test_format_duration() {
    let metrics = ReportMetrics::new(1, 1, 1, 3661, 7200, 86400, 80, 5);
    assert_eq!(metrics.format_duration_today(), "01:01:01");
    assert_eq!(metrics.format_duration_week(), "02:00:00");
    assert_eq!(metrics.format_duration_all_time(), "24:00:00");
}

#[test]
fn test_productivity_score() {
    let metrics = ReportMetrics::new(5, 12, 100, 1800, 7200, 86400, 80, 7);
    let score = metrics.compute_productivity_score();
    assert!(score > 0);
    assert!(score <= 100);
}

#[test]
fn productivity_score_exact_values() {
    // 0.4 * 80 + 7 + min(6 * 5, 30)
    let m = ReportMetrics::new(5, 12, 100, 1800, 7200, 86400, 80, 7);
    assert_eq!(m.compute_productivity_score(), 32 + 7 + 30);
    // rate 33 gives 13.2 points, rounded down; 2 sessions give 12.
    let m = ReportMetrics::new(2, 0, 0, 0, 0, 0, 33, 45);
    assert_eq!(m.compute_productivity_score(), 13 + 30 + 12);
    let best = ReportMetrics::new(9, 0, 0, 0, 0, 0, 100, 30);
    assert_eq!(best.compute_productivity_score(), 100);
    assert_eq!(ReportMetrics::default().compute_productivity_score(), 0);
}

#[test]
fn completion_rate_is_a_percentage() {
    assert_eq!(completion_rate(1, 2), 50);
    assert_eq!(completion_rate(0, 0), 0);
    assert_eq!(completion_rate(2, 3), 66);
    assert_eq!(completion_rate(3, 3), 100);
}

#[test]
fn focus_streak_counts_back_from_today() {
    let today = chrono::NaiveDate::from_ymd_opt(2024, 3, 10).unwrap();
    let today_num = chrono::Datelike::num_days_from_ce(&today);
    let dates = vec![
        "2024-03-10".to_string(),
        "2024-03-09".to_string(),
        "not a date".to_string(),
        "2024-03-08".to_string(),
        "2024-03-06".to_string(),
    ];
    assert_eq!(focus_streak_from(&dates, today_num), 3);
    // A future date is passed over; a gap ends the streak.
    let dates = vec!["2024-03-11".to_string(), "2024-03-10".to_string(), "2024-03-08".to_string()];
    assert_eq!(focus_streak_from(&dates, today_num), 1);
    assert_eq!(focus_streak_from(&[], today_num), 0);
}

#[test]
fn report_panel_lines() {
    let m = focus::tui::report::ReportMetrics::new(2, 7, 40, 3725, 7200, 99999, 50, 3);
    assert_eq!(
        focus::tui::views::dashboard::report_lines(&m),
        vec![
            "Today's Report".to_string(),
            String::new(),
            "Sessions: 2  Duration: 01:02:05".to_string(),
            String::new(),
            "Completion: 50%  Streak: 3 days".to_string(),
            String::new(),
            "Productivity: 35/100".to_string(),
            String::new(),
            "Week: 7 sessions • 02:00:00".to_string(),
            "All-time: 40 sessions".to_string(),
        ]
    );
}
