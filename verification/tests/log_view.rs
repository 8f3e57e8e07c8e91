use focus::theme::Theme;
use focus::tui::views::log::{format_status, task_column_width};

#[test]
fn test_format_status_completed() {
    assert_eq!(format_status(true), "done");
}

#[test]
fn test_format_status_active() {
    assert_eq!(format_status(false), "active");
}

#[test]
fn test_responsive_column_widths_wide_terminal() {
    // 160 columns: the task column takes what the fixed columns leave.
    assert_eq!(task_column_width(160), 106);
}

#[test]
fn test_responsive_column_widths_narrow_terminal() {
    // 60 columns: the task column keeps its minimum of 10.
    assert!(task_column_width(60) >= 10);
    assert_eq!(task_column_width(60), 10);
}

#[test]
fn test_no_truncation_of_task_names() {
    let long_task = "A very long task name that exceeds the old 30-character limit and should not be cut off";
    let displayed = long_task.to_string();
    assert_eq!(displayed, long_task, "Task name must not be truncated");
}

#[test]
fn test_all_required_columns_present() {
    let headers = ["Date", "Task", "Tag", "Mode", "Duration", "Status"];
    assert_eq!(headers.len(), 6, "All 6 session fields must be present");
    assert!(headers.contains(&"Mode"), "Mode column must be present");
    assert!(headers.contains(&"Status"), "Status column must be present");
    assert!(headers.contains(&"Tag"), "Tag column must be present");
}

#[test]
fn test_empty_tag_displays_placeholder() {
    let tag: Option<&str> = None;
    let displayed = tag.unwrap_or("—");
    assert_eq!(displayed, "—", "Missing tag must render as placeholder '—'");
    let _ = Theme::default();
}
