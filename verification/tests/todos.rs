use focus::models::todo::{get_color_for_state, status_is_valid, title_is_valid, Todo};
use focus::theme::{Rgb, Theme};

fn todo(status: &str) -> Todo {
    Todo {
        id: 1,
        title: "Write tests".to_string(),
        status: status.to_string(),
        created_at: 1_700_000_000,
        completed_at: None,
    }
}

#[test]
fn test_todo_get_color_for_active_status() {
    let colors = Theme::OneDark.colors();
    assert_eq!(get_color_for_state("active", &colors), colors.todo_todo);
    assert_eq!(get_color_for_state("anything else", &colors), colors.todo_todo);
}

#[test]
fn test_todo_get_color_for_completed_status() {
    let colors = Theme::OneDark.colors();
    assert_eq!(get_color_for_state("completed", &colors), colors.todo_completed);
    assert_eq!(colors.todo_completed, Rgb(152, 195, 121));
}

#[test]
fn test_todo_instance_get_color_active() {
    let colors = Theme::Material.colors();
    let t = todo("active");
    assert!(t.is_active());
    assert!(!t.is_completed());
    assert_eq!(t.get_color(&colors), colors.todo_todo);
}

#[test]
fn test_todo_instance_get_color_completed() {
    let colors = Theme::Material.colors();
    let t = todo("completed");
    assert!(t.is_completed());
    assert_eq!(t.get_color(&colors), colors.todo_completed);
}

#[test]
fn todo_titles_and_statuses_are_checked() {
    assert!(title_is_valid("x"));
    assert!(!title_is_valid(""));
    assert!(title_is_valid(&"a".repeat(256)));
    assert!(!title_is_valid(&"a".repeat(257)));
    // 129 two-byte characters take 258 bytes.
    assert!(!title_is_valid(&"é".repeat(129)));
    assert!(status_is_valid("active"));
    assert!(status_is_valid("completed"));
    assert!(!status_is_valid("done"));
}

#[test]
fn todo_lines_mark_completed_items() {
    assert_eq!(focus::tui::views::dashboard::todo_line(&todo("active")), "  • Write tests");
    assert_eq!(focus::tui::views::dashboard::todo_line(&todo("completed")), "  ✓ Write tests");
}
