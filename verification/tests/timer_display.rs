use focus::tui::timer_display::TimerDisplay;

#[test]
fn test_render_format_hh_mm_ss_under_100_hours() {
    let display = TimerDisplay::new(3661);
    assert_eq!(display.render(), "01:01:01");
}

#[test]
fn test_render_format_hh_mm_ss_zero() {
    let display = TimerDisplay::new(0);
    assert_eq!(display.render(), "00:00:00");
}

#[test]
fn test_render_format_hh_mm_ss_boundary_99_59_59() {
    let display = TimerDisplay::new(359999);
    assert_eq!(display.render(), "99:59:59");
}

#[test]
fn test_render_format_hhh_mm_ss_100_hours() {
    let display = TimerDisplay::new(360000);
    assert_eq!(display.render(), "100:00:00");
}

#[test]
fn test_requires_extended_format_under_100() {
    let display = TimerDisplay::new(359999);
    assert!(!display.requires_extended_format());
}

#[test]
fn test_requires_extended_format_over_100() {
    let display = TimerDisplay::new(360000);
    assert!(display.requires_extended_format());
}

#[test]
fn test_render_pomodoro_formats_mm_ss() {
    let display = TimerDisplay::new(25 * 60);
    assert_eq!(display.render_pomodoro(), "25:00");
    let display = TimerDisplay::new(0);
    assert_eq!(display.render_pomodoro(), "00:00");
    let display = TimerDisplay::new(5 * 60 + 37);
    assert_eq!(display.render_pomodoro(), "05:37");
}

#[test]
fn test_render_for_width_pomodoro_big_at_30() {
    let display = TimerDisplay::new(25 * 60);
    let (rows, is_big) = display.render_for_width_pomodoro(30);
    assert!(is_big);
    assert_eq!(rows.len(), 5);
}

#[test]
fn test_render_for_width_pomodoro_thin_at_22() {
    let display = TimerDisplay::new(25 * 60);
    let (rows, is_big) = display.render_for_width_pomodoro(22);
    assert!(is_big);
    assert_eq!(rows.len(), 5);
}

#[test]
fn test_render_for_width_pomodoro_plain_below_22() {
    let display = TimerDisplay::new(25 * 60);
    let (rows, is_big) = display.render_for_width_pomodoro(21);
    assert!(!is_big);
    assert_eq!(rows.len(), 1);
    assert_eq!(rows[0], "25:00");
}

#[test]
fn render_big_has_five_rows_of_glyphs() {
    let display = TimerDisplay::new(3661);
    let rows = display.render_big();
    assert_eq!(rows.len(), 5);
    // Six 5-wide digits, two 3-wide colons, seven separating spaces.
    for row in &rows {
        assert_eq!(row.chars().count(), 6 * 5 + 2 * 3 + 7);
    }
    assert_eq!(rows[0].chars().take(5).collect::<String>(), "█████");
}

#[test]
fn thin_glyphs_of_a_digit() {
    let rows = TimerDisplay::render_big_thin_str("1");
    assert_eq!(rows, vec![" ╷ ", " │ ", " │ ", " │ ", " ╵ "]);
    let thin = TimerDisplay::new(0).render_big_thin();
    assert_eq!(thin.len(), 5);
}

#[test]
fn sized_digits_are_square() {
    let rows = TimerDisplay::render_big_sized("8", 9);
    assert_eq!(rows.len(), 9);
    for row in &rows {
        assert_eq!(row.chars().count(), 9);
    }
    assert_eq!(rows[0], "█████████");
    assert_eq!(rows[1], "████ ████");
}

#[test]
fn width_tiers() {
    assert_eq!(TimerDisplay::best_digit_width_hms(33), None);
    assert_eq!(TimerDisplay::best_digit_width_hms(34), Some(3));
    assert_eq!(TimerDisplay::best_digit_width_hms(48), Some(5));
    assert_eq!(TimerDisplay::best_digit_width_hms(240), Some(29));
    assert_eq!(TimerDisplay::best_digit_width_pomo(21), None);
    assert_eq!(TimerDisplay::best_digit_width_pomo(232), Some(45));
    let (rows, big) = TimerDisplay::new(3661).render_for_width(64);
    assert!(big);
    assert_eq!(rows.len(), 7);
}

#[test]
fn animation_blends_changing_digits() {
    let still = TimerDisplay::render_animated_big_str("1", "1", &[3]);
    assert_eq!(still, TimerDisplay::render_big_sized("1", 5));
    let fading = TimerDisplay::render_animated_big_str("1", "0", &[1]);
    assert_eq!(fading[0], "█████");
    let fading_in = TimerDisplay::render_animated_big_str("1", "0", &[4]);
    assert_eq!(fading_in[1], "   ░░");
}

#[test]
fn thick_rows_have_the_width_of_the_text() {
    for dw in [5u8, 7, 9, 13, 29] {
        let rows = TimerDisplay::render_big_sized("12:34", dw);
        assert_eq!(rows.len(), dw as usize);
        for row in &rows {
            assert_eq!(row.chars().count(), 5 * dw as usize + 4);
        }
    }
}

#[test]
fn animation_without_fading_is_the_plain_rendering() {
    for dw in [3u8, 5, 11] {
        assert_eq!(
            TimerDisplay::render_animated_big_sized("01:59", "01:59", &[3, 3, 3, 3, 3], dw),
            TimerDisplay::render_big_sized("01:59", dw)
        );
        assert_eq!(
            TimerDisplay::render_animated_big_sized("02:00", "01:59", &[0, 0, 0, 0, 0], dw),
            TimerDisplay::render_big_sized("02:00", dw)
        );
    }
}
