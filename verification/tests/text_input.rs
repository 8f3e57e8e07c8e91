use focus::tui::keys::Key;
use focus::tui::text_input::{TextInput, TextInputEvent, VimInputMode};

fn input(vim: bool) -> TextInput {
    TextInput::new(vim)
}

#[test]
fn simple_type_and_submit() {
    let mut t = input(false);
    assert!(matches!(t.handle_key(Key::Char('h')), TextInputEvent::Continue));
    assert!(matches!(t.handle_key(Key::Char('i')), TextInputEvent::Continue));
    assert_eq!(t.buffer, "hi");
    assert!(matches!(t.handle_key(Key::Enter), TextInputEvent::Submit(s) if s == "hi"));
}

#[test]
fn simple_esc_cancels() {
    let mut t = input(false);
    t.handle_key(Key::Char('x'));
    assert!(matches!(t.handle_key(Key::Esc), TextInputEvent::Cancel));
}

#[test]
fn simple_backspace() {
    let mut t = input(false);
    t.handle_key(Key::Char('a'));
    t.handle_key(Key::Char('b'));
    t.handle_key(Key::Backspace);
    assert_eq!(t.buffer, "a");
    assert_eq!(t.cursor_pos, 1);
}

#[test]
fn vim_starts_in_insert() {
    let t = input(true);
    assert_eq!(t.vim_mode, VimInputMode::Insert);
}

#[test]
fn vim_esc_switches_to_normal() {
    let mut t = input(true);
    t.handle_key(Key::Char('a'));
    t.handle_key(Key::Esc);
    assert_eq!(t.vim_mode, VimInputMode::Normal);
}

#[test]
fn vim_normal_i_returns_to_insert() {
    let mut t = input(true);
    t.handle_key(Key::Esc);
    t.handle_key(Key::Char('i'));
    assert_eq!(t.vim_mode, VimInputMode::Insert);
}

#[test]
fn vim_normal_esc_cancels() {
    let mut t = input(true);
    t.handle_key(Key::Char('a'));
    t.handle_key(Key::Esc);
    assert!(matches!(t.handle_key(Key::Esc), TextInputEvent::Cancel));
}

#[test]
fn vim_x_deletes_char_at_cursor() {
    let mut t = input(true);
    t.set_value("hello");
    t.cursor_pos = 0;
    t.vim_mode = VimInputMode::Normal;
    t.handle_key(Key::Char('x'));
    assert_eq!(t.buffer, "ello");
}

#[test]
fn vim_d_deletes_to_end() {
    let mut t = input(true);
    t.set_value("hello world");
    t.cursor_pos = 5;
    t.vim_mode = VimInputMode::Normal;
    t.handle_key(Key::Char('D'));
    assert_eq!(t.buffer, "hello");
}

#[test]
fn cursor_spans_mid_buffer() {
    let mut t = input(false);
    t.set_value("abc");
    t.cursor_pos = 1;
    let (before, cur, after) = t.cursor_spans();
    assert_eq!(before, "a");
    assert_eq!(cur, "b");
    assert_eq!(after, "c");
}

#[test]
fn cursor_spans_end_of_buffer() {
    let mut t = input(false);
    t.set_value("ab");
    t.cursor_pos = 2;
    let (before, cur, after) = t.cursor_spans();
    assert_eq!(before, "ab");
    assert_eq!(cur, " ");
    assert_eq!(after, "");
}

#[test]
fn multibyte_characters_move_by_whole_characters() {
    let mut t = input(false);
    t.handle_key(Key::Char('é'));
    t.handle_key(Key::Char('x'));
    assert_eq!(t.cursor_pos, 3);
    t.handle_key(Key::Left);
    t.handle_key(Key::Left);
    assert_eq!(t.cursor_pos, 0);
    t.handle_key(Key::Delete);
    assert_eq!(t.buffer, "x");
}

#[test]
fn submit_trims_whitespace() {
    let mut t = input(false);
    t.set_value("  deep work ");
    assert!(matches!(t.handle_key(Key::Enter), TextInputEvent::Submit(s) if s == "deep work"));
    assert_eq!(t.value(), "deep work");
}

#[test]
fn vim_word_motions() {
    let mut t = input(true);
    t.set_value("one two three");
    t.handle_key(Key::Esc);
    t.handle_key(Key::Char('0'));
    t.handle_key(Key::Char('w'));
    assert_eq!(t.cursor_pos, 4);
    t.handle_key(Key::Char('w'));
    assert_eq!(t.cursor_pos, 8);
    t.handle_key(Key::Char('b'));
    assert_eq!(t.cursor_pos, 4);
    t.handle_key(Key::Char('$'));
    assert_eq!(t.cursor_pos, 12);
}

#[test]
fn typing_stops_at_256_bytes() {
    let mut t = input(false);
    for _ in 0..300 {
        t.handle_key(Key::Char('a'));
    }
    assert_eq!(t.buffer.len(), 256);
}

#[test]
fn mode_labels_follow_the_mode() {
    let mut t = input(true);
    let insert_label = t.mode_label();
    t.handle_key(Key::Esc);
    let normal_label = t.mode_label();
    assert_ne!(insert_label, normal_label);
    let plain = input(false);
    assert_eq!(plain.mode_label(), "");
}

#[test]
fn normal_l_stops_on_the_last_character() {
    let mut t = input(true);
    t.set_value("aé");
    t.handle_key(Key::Esc);
    assert_eq!(t.vim_mode, VimInputMode::Normal);
    assert_eq!(t.cursor_pos, 1);
    t.handle_key(Key::Char('l'));
    assert_eq!(t.cursor_pos, 1);
    t.handle_key(Key::Char('h'));
    assert_eq!(t.cursor_pos, 0);
    t.handle_key(Key::Char('l'));
    assert_eq!(t.cursor_pos, 1);
}

#[test]
fn cursor_spans_clamp_a_cursor_past_the_end() {
    let mut t = input(false);
    t.set_value("ab");
    t.cursor_pos = 7;
    assert_eq!(t.cursor_spans(), ("ab".to_string(), " ".to_string(), String::new()));
    t.cursor_pos = 1;
    assert_eq!(t.cursor_spans(), ("a".to_string(), "b".to_string(), String::new()));
}

#[test]
fn typing_keeps_the_input_valid_and_bounded() {
    let mut t = input(true);
    let keys = [Key::Char('h'), Key::Char('é'), Key::Esc, Key::Char('x'), Key::Char('A'), Key::Char('!'), Key::Left];
    for k in keys {
        let before = t.buffer.clone();
        t.handle_key(k);
        assert!(t.buffer.is_char_boundary(t.cursor_pos) && t.cursor_pos <= t.buffer.len());
        assert!(t.vim_enabled);
        if t.buffer.chars().count() > before.chars().count() {
            assert!(before.len() < 256);
        }
    }
    assert_eq!(t.buffer, "h!");
    let before = t.buffer.clone();
    assert!(matches!(t.handle_key(Key::Enter), TextInputEvent::Submit(ref v) if v == "h!"));
    assert_eq!(t.buffer, before);
}
