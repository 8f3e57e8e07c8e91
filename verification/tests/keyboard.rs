use focus::tui::keyboard::{KeyAction, KeyContext, KeyHandler, TabTarget};
use focus::tui::keys::Key;

#[test]
fn test_letter_shortcut_d_navigates_to_dashboard() {
    let mut handler = KeyHandler::new(false);
    assert_eq!(handler.handle_key(Key::Char('d')), KeyAction::NavigateTab(TabTarget::Dashboard));
}

#[test]
fn test_letter_shortcut_s_navigates_to_sessions() {
    let mut handler = KeyHandler::new(false);
    assert_eq!(handler.handle_key(Key::Char('s')), KeyAction::NavigateTab(TabTarget::Sessions));
}

#[test]
fn test_letter_shortcut_t_navigates_to_todos() {
    let mut handler = KeyHandler::new(false);
    assert_eq!(handler.handle_key(Key::Char('t')), KeyAction::NavigateTab(TabTarget::TODOs));
}

#[test]
fn test_esc_in_input_mode_returns_cancel() {
    let mut handler = KeyHandler::new(false);
    handler.set_context(KeyContext::Input);
    assert_eq!(handler.handle_key(Key::Esc), KeyAction::CancelInput);
}

#[test]
fn test_shortcuts_disabled_in_input_mode() {
    let mut handler = KeyHandler::new(false);
    handler.set_context(KeyContext::Input);
    match handler.handle_key(Key::Char('d')) {
        KeyAction::InputKeypress(_) => {}
        _ => panic!("Expected InputKeypress in input mode"),
    }
}

#[test]
fn test_vim_mode_hjkl_navigation() {
    let mut handler = KeyHandler::new(true);
    assert_eq!(handler.handle_key(Key::Char('h')), KeyAction::FocusLeft);
    assert_eq!(handler.handle_key(Key::Char('j')), KeyAction::FocusDown);
    assert_eq!(handler.handle_key(Key::Char('k')), KeyAction::FocusUp);
    assert_eq!(handler.handle_key(Key::Char('l')), KeyAction::FocusRight);
}

#[test]
fn test_arrow_keys_when_vim_mode_disabled() {
    let mut handler = KeyHandler::new(false);
    assert_eq!(handler.handle_key(Key::Left), KeyAction::FocusLeft);
    assert_eq!(handler.handle_key(Key::Right), KeyAction::FocusRight);
    assert_eq!(handler.handle_key(Key::Up), KeyAction::FocusUp);
    assert_eq!(handler.handle_key(Key::Down), KeyAction::FocusDown);
}

#[test]
fn test_esc_key_in_input_context_returns_cancel_input() {
    let mut handler = KeyHandler::new(false);
    handler.set_context(KeyContext::Input);
    assert_eq!(handler.handle_key(Key::Esc), KeyAction::CancelInput);
}

#[test]
fn test_navigation_shortcuts_disabled_in_input_context() {
    let mut handler = KeyHandler::new(false);
    handler.set_context(KeyContext::Input);
    match handler.handle_key(Key::Char('d')) {
        KeyAction::InputKeypress(_) => {}
        _ => panic!("Expected InputKeypress for 'd' in input mode"),
    }
    match handler.handle_key(Key::Char('1')) {
        KeyAction::InputKeypress(_) => {}
        _ => panic!("Expected InputKeypress for '1' in input mode"),
    }
    match handler.handle_key(Key::Up) {
        KeyAction::InputKeypress(_) => {}
        _ => panic!("Expected InputKeypress for Up in input mode"),
    }
}

#[test]
fn test_number_shortcuts_map_to_focus_panel() {
    let mut handler = KeyHandler::new(false);
    assert_eq!(handler.handle_key(Key::Char('1')), KeyAction::FocusPanel(0));
    assert_eq!(handler.handle_key(Key::Char('2')), KeyAction::FocusPanel(1));
    assert_eq!(handler.handle_key(Key::Char('3')), KeyAction::FocusPanel(2));
}

#[test]
fn test_out_of_range_number_ignored() {
    let mut handler = KeyHandler::new(false);
    assert_eq!(handler.handle_key(Key::Char('4')), KeyAction::NoAction);
    assert_eq!(handler.handle_key(Key::Char('5')), KeyAction::NoAction);
    assert_eq!(handler.handle_key(Key::Char('9')), KeyAction::NoAction);
}

#[test]
fn test_all_shortcuts_return_input_keypress_in_input_context() {
    let mut handler = KeyHandler::new(true);
    handler.set_context(KeyContext::Input);
    let test_keys = vec![
        Key::Char('d'),
        Key::Char('s'),
        Key::Char('t'),
        Key::Char('1'),
        Key::Char('h'),
        Key::Char('j'),
        Key::Char('k'),
        Key::Char('l'),
        Key::Left,
        Key::Right,
        Key::Up,
        Key::Down,
    ];
    for key in test_keys {
        assert!(
            matches!(handler.handle_key(key), KeyAction::InputKeypress(_)),
            "Key {:?} should return InputKeypress in input context",
            key
        );
    }
}

#[test]
fn vim_dd_deletes_and_gg_jumps() {
    let mut handler = KeyHandler::new(true);
    assert_eq!(handler.handle_key(Key::Char('d')), KeyAction::NoAction);
    assert_eq!(handler.handle_key(Key::Char('d')), KeyAction::DeleteItem);
    assert_eq!(handler.handle_key(Key::Char('g')), KeyAction::NoAction);
    assert_eq!(handler.handle_key(Key::Char('g')), KeyAction::JumpTop);
    assert_eq!(handler.handle_key(Key::Char('G')), KeyAction::JumpBottom);
    assert_eq!(handler.get_context(), KeyContext::Viewing);
}

#[test]
fn stale_pending_key_starts_over() {
    let mut handler = KeyHandler::new(true);
    let earlier = std::time::Instant::now();
    assert_eq!(handler.handle_key_at(Key::Char('d'), None, None, earlier), KeyAction::NoAction);
    // The second `d` came too late: it starts a new `dd`.
    assert_eq!(handler.handle_key_at(Key::Char('d'), Some(1000), None, earlier), KeyAction::NoAction);
    assert_eq!(handler.handle_key_at(Key::Char('d'), Some(999), None, earlier), KeyAction::DeleteItem);
    assert_eq!(handler.handle_key_at(Key::Backspace, None, None, earlier), KeyAction::DeleteItem);
    assert_eq!(handler.handle_key_at(Key::Char('g'), None, None, earlier), KeyAction::NoAction);
    assert_eq!(handler.handle_key_at(Key::Char('g'), None, Some(5000), earlier), KeyAction::NoAction);
    assert_eq!(handler.handle_key_at(Key::Char('g'), None, Some(0), earlier), KeyAction::JumpTop);
}

#[test]
fn context_is_the_last_one_set() {
    let mut handler = KeyHandler::new(true);
    assert_eq!(handler.get_context(), KeyContext::Viewing);
    for c in [KeyContext::Input, KeyContext::Viewing, KeyContext::Input] {
        handler.set_context(c);
        assert_eq!(handler.get_context(), c);
    }
    assert_eq!(handler.handle_key(Key::Char('x')), KeyAction::InputKeypress(Key::Char('x')));
}
