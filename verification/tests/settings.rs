use focus::config::{AppConfig, KeyboardConfig};

#[test]
fn default_vim_mode_is_false() {
    let cfg = AppConfig::default();
    assert!(!cfg.vim_mode);
}

#[test]
fn default_config_has_automatic_theme_and_no_shortcut_families() {
    let cfg = AppConfig::default();
    assert!(cfg.theme.is_none());
    assert_eq!(
        cfg.keyboard,
        KeyboardConfig { enable_number_shortcuts: false, enable_letter_shortcuts: false }
    );
}
