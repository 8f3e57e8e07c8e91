use focus::theme::{Rgb, Theme};
use focus::tui::themes::load_theme;

#[test]
fn test_load_theme_onedark() {
    let theme = load_theme(Some("onedark"), Theme::Dark);
    assert_eq!(theme, Theme::OneDark);
}

#[test]
fn test_load_theme_material() {
    let theme = load_theme(Some("material"), Theme::Dark);
    assert_eq!(theme, Theme::Material);
}

#[test]
fn test_load_theme_light() {
    let theme = load_theme(Some("light"), Theme::Dark);
    assert_eq!(theme, Theme::Light);
}

#[test]
fn test_load_theme_dark() {
    let theme = load_theme(Some("dark"), Theme::Light);
    assert_eq!(theme, Theme::Dark);
}

#[test]
fn test_load_theme_auto_detection() {
    let theme = load_theme(Some("auto"), Theme::from_colorfgbg(Some("15;0")));
    assert!(matches!(theme, Theme::OneDark | Theme::Material | Theme::Light | Theme::Dark));
    assert_eq!(theme, Theme::Dark);
}

#[test]
fn test_load_theme_invalid_fallback_to_auto() {
    let theme = load_theme(Some("invalid_theme"), Theme::Light);
    assert!(matches!(theme, Theme::OneDark | Theme::Material | Theme::Light | Theme::Dark));
    assert_eq!(theme, Theme::Light);
    assert_eq!(load_theme(None, Theme::Material), Theme::Material);
}

#[test]
fn test_theme_default_is_onedark() {
    assert_eq!(Theme::default(), Theme::OneDark);
}

#[test]
fn test_theme_colors_complete_for_onedark() {
    assert_eq!(Theme::OneDark.colors().validate(), Ok(()));
    assert_eq!(Theme::OneDark.colors().primary, Rgb(198, 120, 221));
}

#[test]
fn test_theme_colors_complete_for_material() {
    assert_eq!(Theme::Material.colors().validate(), Ok(()));
    assert_eq!(Theme::Material.colors().tag_color, Rgb(41, 182, 246));
}

#[test]
fn test_theme_colors_complete_for_light() {
    assert_eq!(Theme::Light.colors().validate(), Ok(()));
    assert_eq!(Theme::Light.colors().background, Rgb(250, 250, 250));
}

#[test]
fn test_theme_colors_complete_for_dark() {
    assert_eq!(Theme::Dark.colors().validate(), Ok(()));
    assert_eq!(Theme::Dark.colors().background, Rgb(18, 18, 18));
}

#[test]
fn test_tag_color_distinct_from_session_title_color() {
    for theme in &[Theme::OneDark, Theme::Material, Theme::Light, Theme::Dark] {
        let colors = theme.colors();
        assert_ne!(colors.tag_color, colors.session_title, "theme {:?}", theme);
    }
}

#[test]
fn colorfgbg_detection() {
    assert_eq!(Theme::from_colorfgbg(Some("0;15")), Theme::Light);
    assert_eq!(Theme::from_colorfgbg(Some("0;8")), Theme::Light);
    assert_eq!(Theme::from_colorfgbg(Some("15;0")), Theme::Dark);
    assert_eq!(Theme::from_colorfgbg(Some("0;16")), Theme::Dark);
    assert_eq!(Theme::from_colorfgbg(Some("0;default;15")), Theme::Dark);
    assert_eq!(Theme::from_colorfgbg(Some("12;+9;3")), Theme::Light);
    assert_eq!(Theme::from_colorfgbg(Some("7")), Theme::Dark);
    assert_eq!(Theme::from_colorfgbg(None), Theme::Dark);
}
