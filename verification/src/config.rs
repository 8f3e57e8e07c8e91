//! User settings of the dashboard.
use vstd::prelude::*;

verus! {

/// Settings saved between runs.
#[derive(Debug, Clone)]
pub struct AppConfig {
    pub vim_mode: bool,
    /// Theme name; None selects automatic detection.
    pub theme: Option<String>,
    pub keyboard: KeyboardConfig,
}

/// Which families of keyboard shortcuts are on.
#[derive(Debug, Clone, Copy, PartialEq, Eq, Structural)]
pub struct KeyboardConfig {
    pub enable_number_shortcuts: bool,
    pub enable_letter_shortcuts: bool,
}

/// Both shortcut families off, as a record built without a settings file.
impl Default for KeyboardConfig {
    fn default() -> (r: KeyboardConfig)
        ensures
            !r.enable_number_shortcuts,
            !r.enable_letter_shortcuts,
    {
        KeyboardConfig { enable_number_shortcuts: false, enable_letter_shortcuts: false }
    }
}

/// Vim mode off, automatic theme, default keyboard settings.
impl Default for AppConfig {
    fn default() -> (r: AppConfig)
        ensures
            !r.vim_mode,
            r.theme is None,
            !r.keyboard.enable_number_shortcuts,
            !r.keyboard.enable_letter_shortcuts,
    {
        AppConfig { vim_mode: false, theme: None, keyboard: KeyboardConfig::default() }
    }
}

} // verus!
