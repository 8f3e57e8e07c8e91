//! The dark palette: Muted accents on a near-black background.
use vstd::prelude::*;
use super::{Rgb, ThemeColors};

verus! {

/// The dark palette.
pub open spec fn palette() -> ThemeColors {
    ThemeColors {
        primary: Rgb(187, 134, 252),
        secondary: Rgb(3, 218, 198),
        accent: Rgb(207, 102, 121),
        success: Rgb(3, 218, 198),
        warning: Rgb(255, 179, 0),
        error: Rgb(207, 102, 121),
        background: Rgb(18, 18, 18),
        foreground: Rgb(225, 225, 225),
        panel_border: Rgb(55, 55, 55),
        panel_focus_border: Rgb(187, 134, 252),
        todo_todo: Rgb(176, 176, 176),
        todo_in_session: Rgb(255, 179, 0),
        todo_completed: Rgb(3, 218, 198),
        tag_color: Rgb(3, 218, 198),
        session_title: Rgb(187, 134, 252),
        timer_digit: Rgb(207, 102, 121),
        timer_separator: Rgb(176, 176, 176),
    }
}

/// The dark theme colours.
pub fn colors() -> (r: ThemeColors)
    ensures
        r == palette(),
{
    ThemeColors {
        primary: Rgb(187, 134, 252),
        secondary: Rgb(3, 218, 198),
        accent: Rgb(207, 102, 121),
        success: Rgb(3, 218, 198),
        warning: Rgb(255, 179, 0),
        error: Rgb(207, 102, 121),
        background: Rgb(18, 18, 18),
        foreground: Rgb(225, 225, 225),
        panel_border: Rgb(55, 55, 55),
        panel_focus_border: Rgb(187, 134, 252),
        todo_todo: Rgb(176, 176, 176),
        todo_in_session: Rgb(255, 179, 0),
        todo_completed: Rgb(3, 218, 198),
        tag_color: Rgb(3, 218, 198),
        session_title: Rgb(187, 134, 252),
        timer_digit: Rgb(207, 102, 121),
        timer_separator: Rgb(176, 176, 176),
    }
}

} // verus!
