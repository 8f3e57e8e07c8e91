//! The onedark palette: Atom's OneDark scheme: high contrast on a dark background.
use vstd::prelude::*;
use super::{Rgb, ThemeColors};

verus! {

/// The onedark palette.
pub open spec fn palette() -> ThemeColors {
    ThemeColors {
        primary: Rgb(198, 120, 221),
        secondary: Rgb(97, 175, 239),
        accent: Rgb(86, 182, 194),
        success: Rgb(152, 195, 121),
        warning: Rgb(229, 192, 123),
        error: Rgb(224, 108, 117),
        background: Rgb(40, 44, 52),
        foreground: Rgb(171, 178, 191),
        panel_border: Rgb(62, 68, 82),
        panel_focus_border: Rgb(97, 175, 239),
        todo_todo: Rgb(171, 178, 191),
        todo_in_session: Rgb(229, 192, 123),
        todo_completed: Rgb(152, 195, 121),
        tag_color: Rgb(86, 182, 194),
        session_title: Rgb(198, 120, 221),
        timer_digit: Rgb(224, 108, 117),
        timer_separator: Rgb(171, 178, 191),
    }
}

/// The onedark theme colours.
pub fn colors() -> (r: ThemeColors)
    ensures
        r == palette(),
{
    ThemeColors {
        primary: Rgb(198, 120, 221),
        secondary: Rgb(97, 175, 239),
        accent: Rgb(86, 182, 194),
        success: Rgb(152, 195, 121),
        warning: Rgb(229, 192, 123),
        error: Rgb(224, 108, 117),
        background: Rgb(40, 44, 52),
        foreground: Rgb(171, 178, 191),
        panel_border: Rgb(62, 68, 82),
        panel_focus_border: Rgb(97, 175, 239),
        todo_todo: Rgb(171, 178, 191),
        todo_in_session: Rgb(229, 192, 123),
        todo_completed: Rgb(152, 195, 121),
        tag_color: Rgb(86, 182, 194),
        session_title: Rgb(198, 120, 221),
        timer_digit: Rgb(224, 108, 117),
        timer_separator: Rgb(171, 178, 191),
    }
}

} // verus!
