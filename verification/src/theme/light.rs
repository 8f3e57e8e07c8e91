//! The light palette: Dark text on a light background.
use vstd::prelude::*;
use super::{Rgb, ThemeColors};

verus! {

/// The light palette.
pub open spec fn palette() -> ThemeColors {
    ThemeColors {
        primary: Rgb(2, 119, 189),
        secondary: Rgb(0, 137, 123),
        accent: Rgb(123, 31, 162),
        success: Rgb(56, 142, 60),
        warning: Rgb(245, 127, 0),
        error: Rgb(198, 40, 40),
        background: Rgb(250, 250, 250),
        foreground: Rgb(33, 33, 33),
        panel_border: Rgb(189, 189, 189),
        panel_focus_border: Rgb(2, 119, 189),
        todo_todo: Rgb(97, 97, 97),
        todo_in_session: Rgb(245, 127, 0),
        todo_completed: Rgb(56, 142, 60),
        tag_color: Rgb(2, 136, 209),
        session_title: Rgb(2, 119, 189),
        timer_digit: Rgb(198, 40, 40),
        timer_separator: Rgb(97, 97, 97),
    }
}

/// The light theme colours.
pub fn colors() -> (r: ThemeColors)
    ensures
        r == palette(),
{
    ThemeColors {
        primary: Rgb(2, 119, 189),
        secondary: Rgb(0, 137, 123),
        accent: Rgb(123, 31, 162),
        success: Rgb(56, 142, 60),
        warning: Rgb(245, 127, 0),
        error: Rgb(198, 40, 40),
        background: Rgb(250, 250, 250),
        foreground: Rgb(33, 33, 33),
        panel_border: Rgb(189, 189, 189),
        panel_focus_border: Rgb(2, 119, 189),
        todo_todo: Rgb(97, 97, 97),
        todo_in_session: Rgb(245, 127, 0),
        todo_completed: Rgb(56, 142, 60),
        tag_color: Rgb(2, 136, 209),
        session_title: Rgb(2, 119, 189),
        timer_digit: Rgb(198, 40, 40),
        timer_separator: Rgb(97, 97, 97),
    }
}

} // verus!
