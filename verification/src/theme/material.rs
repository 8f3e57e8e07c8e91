//! The material palette: Material Design colours on a dark blue-grey background.
use vstd::prelude::*;
use super::{Rgb, ThemeColors};

verus! {

/// The material palette.
pub open spec fn palette() -> ThemeColors {
    ThemeColors {
        primary: Rgb(66, 165, 245),
        secondary: Rgb(102, 187, 106),
        accent: Rgb(171, 71, 188),
        success: Rgb(102, 187, 106),
        warning: Rgb(255, 167, 38),
        error: Rgb(239, 83, 80),
        background: Rgb(38, 50, 56),
        foreground: Rgb(236, 239, 241),
        panel_border: Rgb(69, 90, 100),
        panel_focus_border: Rgb(66, 165, 245),
        todo_todo: Rgb(144, 164, 174),
        todo_in_session: Rgb(255, 167, 38),
        todo_completed: Rgb(102, 187, 106),
        tag_color: Rgb(41, 182, 246),
        session_title: Rgb(66, 165, 245),
        timer_digit: Rgb(239, 83, 80),
        timer_separator: Rgb(144, 164, 174),
    }
}

/// The material theme colours.
pub fn colors() -> (r: ThemeColors)
    ensures
        r == palette(),
{
    ThemeColors {
        primary: Rgb(66, 165, 245),
        secondary: Rgb(102, 187, 106),
        accent: Rgb(171, 71, 188),
        success: Rgb(102, 187, 106),
        warning: Rgb(255, 167, 38),
        error: Rgb(239, 83, 80),
        background: Rgb(38, 50, 56),
        foreground: Rgb(236, 239, 241),
        panel_border: Rgb(69, 90, 100),
        panel_focus_border: Rgb(66, 165, 245),
        todo_todo: Rgb(144, 164, 174),
        todo_in_session: Rgb(255, 167, 38),
        todo_completed: Rgb(102, 187, 106),
        tag_color: Rgb(41, 182, 246),
        session_title: Rgb(66, 165, 245),
        timer_digit: Rgb(239, 83, 80),
        timer_separator: Rgb(144, 164, 174),
    }
}

} // verus!
