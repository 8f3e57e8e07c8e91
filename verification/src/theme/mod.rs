//! Colour themes: four fixed palettes and detection of a light terminal.
pub mod dark;
pub mod light;
pub mod material;
pub mod onedark;

use vstd::prelude::*;
use crate::text::{chars_of, parse_u32, parse_u32_spec, string_of_range};

verus! {

/// The available themes.
#[derive(Debug, Clone, Copy, PartialEq, Eq, Structural)]
pub enum Theme {
    OneDark,
    Material,
    Light,
    Dark,
}

/// A 24-bit colour.
#[derive(Debug, Clone, Copy, PartialEq, Eq, Structural)]
pub struct Rgb(pub u8, pub u8, pub u8);

/// The colours of a theme, by role.
#[derive(Debug, Clone, Copy, PartialEq, Eq, Structural)]
pub struct ThemeColors {
    pub primary: Rgb,
    pub secondary: Rgb,
    pub accent: Rgb,
    pub success: Rgb,
    pub warning: Rgb,
    pub error: Rgb,
    pub background: Rgb,
    pub foreground: Rgb,
    pub panel_border: Rgb,
    pub panel_focus_border: Rgb,
    pub todo_todo: Rgb,
    pub todo_in_session: Rgb,
    pub todo_completed: Rgb,
    pub tag_color: Rgb,
    pub session_title: Rgb,
    pub timer_digit: Rgb,
    pub timer_separator: Rgb,
}

/// The palette of each theme.
pub open spec fn palette_of(t: Theme) -> ThemeColors {
    match t {
        Theme::OneDark => onedark::palette(),
        Theme::Material => material::palette(),
        Theme::Light => light::palette(),
        Theme::Dark => dark::palette(),
    }
}

/// Index of the first `;` of `s` at or after `from`, or `s.len()` if none.
pub open spec fn semicolon_from(s: Seq<char>, from: int) -> int
    decreases s.len() - from,
{
    if from >= s.len() {
        s.len() as int
    } else if s[from] == ';' {
        from
    } else {
        semicolon_from(s, from + 1)
    }
}

/// The second `;`-separated field of `s`, if `s` has one.
pub open spec fn second_field(s: Seq<char>) -> Option<Seq<char>> {
    let i = semicolon_from(s, 0);
    if i >= s.len() {
        None
    } else {
        Some(s.subrange(i + 1, semicolon_from(s, i + 1)))
    }
}

/// The theme a `COLORFGBG` value ("foreground;background") suggests: light
/// when the background is one of the bright colours 8–15, dark otherwise or
/// when the value is missing or malformed.
pub open spec fn theme_for_colorfgbg(value: Option<Seq<char>>) -> Theme {
    match value {
        Some(v) => match second_field(v) {
            Some(f) => match parse_u32_spec(f) {
                Some(bg) => if 8 <= bg <= 15 {
                    Theme::Light
                } else {
                    Theme::Dark
                },
                None => Theme::Dark,
            },
            None => Theme::Dark,
        },
        None => Theme::Dark,
    }
}

proof fn lemma_semicolon_from_bounds(s: Seq<char>, from: int)
    requires
        0 <= from,
    ensures
        from <= semicolon_from(s, from) || from > s.len(),
        semicolon_from(s, from) <= s.len(),
    decreases s.len() - from,
{
    if from < s.len() && s[from] != ';' {
        lemma_semicolon_from_bounds(s, from + 1);
    }
}

/// Index of the first `;` of `v` at or after `from`, or its length if none.
fn find_semicolon(v: &Vec<char>, from: usize) -> (r: usize)
    requires
        from <= v@.len(),
    ensures
        r == semicolon_from(v@, from as int),
        from <= r <= v@.len(),
{
    let mut i = from;
    while i < v.len()
        invariant
            from <= i <= v@.len(),
            semicolon_from(v@, i as int) == semicolon_from(v@, from as int),
        decreases v@.len() - i,
    {
        if v[i] == ';' {
            return i;
        }
        i = i + 1;
    }
    i
}

impl Theme {
    /// The colours of this theme.
    pub fn colors(&self) -> (r: ThemeColors)
        ensures
            r == palette_of(*self),
    {
        match self {
            Theme::OneDark => onedark::colors(),
            Theme::Material => material::colors(),
            Theme::Light => light::colors(),
            Theme::Dark => dark::colors(),
        }
    }

    /// The theme a terminal's `COLORFGBG` value suggests (see
    /// `theme_for_colorfgbg`).
    pub fn from_colorfgbg(value: Option<&str>) -> (r: Theme)
        ensures
            r == theme_for_colorfgbg(
                match value {
                    Some(v) => Some(v@),
                    None => None,
                },
            ),
    {
        let v = match value {
            Some(v) => v,
            None => {
                return Theme::Dark;
            },
        };
        let chars = chars_of(v);
        let i = find_semicolon(&chars, 0);
        if i >= chars.len() {
            return Theme::Dark;
        }
        let j = find_semicolon(&chars, i + 1);
        let field = string_of_range(&chars, i + 1, j);
        match parse_u32(field.as_str()) {
            Some(bg) => if 8 <= bg && bg <= 15 {
                Theme::Light
            } else {
                Theme::Dark
            },
            None => Theme::Dark,
        }
    }
}

/// In every theme, tags are coloured differently from session titles.
pub proof fn law_tag_color_distinct(t: Theme)
    ensures
        palette_of(t).tag_color != palette_of(t).session_title,
{
}

/// OneDark is the default theme.
impl Default for Theme {
    fn default() -> (r: Theme)
        ensures
            r == Theme::OneDark,
    {
        Theme::OneDark
    }
}

impl ThemeColors {
    /// Every colour of a theme is defined, so a palette always validates.
    pub fn validate(&self) -> (r: Result<(), String>)
        ensures
            r is Ok,
    {
        Ok(())
    }
}

} // verus!
