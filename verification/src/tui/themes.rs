//! Choice of the theme by its configured name.
use vstd::prelude::*;
use crate::text::str_eq;
use crate::theme::Theme;

verus! {

/// The theme configured by `name`; "auto", no name, or an unknown name give
/// the `detected` theme.
pub open spec fn theme_for_name(name: Option<Seq<char>>, detected: Theme) -> Theme {
    match name {
        Some(n) => if n == "onedark"@ {
            Theme::OneDark
        } else if n == "material"@ {
            Theme::Material
        } else if n == "light"@ {
            Theme::Light
        } else if n == "dark"@ {
            Theme::Dark
        } else {
            detected
        },
        None => detected,
    }
}

/// Loads a theme by name, falling back to the `detected` one.
pub fn load_theme(theme_name: Option<&str>, detected: Theme) -> (r: Theme)
    ensures
        r == theme_for_name(
            match theme_name {
                Some(n) => Some(n@),
                None => None,
            },
            detected,
        ),
{
    match theme_name {
        Some(n) => if str_eq(n, "onedark") {
            Theme::OneDark
        } else if str_eq(n, "material") {
            Theme::Material
        } else if str_eq(n, "light") {
            Theme::Light
        } else if str_eq(n, "dark") {
            Theme::Dark
        } else {
            detected
        },
        None => detected,
    }
}

} // verus!
