//! `focus config get|set`: reading and changing the saved settings.
use vstd::prelude::*;
use crate::config::AppConfig;
use crate::text::{push_str, str_eq};
use crate::theme::Theme;

verus! {

/// The lower-case form of `s` as `str::to_lowercase` gives it.
pub uninterp spec fn lowercase(s: Seq<char>) -> Seq<char>;

/// Calls `str::to_lowercase`. Claimed: the result depends on the text alone
/// (named `lowercase`); Unicode case mapping is not restated here.
#[verifier::external_body]
pub(crate) fn to_lower(s: &str) -> (r: String)
    ensures
        r@ == lowercase(s@),
{
    s.to_lowercase()
}

/// `c` with ASCII upper-case letters mapped to lower case.
pub open spec fn ascii_lower(c: char) -> char {
    if 'A' <= c <= 'Z' {
        ((c as u32) + 32) as char
    } else {
        c
    }
}

/// Whether `a` and `b` are equal ignoring ASCII case.
pub open spec fn eq_ignore_ascii_case(a: Seq<char>, b: Seq<char>) -> bool {
    a.len() == b.len() && forall|i: int| 0 <= i < a.len() ==> ascii_lower(#[trigger] a[i]) == ascii_lower(b[i])
}

fn lower_char(c: char) -> (r: char)
    ensures
        r == ascii_lower(c),
{
    if 'A' <= c && c <= 'Z' {
        let b: u8 = (c as u32) as u8;
        (b + 32) as char
    } else {
        c
    }
}

/// Compares two strings ignoring ASCII case.
pub fn equals_ignore_ascii_case(a: &str, b: &str) -> (r: bool)
    ensures
        r == eq_ignore_ascii_case(a@, b@),
{
    let x = crate::text::chars_of(a);
    let y = crate::text::chars_of(b);
    if x.len() != y.len() {
        return false;
    }
    let mut i: usize = 0;
    while i < x.len()
        invariant
            i <= x@.len(),
            x@ == a@,
            y@ == b@,
            x@.len() == y@.len(),
            forall|k: int| 0 <= k < i ==> ascii_lower(#[trigger] a@[k]) == ascii_lower(b@[k]),
        decreases x@.len() - i,
    {
        if lower_char(x[i]) != lower_char(y[i]) {
            return false;
        }
        i = i + 1;
    }
    true
}

/// The theme a (lower-cased) name designates.
pub open spec fn theme_named(n: Seq<char>) -> Option<Theme> {
    if n == "onedark"@ {
        Some(Theme::OneDark)
    } else if n == "material"@ {
        Some(Theme::Material)
    } else if n == "light"@ {
        Some(Theme::Light)
    } else if n == "dark"@ {
        Some(Theme::Dark)
    } else {
        None
    }
}

impl Theme {
    /// The theme named `name`, in any letter case.
    pub fn from_name(name: &str) -> (r: Option<Theme>)
        ensures
            r == theme_named(lowercase(name@)),
    {
        let l = to_lower(name);
        let s = l.as_str();
        if str_eq(s, "onedark") {
            Some(Theme::OneDark)
        } else if str_eq(s, "material") {
            Some(Theme::Material)
        } else if str_eq(s, "light") {
            Some(Theme::Light)
        } else if str_eq(s, "dark") {
            Some(Theme::Dark)
        } else {
            None
        }
    }
}

/// The error for a key other than `theme` and `vim-mode`.
pub open spec fn unknown_key(key: Seq<char>) -> Seq<char> {
    "Unknown config key '"@ + key + "'. Valid keys: theme, vim-mode"@
}

fn unknown_key_text(key: &str) -> (r: String)
    ensures
        r@ == unknown_key(key@),
{
    let mut s = String::new();
    push_str(&mut s, "Unknown config key '");
    push_str(&mut s, key);
    push_str(&mut s, "'. Valid keys: theme, vim-mode");
    s
}

/// The line `focus config get <key>` prints, or the error for an unknown key.
pub fn config_get(cfg: &AppConfig, key: &str) -> (r: Result<String, String>)
    ensures
        key@ == "theme"@ ==> (r matches Ok(l) && l@ == "theme = "@ + match cfg.theme {
            Some(t) => t@,
            None => "auto"@,
        }),
        key@ == "vim-mode"@ ==> (r matches Ok(l) && l@ == "vim-mode = "@ + if cfg.vim_mode {
            "on"@
        } else {
            "off"@
        }),
        key@ != "theme"@ && key@ != "vim-mode"@ ==> (r matches Err(e) && e@ == unknown_key(key@)),
{
    proof {
        reveal_strlit("theme");
        reveal_strlit("vim-mode");
        assert("theme"@.len() == 5);
        assert("vim-mode"@.len() == 8);
        assert("theme"@ != "vim-mode"@);
    }
    let mut s = String::new();
    if str_eq(key, "theme") {
        push_str(&mut s, "theme = ");
        match &cfg.theme {
            Some(t) => push_str(&mut s, t.as_str()),
            None => push_str(&mut s, "auto"),
        }
        Ok(s)
    } else if str_eq(key, "vim-mode") {
        push_str(&mut s, "vim-mode = ");
        push_str(
            &mut s,
            if cfg.vim_mode {
                "on"
            } else {
                "off"
            },
        );
        Ok(s)
    } else {
        Err(unknown_key_text(key))
    }
}

/// The value `value` gives vim mode, if it is one of the accepted words.
pub open spec fn vim_value(v: Seq<char>) -> Option<bool> {
    if v == "on"@ || v == "true"@ || v == "1"@ || v == "yes"@ {
        Some(true)
    } else if v == "off"@ || v == "false"@ || v == "0"@ || v == "no"@ {
        Some(false)
    } else {
        None
    }
}

/// Applies `focus config set <key> <value>` to `cfg`: the confirmation on
/// success, the error (with `cfg` unchanged) otherwise.
pub fn config_set(cfg: &mut AppConfig, key: &str, value: &str) -> (r: Result<String, String>)
    ensures
        r is Err ==> *final(cfg) == *old(cfg),
        key@ == "theme"@ ==> if eq_ignore_ascii_case(value@, "auto"@) {
            final(cfg).theme is None && final(cfg).vim_mode == old(cfg).vim_mode
                && final(cfg).keyboard == old(cfg).keyboard
                && (r matches Ok(m) && m@ == "Theme set to auto (system detection)"@)
        } else if theme_named(lowercase(value@)) is Some {
            (final(cfg).theme matches Some(t) && t@ == lowercase(value@)) && final(cfg).vim_mode
                == old(cfg).vim_mode && final(cfg).keyboard == old(cfg).keyboard && (r matches Ok(
                m,
            ) && m@ == "Theme set to '"@ + lowercase(value@) + "'"@)
        } else {
            r matches Err(e) && e@ == "Unknown theme '"@ + value@
                + "'. Valid themes: onedark, material, light, dark, auto"@
        },
        key@ == "vim-mode"@ ==> match vim_value(lowercase(value@)) {
            Some(on) => final(cfg).vim_mode == on && final(cfg).theme == old(cfg).theme
                && final(cfg).keyboard == old(cfg).keyboard && (r matches Ok(m) && m@ == if on {
                "Vim mode enabled"@
            } else {
                "Vim mode disabled"@
            }),
            None => r matches Err(e) && e@ == "Invalid value for vim-mode. Use: on/off"@,
        },
        key@ != "theme"@ && key@ != "vim-mode"@ ==> (r matches Err(e) && e@ == unknown_key(key@)),
{
    proof {
        reveal_strlit("theme");
        reveal_strlit("vim-mode");
        assert("theme"@.len() == 5);
        assert("vim-mode"@.len() == 8);
        assert("theme"@ != "vim-mode"@);
    }
    if str_eq(key, "theme") {
        if equals_ignore_ascii_case(value, "auto") {
            cfg.theme = None;
            return Ok("Theme set to auto (system detection)".to_owned());
        }
        if Theme::from_name(value).is_some() {
            let l = to_lower(value);
            let mut m = String::new();
            push_str(&mut m, "Theme set to '");
            push_str(&mut m, l.as_str());
            push_str(&mut m, "'");
            cfg.theme = Some(l);
            return Ok(m);
        }
        let mut e = String::new();
        push_str(&mut e, "Unknown theme '");
        push_str(&mut e, value);
        push_str(&mut e, "'. Valid themes: onedark, material, light, dark, auto");
        Err(e)
    } else if str_eq(key, "vim-mode") {
        let l = to_lower(value);
        let v = l.as_str();
        let on = if str_eq(v, "on") || str_eq(v, "true") || str_eq(v, "1") || str_eq(v, "yes") {
            true
        } else if str_eq(v, "off") || str_eq(v, "false") || str_eq(v, "0") || str_eq(v, "no") {
            false
        } else {
            return Err("Invalid value for vim-mode. Use: on/off".to_owned());
        };
        cfg.vim_mode = on;
        Ok(
            if on {
                "Vim mode enabled".to_owned()
            } else {
                "Vim mode disabled".to_owned()
            },
        )
    } else {
        Err(unknown_key_text(key))
    }
}

} // verus!
