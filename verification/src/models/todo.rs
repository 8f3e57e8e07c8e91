//! User-defined tasks that sessions can be linked to.
use vstd::prelude::*;
use crate::text::str_eq;
use crate::theme::{Rgb, ThemeColors};

verus! {

/// A TODO item; times are Unix seconds.
#[derive(Debug, Clone)]
pub struct Todo {
    pub id: u64,
    pub title: String,
    /// "active" or "completed".
    pub status: String,
    pub created_at: i64,
    pub completed_at: Option<i64>,
}

/// The colour for a TODO status: the completed colour for "completed", the
/// open colour for anything else.
pub open spec fn status_color(status: Seq<char>, colors: ThemeColors) -> Rgb {
    if status == "completed"@ {
        colors.todo_completed
    } else {
        colors.todo_todo
    }
}

impl Todo {
    /// Whether the TODO is open.
    pub fn is_active(&self) -> (r: bool)
        ensures
            r == (self.status@ == "active"@),
    {
        str_eq(self.status.as_str(), "active")
    }

    /// Whether the TODO is done.
    pub fn is_completed(&self) -> (r: bool)
        ensures
            r == (self.status@ == "completed"@),
    {
        str_eq(self.status.as_str(), "completed")
    }

    /// The theme colour for this TODO's status.
    pub fn get_color(&self, theme_colors: &ThemeColors) -> (r: Rgb)
        ensures
            r == status_color(self.status@, *theme_colors),
    {
        if self.is_completed() {
            theme_colors.todo_completed
        } else {
            theme_colors.todo_todo
        }
    }
}

/// The theme colour for a TODO status.
pub fn get_color_for_state(status: &str, theme_colors: &ThemeColors) -> (r: Rgb)
    ensures
        r == status_color(status@, *theme_colors),
{
    if str_eq(status, "completed") {
        theme_colors.todo_completed
    } else {
        theme_colors.todo_todo
    }
}

/// A title is accepted when it is not empty and its UTF-8 encoding takes at
/// most 256 bytes.
pub fn title_is_valid(title: &str) -> (r: bool)
    ensures
        r == (title@.len() > 0 && title.len() <= 256),
{
    !title.is_empty() && title.len() <= 256
}

/// The statuses a TODO can be set to: "active" and "completed".
pub fn status_is_valid(status: &str) -> (r: bool)
    ensures
        r == (status@ == "active"@ || status@ == "completed"@),
{
    str_eq(status, "active") || str_eq(status, "completed")
}

} // verus!
