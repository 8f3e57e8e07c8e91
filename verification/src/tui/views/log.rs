//! The session log view.
use vstd::prelude::*;

verus! {

/// A session's status as shown in the log: "done" once it has an end time,
/// "active" before.
pub fn format_status(end_time: bool) -> (r: &'static str)
    ensures
        r@ == (if end_time {
            "done"@
        } else {
            "active"@
        }),
{
    if end_time {
        "done"
    } else {
        "active"
    }
}

/// Columns the log table's fixed columns and separators take: date 17, mode 8,
/// duration 10, status 6, tag 8, and 5 separators.
pub open spec fn fixed_columns() -> nat {
    54
}

/// Minimum width of the task column, which takes the space the fixed columns
/// leave: at least 10 columns.
pub fn task_column_width(area_width: u16) -> (r: u16)
    ensures
        r == (if area_width >= fixed_columns() + 10 {
            (area_width - fixed_columns()) as u16
        } else {
            10u16
        }),
{
    if area_width >= 64 {
        area_width - 54
    } else {
        10
    }
}

} // verus!
