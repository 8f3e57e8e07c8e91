//! Errors reported to the user.
use vstd::prelude::*;
use crate::text::{decimal, push_decimal, push_str};

verus! {

/// Errors of the tracker's commands.
#[derive(Debug, Clone)]
pub enum FocusError {
    NoActiveSession,
    AlreadyRunning { task: String, elapsed: String },
    EmptyTask,
    InvalidLimit,
    InvalidFormat,
    DataFileCorrupted { path: String },
    SessionNotFound { id: i64 },
    InvalidPomoDuration { field: String, value: u32, min: u32, max: u32 },
}

/// Decimal representation of a signed integer.
pub open spec fn signed_decimal(i: int) -> Seq<char> {
    if i < 0 {
        seq!['-'] + decimal((-i) as nat)
    } else {
        decimal(i as nat)
    }
}

/// The message shown for each error.
pub open spec fn error_message(e: FocusError) -> Seq<char> {
    match e {
        FocusError::NoActiveSession => "No active session to stop."@,
        FocusError::AlreadyRunning { task, elapsed } =>
            "Session already running: \""@ + task@ + "\" — elapsed: "@ + elapsed@,
        FocusError::EmptyTask => "Task description cannot be empty."@,
        FocusError::InvalidLimit => "--limit must be a positive integer."@,
        FocusError::InvalidFormat => "--format must be one of: json, markdown."@,
        FocusError::DataFileCorrupted { path } => "Data file is corrupted or unreadable: "@ + path@,
        FocusError::SessionNotFound { id } => "Session #"@ + signed_decimal(id as int)
            + " not found."@,
        FocusError::InvalidPomoDuration { field, value, min, max } => "--"@ + field@
            + " must be between "@ + decimal(min as nat) + " and "@ + decimal(max as nat)
            + " minutes (got "@ + decimal(value as nat) + ")."@,
    }
}

/// Appends the decimal representation of a signed integer.
pub fn push_signed_decimal(s: &mut String, i: i64)
    ensures
        final(s)@ == old(s)@ + signed_decimal(i as int),
{
    if i < 0 {
        s.push('-');
        let mag: u64 = ((-(i + 1)) as u64) + 1;
        push_decimal(s, mag);
        assert(final(s)@ =~= old(s)@ + signed_decimal(i as int));
    } else {
        push_decimal(s, i as u64);
    }
}

impl FocusError {
    /// The user-facing message of this error.
    pub fn message(&self) -> (r: String)
        ensures
            r@ == error_message(*self),
    {
        let mut s = String::new();
        match self {
            FocusError::NoActiveSession => push_str(&mut s, "No active session to stop."),
            FocusError::AlreadyRunning { task, elapsed } => {
                push_str(&mut s, "Session already running: \"");
                push_str(&mut s, task.as_str());
                push_str(&mut s, "\" — elapsed: ");
                push_str(&mut s, elapsed.as_str());
            },
            FocusError::EmptyTask => push_str(&mut s, "Task description cannot be empty."),
            FocusError::InvalidLimit => push_str(&mut s, "--limit must be a positive integer."),
            FocusError::InvalidFormat => push_str(
                &mut s,
                "--format must be one of: json, markdown.",
            ),
            FocusError::DataFileCorrupted { path } => {
                push_str(&mut s, "Data file is corrupted or unreadable: ");
                push_str(&mut s, path.as_str());
            },
            FocusError::SessionNotFound { id } => {
                push_str(&mut s, "Session #");
                push_signed_decimal(&mut s, *id);
                push_str(&mut s, " not found.");
            },
            FocusError::InvalidPomoDuration { field, value, min, max } => {
                push_str(&mut s, "--");
                push_str(&mut s, field.as_str());
                push_str(&mut s, " must be between ");
                push_decimal(&mut s, *min as u64);
                push_str(&mut s, " and ");
                push_decimal(&mut s, *max as u64);
                push_str(&mut s, " minutes (got ");
                push_decimal(&mut s, *value as u64);
                push_str(&mut s, ").");
            },
        }
        assert(s@ =~= error_message(*self));
        s
    }
}

} // verus!
