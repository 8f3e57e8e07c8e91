//! Pomodoro durations: defaults, overrides from the environment and the
//! command line, and range validation.
use vstd::prelude::*;
use crate::error::FocusError;
use crate::text::{parse_u32, parse_u32_spec};

verus! {

#[derive(Debug, Clone, Copy)]
pub struct PomodoroConfig {
    pub work_duration_mins: u32,
    pub break_duration_mins: u32,
    pub long_break_duration_mins: u32,
    pub long_break_after: u32,
}

impl Default for PomodoroConfig {
    fn default() -> (r: Self)
        ensures
            r.work_duration_mins == 25,
            r.break_duration_mins == 5,
            r.long_break_duration_mins == 15,
            r.long_break_after == 4,
    {
        PomodoroConfig {
            work_duration_mins: 25,
            break_duration_mins: 5,
            long_break_duration_mins: 15,
            long_break_after: 4,
        }
    }
}

/// Raw values of the `FOCUS_POMODORO_*` environment variables (None when unset).
#[derive(Debug, Clone)]
pub struct PomodoroEnv {
    pub work: Option<String>,
    pub break_mins: Option<String>,
    pub long_break: Option<String>,
    pub long_break_after: Option<String>,
}

/// The value an optional override leaves in a field.
pub open spec fn overridden(current: u32, flag: Option<u32>) -> u32 {
    match flag {
        Some(v) => v,
        None => current,
    }
}

/// The value an environment variable leaves in a field: a variable that is set
/// and parses as a `u32` wins, anything else keeps the current value.
pub open spec fn env_overridden(current: u32, var: Option<String>) -> u32 {
    match var {
        Some(v) => overridden(current, parse_u32_spec(v@)),
        None => current,
    }
}

/// The first range violation of a configuration, checked in the order
/// work (1–120), break (1–60), long break (1–60).
pub open spec fn validation_error(c: PomodoroConfig) -> Option<(Seq<char>, u32, u32, u32)> {
    if c.work_duration_mins < 1 || c.work_duration_mins > 120 {
        Some(("work"@, c.work_duration_mins, 1u32, 120u32))
    } else if c.break_duration_mins < 1 || c.break_duration_mins > 60 {
        Some(("break"@, c.break_duration_mins, 1u32, 60u32))
    } else if c.long_break_duration_mins < 1 || c.long_break_duration_mins > 60 {
        Some(("long-break"@, c.long_break_duration_mins, 1u32, 60u32))
    } else {
        None
    }
}

/// Whether `e` is the range error `(field, value, min, max)`.
pub open spec fn is_duration_error(e: FocusError, v: (Seq<char>, u32, u32, u32)) -> bool {
    match e {
        FocusError::InvalidPomoDuration { field, value, min, max } => field@ == v.0 && value
            == v.1 && min == v.2 && max == v.3,
        _ => false,
    }
}

/// Whether the durations are within the accepted ranges.
pub open spec fn config_valid(c: PomodoroConfig) -> bool {
    validation_error(c) is None
}

fn env_value(current: u32, var: &Option<String>) -> (r: u32)
    ensures
        r == env_overridden(current, *var),
{
    match var {
        Some(v) => match parse_u32(v.as_str()) {
            Some(n) => n,
            None => current,
        },
        None => current,
    }
}

fn duration_error(field: &str, value: u32, min: u32, max: u32) -> (e: FocusError)
    ensures
        is_duration_error(e, (field@, value, min, max)),
{
    FocusError::InvalidPomoDuration { field: field.to_owned(), value, min, max }
}

impl PomodoroConfig {
    /// Override fields from the `FOCUS_POMODORO_*` variables; values that are
    /// unset or not a valid `u32` keep the current setting.
    pub fn apply_env(&mut self, env: &PomodoroEnv)
        ensures
            final(self).work_duration_mins == env_overridden(
                old(self).work_duration_mins,
                env.work,
            ),
            final(self).break_duration_mins == env_overridden(
                old(self).break_duration_mins,
                env.break_mins,
            ),
            final(self).long_break_duration_mins == env_overridden(
                old(self).long_break_duration_mins,
                env.long_break,
            ),
            final(self).long_break_after == env_overridden(
                old(self).long_break_after,
                env.long_break_after,
            ),
    {
        self.work_duration_mins = env_value(self.work_duration_mins, &env.work);
        self.break_duration_mins = env_value(self.break_duration_mins, &env.break_mins);
        self.long_break_duration_mins = env_value(self.long_break_duration_mins, &env.long_break);
        self.long_break_after = env_value(self.long_break_after, &env.long_break_after);
    }

    /// Override fields from CLI flag values (None = not provided, keep current).
    pub fn apply_cli_flags(
        &mut self,
        work: Option<u32>,
        break_mins: Option<u32>,
        long_break: Option<u32>,
        after: Option<u32>,
    )
        ensures
            final(self).work_duration_mins == overridden(old(self).work_duration_mins, work),
            final(self).break_duration_mins == overridden(old(self).break_duration_mins, break_mins),
            final(self).long_break_duration_mins == overridden(
                old(self).long_break_duration_mins,
                long_break,
            ),
            final(self).long_break_after == overridden(old(self).long_break_after, after),
    {
        if let Some(v) = work {
            self.work_duration_mins = v;
        }
        if let Some(v) = break_mins {
            self.break_duration_mins = v;
        }
        if let Some(v) = long_break {
            self.long_break_duration_mins = v;
        }
        if let Some(v) = after {
            self.long_break_after = v;
        }
    }

    /// Validate duration ranges, reporting the first field out of range.
    pub fn validate(&self) -> (r: Result<(), FocusError>)
        ensures
            r is Ok <==> config_valid(*self),
            r matches Err(e) ==> is_duration_error(e, validation_error(*self)->0),
    {
        if self.work_duration_mins < 1 || self.work_duration_mins > 120 {
            return Err(duration_error("work", self.work_duration_mins, 1, 120));
        }
        if self.break_duration_mins < 1 || self.break_duration_mins > 60 {
            return Err(duration_error("break", self.break_duration_mins, 1, 60));
        }
        if self.long_break_duration_mins < 1 || self.long_break_duration_mins > 60 {
            return Err(duration_error("long-break", self.long_break_duration_mins, 1, 60));
        }
        Ok(())
    }

    /// Build a fully-resolved config: file values, then environment, then CLI
    /// flags, then validation.  `file` is what the config file held (or the
    /// defaults when it is missing or malformed).
    pub fn resolve(
        file: PomodoroConfig,
        env: &PomodoroEnv,
        work: Option<u32>,
        break_mins: Option<u32>,
        long_break: Option<u32>,
        after: Option<u32>,
    ) -> (r: Result<PomodoroConfig, FocusError>)
        ensures
            ({
                let merged = PomodoroConfig {
                    work_duration_mins: overridden(
                        env_overridden(file.work_duration_mins, env.work),
                        work,
                    ),
                    break_duration_mins: overridden(
                        env_overridden(file.break_duration_mins, env.break_mins),
                        break_mins,
                    ),
                    long_break_duration_mins: overridden(
                        env_overridden(file.long_break_duration_mins, env.long_break),
                        long_break,
                    ),
                    long_break_after: overridden(
                        env_overridden(file.long_break_after, env.long_break_after),
                        after,
                    ),
                };
                &&& r is Ok <==> config_valid(merged)
                &&& r matches Ok(c) ==> c == merged
                &&& r matches Err(e) ==> is_duration_error(e, validation_error(merged)->0)
            }),
    {
        let mut cfg = file;
        cfg.apply_env(env);
        cfg.apply_cli_flags(work, break_mins, long_break, after);
        match cfg.validate() {
            Ok(()) => Ok(cfg),
            Err(e) => Err(e),
        }
    }
}

} // verus!
