//! Calendar days and wall-clock texts, as `chrono` computes them.
//!
//! A day is represented by its day number: the count of days since the start
//! of the proleptic Gregorian calendar, 0001-01-01 being day 1. Consecutive
//! calendar days have consecutive numbers.
use vstd::prelude::*;
use chrono::Datelike;

verus! {

/// The day number of a `YYYY-MM-DD` text, or None where `chrono` parses no date
/// from it.
pub uninterp spec fn iso_day(s: Seq<char>) -> Option<i32>;

/// Parses `s` with `chrono::NaiveDate::parse_from_str(s, "%Y-%m-%d")` and takes
/// `Datelike::num_days_from_ce` of the date. Claimed: the result depends on the
/// text alone; it is named `iso_day`, and nothing more is said of it.
#[verifier::external_body]
pub(crate) fn parse_iso_day(s: &str) -> (r: Option<i32>)
    ensures
        r == iso_day(s@),
{
    match chrono::NaiveDate::parse_from_str(s, "%Y-%m-%d") {
        Ok(d) => Some(d.num_days_from_ce()),
        Err(_) => None,
    }
}

/// The day number of today's local date, read through `chrono::Local::now`.
/// Nothing is claimed of the value: it depends on the clock and the time zone.
#[verifier::external_body]
pub(crate) fn local_today() -> i32 {
    chrono::Local::now().date_naive().num_days_from_ce()
}

/// The day before day `d`, or None where `d` is the first day `chrono`
/// represents (or no day it represents).
pub uninterp spec fn day_before(d: i32) -> Option<i32>;

/// Calls `chrono::NaiveDate::from_num_days_from_ce_opt(d)` and `pred_opt` of
/// the date. Claimed: the result is a function of `d` (named `day_before`), and
/// a day that has a predecessor has the number `d - 1` before it.
#[verifier::external_body]
pub(crate) fn pred_day(d: i32) -> (r: Option<i32>)
    ensures
        r == day_before(d),
        r matches Some(p) ==> p == d - 1,
{
    match chrono::NaiveDate::from_num_days_from_ce_opt(d) {
        Some(date) => match date.pred_opt() {
            Some(p) => Some(p.num_days_from_ce()),
            None => None,
        },
        None => None,
    }
}

/// The format strings times are written with; each is made of specifiers
/// `chrono` knows (with another, formatting would fail and panic).
pub open spec fn known_format(fmt: Seq<char>) -> bool {
    ||| fmt == "%Y-%m-%d"@
    ||| fmt == "%H:%M"@
    ||| fmt == "%Y-%m-%d %H:%M"@
    ||| fmt == "%Y-%m-%dT%H:%M:%SZ"@
}

/// A Unix time (seconds) in UTC, written with the `chrono` format string
/// `fmt`, or None where the time lies outside the range of dates `chrono`
/// represents.
pub uninterp spec fn utc_text(ts: i64, fmt: Seq<char>) -> Option<Seq<char>>;

/// Formats `chrono::DateTime::from_timestamp(ts, 0)` with the format string
/// `fmt`. Claimed: the result is a function of `ts` and `fmt` (named
/// `utc_text`), and the Unix epoch itself is within range.
#[verifier::external_body]
pub(crate) fn format_utc(ts: i64, fmt: &str) -> (r: Option<String>)
    requires
        known_format(fmt@),
    ensures
        utc_text(ts, fmt@) == (match r {
            Some(s) => Some(s@),
            None => None::<Seq<char>>,
        }),
        ts == 0 ==> r is Some,
{
    match chrono::DateTime::from_timestamp(ts, 0) {
        Some(t) => Some(t.format(fmt).to_string()),
        None => None,
    }
}

} // verus!
