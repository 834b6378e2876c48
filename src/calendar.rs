//! Calendar days as day numbers, and what the `chrono` crate computes of them.
//!
//! A day is held as its day number in the proleptic Gregorian calendar,
//! counted so that 0001-01-01 is day 1 (chrono's `num_days_from_ce`).

use vstd::prelude::*;
use chrono::Datelike;

verus! {

/// The day number of 0001-01-01.
pub const FIRST_DAY: i32 = 1;

/// The day number of 9999-12-31.
pub const LAST_DAY: i32 = 3_652_059;

/// A day of the years 1 to 9999, whose keys have four-digit years.
pub open spec fn valid_day(day: int) -> bool {
    FIRST_DAY <= day <= LAST_DAY
}

/// The pattern of a day key: `2026-02-14`.
pub const DAY_PATTERN: &'static str = "%Y-%m-%d";

/// The pattern of a week key: the calendar year and the ISO week, `2026-W07`.
pub const WEEK_PATTERN: &'static str = "%Y-W%V";

/// The pattern of a month key: `2026-02`.
pub const MONTH_PATTERN: &'static str = "%Y-%m";

/// The date patterns this library writes days with.
pub open spec fn known_pattern(pattern: Seq<char>) -> bool {
    pattern == DAY_PATTERN@ || pattern == WEEK_PATTERN@ || pattern == MONTH_PATTERN@
}

/// The text of day `day` written with strftime pattern `pattern`.
pub uninterp spec fn date_text(day: int, pattern: Seq<char>) -> Seq<char>;

/// The day number of the first day of the month that holds day `day`.
pub uninterp spec fn month_start_of(day: int) -> int;

/// Relies on chrono's `NaiveDate::from_num_days_from_ce_opt` (a day number
/// in range gives its date) and `NaiveDate::format` (the date written with a
/// strftime pattern; the known patterns hold only valid specifiers).
#[verifier::external_body]
pub(crate) fn format_day(day: i32, pattern: &str) -> (r: String)
    requires
        valid_day(day as int),
        known_pattern(pattern@),
    ensures
        r@ == date_text(day as int, pattern@),
{
    chrono::NaiveDate::from_num_days_from_ce_opt(day).unwrap().format(pattern).to_string()
}

/// Relies on chrono's `Datelike::with_day` with day 1: the first day of the
/// same month, which lies at most 30 days earlier.
#[verifier::external_body]
pub(crate) fn month_start(day: i32) -> (r: i32)
    requires
        valid_day(day as int),
    ensures
        r == month_start_of(day as int),
        r <= day,
        day - r <= 30,
        valid_day(r as int),
{
    chrono::NaiveDate::from_num_days_from_ce_opt(day).unwrap().with_day(1).unwrap().num_days_from_ce()
}

} // verus!
