//! The capture date of a file and its two outside operations: parsing the
//! normalized date text and rendering the date through a folder-name mask.

use vstd::prelude::*;
use crate::text::date_portion;
use crate::text::date_portion_spec;
use std::fmt::Write;

verus! {

/// A calendar date extracted from a file's metadata.  Only the calendar
/// day is kept: the time of day is discarded during normalization.
#[derive(Clone, Copy, PartialEq, Eq, Structural, Debug)]
pub struct CaptureDate {
    pub year: i32,
    pub month: u8,
    pub day: u8,
}

impl CaptureDate {
    /// A capture date carries a month and a day in calendar range.
    pub open spec fn wf(self) -> bool {
        1 <= self.month <= 12 && 1 <= self.day <= 31
    }
}

/// What `chrono::NaiveDate::parse_from_str` makes of `s` against the
/// pattern `%Y-%m-%d`: the year, month and day when `s` parses as such a
/// date, `None` when it does not.
pub uninterp spec fn chrono_parse_ymd(s: Seq<char>) -> Option<(int, int, int)>;

/// What `chrono::NaiveDate::format` renders for the given calendar date
/// through the strftime-style mask, or `None` when the date is no valid
/// calendar date or the mask fails to format.
pub uninterp spec fn chrono_format_ymd(y: int, m: int, d: int, mask: Seq<char>) -> Option<Seq<char>>;

/// Relies on `chrono::NaiveDate::parse_from_str` with the pattern
/// `%Y-%m-%d` to parse the date text, and on `NaiveDate::year`, `month`
/// and `day` to read the parsed date.  A parsed `NaiveDate` is a valid
/// calendar date, so its month is in 1..=12 and its day in 1..=31.
#[verifier::external_body]
pub(crate) fn parse_ymd(s: &str) -> (r: Option<CaptureDate>)
    ensures
        match r {
            Some(d) => chrono_parse_ymd(s@) == Some((d.year as int, d.month as int, d.day as int))
                && d.wf(),
            None => chrono_parse_ymd(s@) is None,
        },
{
    match chrono::NaiveDate::parse_from_str(s, "%Y-%m-%d") {
        Ok(d) => Some(
            CaptureDate {
                year: chrono::Datelike::year(&d),
                month: chrono::Datelike::month(&d) as u8,
                day: chrono::Datelike::day(&d) as u8,
            },
        ),
        Err(_) => None,
    }
}

/// Relies on `chrono::NaiveDate::from_ymd_opt` to build the date and on
/// `NaiveDate::format` to render it through the mask.  Formatting is
/// written through `write!`, whose error stands for a mask that chrono
/// cannot format; `None` also covers a date that chrono cannot represent.
#[verifier::external_body]
pub(crate) fn format_ymd(date: &CaptureDate, mask: &str) -> (r: Option<String>)
    ensures
        match r {
            Some(s) => chrono_format_ymd(
                date.year as int,
                date.month as int,
                date.day as int,
                mask@,
            ) == Some(s@),
            None => chrono_format_ymd(
                date.year as int,
                date.month as int,
                date.day as int,
                mask@,
            ) is None,
        },
{
    match chrono::NaiveDate::from_ymd_opt(date.year, date.month as u32, date.day as u32) {
        None => None,
        Some(d) => {
            let mut s = String::new();
            match write!(&mut s, "{}", d.format(mask)) {
                Ok(()) => Some(s),
                Err(_) => None,
            }
        },
    }
}

/// The date that a raw capture-date text yields: its date portion parsed
/// as `%Y-%m-%d`.
pub open spec fn date_of_text(t: Seq<char>) -> Option<(int, int, int)> {
    chrono_parse_ymd(date_portion_spec(t))
}

/// Extracts the capture date from the raw metadata text: the part before
/// the first space, trimmed, parsed strictly as a `%Y-%m-%d` date.
pub fn date_from_text(t: &str) -> (r: Option<CaptureDate>)
    ensures
        match r {
            Some(d) => date_of_text(t@) == Some((d.year as int, d.month as int, d.day as int))
                && d.wf(),
            None => date_of_text(t@) is None,
        },
{
    let portion = date_portion(t);
    parse_ymd(portion.as_str())
}

} // verus!
