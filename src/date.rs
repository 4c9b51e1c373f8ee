use chrono::Datelike;
use vstd::prelude::*;

verus! {

/// A calendar day: proleptic Gregorian year, month and day of month.
#[derive(Clone, Copy, Debug, PartialEq, Eq, Structural)]
pub struct CalendarDate {
    pub year: i32,
    pub month: u32,
    pub day: u32,
}

impl CalendarDate {
    /// `self` falls on an earlier day than `other`.
    pub open spec fn spec_before(self, other: CalendarDate) -> bool {
        ||| self.year < other.year
        ||| self.year == other.year && self.month < other.month
        ||| self.year == other.year && self.month == other.month && self.day < other.day
    }

    pub fn before(&self, other: &CalendarDate) -> (r: bool)
        ensures
            r == self.spec_before(*other),
    {
        self.year < other.year || (self.year == other.year && (self.month < other.month || (
        self.month == other.month && self.day < other.day)))
    }
}

/// The day that chrono reads from an archive timestamp such as
/// `Wed Oct 10 20:19:24 +0000 2018` (format `%a %b %d %H:%M:%S %z %Y`).
pub uninterp spec fn archive_date_of(s: Seq<char>) -> Option<(i32, u32, u32)>;

/// The day that chrono reads from a bare `%Y-%m-%d` date.
pub uninterp spec fn iso_date_of(s: Seq<char>) -> Option<(i32, u32, u32)>;

pub open spec fn date_of_parts(p: Option<(i32, u32, u32)>) -> Option<CalendarDate> {
    match p {
        Some((y, m, d)) => Some(CalendarDate { year: y, month: m, day: d }),
        None => None,
    }
}

/// Relies on chrono's `NaiveDate::parse_from_str` with the archive's timestamp
/// format, and on `Datelike` to read the parsed day; the result depends on the
/// text alone.
#[verifier::external_body]
fn chrono_archive_date(s: &str) -> (r: Option<(i32, u32, u32)>)
    ensures
        r == archive_date_of(s@),
{
    match chrono::NaiveDate::parse_from_str(s, "%a %b %d %H:%M:%S %z %Y") {
        Ok(d) => Some((d.year(), d.month(), d.day())),
        Err(_) => None,
    }
}

/// Relies on chrono's `NaiveDate::parse_from_str` with the format `%Y-%m-%d`,
/// and on `Datelike` to read the parsed day; the result depends on the text
/// alone.
#[verifier::external_body]
fn chrono_iso_date(s: &str) -> (r: Option<(i32, u32, u32)>)
    ensures
        r == iso_date_of(s@),
{
    match chrono::NaiveDate::parse_from_str(s, "%Y-%m-%d") {
        Ok(d) => Some((d.year(), d.month(), d.day())),
        Err(_) => None,
    }
}

/// The day of an archive record's creation timestamp; `None` if it does not parse.
pub fn parse_post_date(s: &str) -> (r: Option<CalendarDate>)
    ensures
        r == date_of_parts(archive_date_of(s@)),
{
    match chrono_archive_date(s) {
        Some((y, m, d)) => Some(CalendarDate { year: y, month: m, day: d }),
        None => None,
    }
}

/// The cutoff day given as `YYYY-MM-DD`; `None` if it does not parse.
pub fn parse_cutoff(s: &str) -> (r: Option<CalendarDate>)
    ensures
        r == date_of_parts(iso_date_of(s@)),
{
    match chrono_iso_date(s) {
        Some((y, m, d)) => Some(CalendarDate { year: y, month: m, day: d }),
        None => None,
    }
}

} // verus!
