use chrono::Datelike;
use vstd::prelude::*;
use crate::clock::unix_millis;
use crate::task::Due;
use crate::text::{byte_len, has_substring, is_ascii_digit, is_ascii_letter, str_contains};

verus! {

/// A calendar day in the viewer's local calendar.
#[derive(Clone, Copy, Debug, PartialEq, Eq, Structural, Hash)]
pub struct LocalDate {
    pub year: i32,
    pub month: u32,
    pub day: u32,
}

impl LocalDate {
    /// Month and day lie in their calendar ranges.
    pub open spec fn wf(self) -> bool {
        1 <= self.month <= 12 && 1 <= self.day <= 31
    }

    /// `self` comes strictly after `other` in the calendar.
    pub open spec fn after(self, other: LocalDate) -> bool {
        ||| self.year > other.year
        ||| self.year == other.year && self.month > other.month
        ||| self.year == other.year && self.month == other.month && self.day > other.day
    }

    pub fn is_after(&self, other: &LocalDate) -> (r: bool)
        ensures
            r == self.after(*other),
    {
        if self.year != other.year {
            self.year > other.year
        } else if self.month != other.month {
            self.month > other.month
        } else {
            self.day > other.day
        }
    }
}

/// Where a task's due information places it in the local calendar.
#[derive(Clone, Copy, Debug, PartialEq, Eq, Structural)]
pub enum DueDay {
    /// The task has no due information.
    NoDate,
    /// The due text is neither a readable calendar date nor a readable timestamp.
    Unreadable,
    /// The due text resolves to this local calendar day.
    On(LocalDate),
}

/// The format of a bare calendar date.
pub const ISO_DATE_FORMAT: &'static str = "%Y-%m-%d";

/// Number of UTF-8 bytes of a bare calendar date.
pub const ISO_DATE_BYTES: usize = 10;

/// Names what `chrono::NaiveDate::parse_from_str` yields for a text and a format.
pub uninterp spec fn parsed_date(text: Seq<char>, format: Seq<char>) -> Option<LocalDate>;

/// Relies on `chrono::NaiveDate::parse_from_str`: its outcome depends on the text and the
/// format alone; `Datelike::month` and `Datelike::day` lie in 1..=12 and 1..=31. A
/// format that opens with `%Y` reads, after optional whitespace, a sign or a digit,
/// so a text that parses under `ISO_DATE_FORMAT` does not start with a letter.
#[verifier::external_body]
fn parse_date(text: &str, format: &str) -> (r: Option<LocalDate>)
    ensures
        r == parsed_date(text@, format@),
        r matches Some(d) ==> d.wf(),
        r is Some && format@ == ISO_DATE_FORMAT@ ==> text@.len() > 0 && !is_ascii_letter(text@[0]),
{
    match chrono::NaiveDate::parse_from_str(text, format) {
        Ok(d) => Some(LocalDate { year: d.year(), month: d.month(), day: d.day() }),
        Err(_) => None,
    }
}

/// Earliest instant, in seconds since the Unix epoch, that an RFC 3339 text can name:
/// year 0000, widened by a day for the offset.
pub const RFC3339_MIN_SECONDS: i64 = -62_167_219_200 - 86_400;

/// Latest instant, in seconds since the Unix epoch, that an RFC 3339 text can name:
/// year 9999, widened by a day for the offset.
pub const RFC3339_MAX_SECONDS: i64 = 253_402_300_799 + 86_400;

/// Names what `chrono::DateTime::parse_from_rfc3339` yields for a text, as seconds
/// since the Unix epoch.
pub uninterp spec fn rfc3339_seconds(text: Seq<char>) -> Option<i64>;

/// Relies on `chrono::DateTime::parse_from_rfc3339`, read through `timestamp`: its
/// outcome depends on the text alone; the year has four digits and the offset lies
/// within 23:59 of UTC, so the instant lies between the two RFC 3339 bounds. The text
/// opens with the year's first digit.
#[verifier::external_body]
fn parse_rfc3339(text: &str) -> (r: Option<i64>)
    ensures
        r == rfc3339_seconds(text@),
        r is Some ==> text@.len() > 0 && is_ascii_digit(text@[0]),
        r matches Some(t) ==> RFC3339_MIN_SECONDS <= t <= RFC3339_MAX_SECONDS,
{
    match chrono::DateTime::parse_from_rfc3339(text) {
        Ok(t) => Some(t.timestamp()),
        Err(_) => None,
    }
}

/// Relies on `chrono::DateTime::from_timestamp` and `with_timezone(&chrono::Local)`:
/// the local calendar day of an instant given in seconds since the Unix epoch. Between
/// the RFC 3339 bounds the instant, shifted by any local offset, stays far inside
/// chrono's range, so a day always comes back. Which day depends on the machine's
/// time zone, so only the ranges of month and day are stated.
#[verifier::external_body]
fn local_date_at(seconds: i64) -> (r: Option<LocalDate>)
    requires
        RFC3339_MIN_SECONDS <= seconds <= RFC3339_MAX_SECONDS,
    ensures
        r is Some,
        r matches Some(d) ==> d.wf(),
{
    match chrono::DateTime::from_timestamp(seconds, 0) {
        Some(t) => {
            let d = t.with_timezone(&chrono::Local).date_naive();
            Some(LocalDate { year: d.year(), month: d.month(), day: d.day() })
        },
        None => None,
    }
}

/// Today's date in the local calendar, `None` when the clock reads before the Unix
/// epoch or past the last RFC 3339 instant.
pub fn local_today() -> (r: Option<LocalDate>)
    ensures
        r matches Some(d) ==> d.wf(),
{
    match unix_millis() {
        Some(millis) => {
            let seconds = millis / 1000;
            if seconds <= RFC3339_MAX_SECONDS as u64 {
                local_date_at(seconds as i64)
            } else {
                None
            }
        },
        None => None,
    }
}

/// `r` is a possible reading of `due`: a missing due is `NoDate`; a text of
/// `ISO_DATE_BYTES` bytes is read as a bare date; a text holding `T` is read as an
/// RFC 3339 timestamp, whose local day the machine's time zone decides; anything
/// that does not read is `Unreadable`, and so is any text that starts with a letter.
pub open spec fn resolves(due: Option<Due>, r: DueDay) -> bool {
    &&& starts_with_letter(due) ==> r == DueDay::Unreadable
    &&& match due {
        None => r == DueDay::NoDate,
        Some(d) => if byte_len(d.date@) == ISO_DATE_BYTES {
            r == match parsed_date(d.date@, ISO_DATE_FORMAT@) {
                Some(day) => DueDay::On(day),
                None => DueDay::Unreadable,
            }
        } else if has_substring(d.date@, seq!['T']) {
            match rfc3339_seconds(d.date@) {
                Some(_) => r matches DueDay::On(day) && day.wf(),
                None => r == DueDay::Unreadable,
            }
        } else {
            r == DueDay::Unreadable
        },
    }
}

/// The due text is present and starts with an ASCII letter.
pub open spec fn starts_with_letter(due: Option<Due>) -> bool {
    due matches Some(d) && d.date@.len() > 0 && is_ascii_letter(d.date@[0])
}

/// Places a task's due information in the local calendar.
pub fn resolve_due(due: &Option<Due>) -> (r: DueDay)
    ensures
        resolves(*due, r),
{
    proof {
        reveal_strlit("T");
        assert("T"@ =~= seq!['T']);
    }
    match due {
        None => DueDay::NoDate,
        Some(d) => {
            if d.date.as_str().len() == ISO_DATE_BYTES {
                match parse_date(d.date.as_str(), ISO_DATE_FORMAT) {
                    Some(day) => DueDay::On(day),
                    None => DueDay::Unreadable,
                }
            } else if str_contains(d.date.as_str(), "T") {
                match parse_rfc3339(d.date.as_str()) {
                    Some(seconds) => match local_date_at(seconds) {
                        Some(day) => DueDay::On(day),
                        None => DueDay::Unreadable,
                    },
                    None => DueDay::Unreadable,
                }
            } else {
                DueDay::Unreadable
            }
        },
    }
}

} // verus!
