//! Date and time parsing, through chrono.
use vstd::prelude::*;
use vstd::string::StringExecFns;
use chrono::{Datelike, Timelike};

verus! {

/// A calendar date and time of day, without a time zone.
#[derive(Debug, Clone, Copy, PartialEq, Eq)]
pub struct NaiveDateTime {
    year: i32,
    month: u32,
    day: u32,
    hour: u32,
    minute: u32,
    second: u32,
    nanosecond: u32,
}

/// The fields of a date and time: year, month, day, hour, minute, second, nanosecond.
pub type DateTimeParts = (i32, u32, u32, u32, u32, u32, u32);

/// The fields that chrono's `NaiveDateTime::parse_from_str` finds when it
/// parses the characters `s` with the format `fmt`, or `None` when it fails.
pub uninterp spec fn chrono_parse(s: Seq<char>, fmt: Seq<char>) -> Option<(i32, u32, u32, u32, u32, u32, u32)>;

/// Whether fields lie in the ranges chrono documents for its accessors.
pub open spec fn parts_in_range(p: DateTimeParts) -> bool {
    &&& 1 <= p.1 <= 12
    &&& 1 <= p.2 <= 31
    &&& p.3 < 24
    &&& p.4 < 60
    &&& p.5 < 60
    &&& p.6 < 2_000_000_000
}

/// Calls chrono's `NaiveDateTime::parse_from_str(s, fmt)` and reads the fields
/// of what it parsed. The contract names the outcome `chrono_parse` of the two
/// strings, and states the ranges that chrono documents for month, day, hour,
/// minute, second and nanosecond; how chrono reads the format is not stated.
#[verifier::external_body]
fn parse_from_str(s: &str, fmt: &str) -> (r: Option<DateTimeParts>)
    ensures
        r == chrono_parse(s@, fmt@),
        r matches Some(p) ==> parts_in_range(p),
{
    chrono::NaiveDateTime::parse_from_str(s, fmt).ok().map(
        |d| (d.year(), d.month(), d.day(), d.hour(), d.minute(), d.second(), d.nanosecond()),
    )
}

/// Why a date and time could not be parsed.
#[derive(Debug, Clone, PartialEq, Eq)]
pub enum TimeError {
    Parse { input: String, format: String },
}

impl TimeError {
    /// The text that describes this error.
    pub fn message(&self) -> (r: String)
        ensures
            r@ == (match self {
                TimeError::Parse { input, format } => "Failed to parse datetime '"@ + input@
                    + "' with format '"@ + format@ + "'"@,
            }),
    {
        let mut m = String::new();
        match self {
            TimeError::Parse { input, format } => {
                m.append("Failed to parse datetime '");
                m.append(input.as_str());
                m.append("' with format '");
                m.append(format.as_str());
                m.append("'");
            },
        }
        m
    }
}

impl NaiveDateTime {
    /// The fields of this date and time.
    pub closed spec fn parts(&self) -> DateTimeParts {
        (self.year, self.month, self.day, self.hour, self.minute, self.second, self.nanosecond)
    }

    /// The year.
    pub fn year(&self) -> (r: i32)
        ensures
            r == self.parts().0,
    {
        self.year
    }

    /// The month, from 1.
    pub fn month(&self) -> (r: u32)
        ensures
            r == self.parts().1,
    {
        self.month
    }

    /// The day of the month, from 1.
    pub fn day(&self) -> (r: u32)
        ensures
            r == self.parts().2,
    {
        self.day
    }

    /// The hour, from 0 to 23.
    pub fn hour(&self) -> (r: u32)
        ensures
            r == self.parts().3,
    {
        self.hour
    }

    /// The minute, from 0 to 59.
    pub fn minute(&self) -> (r: u32)
        ensures
            r == self.parts().4,
    {
        self.minute
    }

    /// The second, from 0 to 59.
    pub fn second(&self) -> (r: u32)
        ensures
            r == self.parts().5,
    {
        self.second
    }

    /// The nanoseconds within the second (from 1,000,000,000 during a leap second).
    pub fn nanosecond(&self) -> (r: u32)
        ensures
            r == self.parts().6,
    {
        self.nanosecond
    }
}

/// Turns what the parser found for `s` with `fmt` into a date and time, or
/// into the error that names both strings.
pub fn from_parsed(parsed: Option<DateTimeParts>, s: &str, fmt: &str) -> (r: Result<NaiveDateTime, TimeError>)
    ensures
        match parsed {
            Some(p) => r matches Ok(d) && d.parts() == p,
            None => r matches Err(TimeError::Parse { input, format }) && input@ == s@ && format@ == fmt@,
        },
{
    match parsed {
        Some(p) => Ok(NaiveDateTime {
            year: p.0,
            month: p.1,
            day: p.2,
            hour: p.3,
            minute: p.4,
            second: p.5,
            nanosecond: p.6,
        }),
        None => Err(TimeError::Parse { input: s.to_owned(), format: fmt.to_owned() }),
    }
}

/// Parses a date and time with a strftime-style format (`%Y`, `%m`, `%d`,
/// `%H`, `%M`, `%S`, ...), as chrono's `NaiveDateTime::parse_from_str` does.
pub fn parse(s: &str, fmt: &str) -> (r: Result<NaiveDateTime, TimeError>)
    ensures
        match chrono_parse(s@, fmt@) {
            Some(p) => r matches Ok(d) && d.parts() == p && parts_in_range(p),
            None => r matches Err(TimeError::Parse { input, format }) && input@ == s@ && format@ == fmt@,
        },
{
    let parsed = parse_from_str(s, fmt);
    from_parsed(parsed, s, fmt)
}

} // verus!
