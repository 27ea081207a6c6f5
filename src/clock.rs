//! Calendar date and time of day, and the current UTC time.
use crate::text::{digits, zero_pad};
use vstd::prelude::*;

verus! {

/// A UTC date and time of day to the second.
#[derive(Debug, Clone, Copy, PartialEq, Eq)]
pub struct DateTime {
    pub year: i32,
    pub month: u8,
    pub day: u8,
    pub hour: u8,
    pub minute: u8,
    pub second: u8,
}

impl DateTime {
    /// Every field within its range.
    pub open spec fn wf(&self) -> bool {
        1 <= self.month <= 12 && 1 <= self.day <= 31 && self.hour < 24 && self.minute < 60
            && self.second < 60
    }

    /// The date and time with these fields, where each is within its range.
    pub fn new(year: i32, month: u8, day: u8, hour: u8, minute: u8, second: u8) -> (r: Option<
        DateTime,
    >)
        ensures
            r is Some <==> (1 <= month <= 12 && 1 <= day <= 31 && hour < 24 && minute < 60
                && second < 60),
            r matches Some(t) ==> t.wf() && t == (DateTime { year, month, day, hour, minute, second }),
    {
        if 1 <= month && month <= 12 && 1 <= day && day <= 31 && hour < 24 && minute < 60
            && second < 60 {
            Some(DateTime { year, month, day, hour, minute, second })
        } else {
            None
        }
    }
}

/// Relies on time::OffsetDateTime::now_utc and its field accessors, which give
/// a month from 1 to 12, a day from 1 to 31, an hour below 24 and a minute and
/// a second below 60.
#[verifier::external_body]
pub(crate) fn current_utc() -> (r: DateTime)
    ensures
        r.wf(),
{
    let t = time::OffsetDateTime::now_utc();
    DateTime {
        year: t.year(),
        month: t.month() as u8,
        day: t.day(),
        hour: t.hour(),
        minute: t.minute(),
        second: t.second(),
    }
}

/// The year on at least four digits, with `-` before a year before zero and
/// `+` before a year past 9999.
pub open spec fn year_text(y: int) -> Seq<char> {
    (if y < 0 {
        seq!['-']
    } else if y >= 10_000 {
        seq!['+']
    } else {
        Seq::empty()
    }) + zero_pad(digits(if y < 0 { (-y) as nat } else { y as nat }), 4)
}

/// `DD/MM/YYYY`.
pub open spec fn date_text(t: DateTime) -> Seq<char> {
    zero_pad(digits(t.day as nat), 2) + seq!['/'] + zero_pad(digits(t.month as nat), 2) + seq![
        '/',
    ] + year_text(t.year as int)
}

/// `HH:MM:SS`.
pub open spec fn clock_text(t: DateTime) -> Seq<char> {
    zero_pad(digits(t.hour as nat), 2) + seq![':'] + zero_pad(digits(t.minute as nat), 2) + seq![
        ':',
    ] + zero_pad(digits(t.second as nat), 2)
}

} // verus!
