use vstd::prelude::*;
use vstd::string::*;
use crate::text::padded_decimal;

verus! {

/// Whether `year` is a leap year of the proleptic Gregorian calendar.
pub open spec fn is_leap_year(year: nat) -> bool {
    year % 4 == 0 && (year % 100 != 0 || year % 400 == 0)
}

/// The number of days of a month (1 to 12) of `year`.
pub open spec fn days_in_month(year: nat, month: nat) -> nat {
    if month == 2 {
        if is_leap_year(year) {
            29
        } else {
            28
        }
    } else if month == 4 || month == 6 || month == 9 || month == 11 {
        30
    } else {
        31
    }
}

/// Whether the parts name an existing instant, to the second, of years 0 to 9999.
pub open spec fn valid_parts(
    year: nat,
    month: nat,
    day: nat,
    hour: nat,
    minute: nat,
    second: nat,
) -> bool {
    &&& year <= 9999
    &&& 1 <= month <= 12
    &&& 1 <= day <= days_in_month(year, month)
    &&& hour < 24
    &&& minute < 60
    &&& second < 60
}

/// The text `YYYY-MM-DD HH:MM:SS` of an instant.
pub open spec fn parts_text(
    year: nat,
    month: nat,
    day: nat,
    hour: nat,
    minute: nat,
    second: nat,
) -> Seq<char> {
    padded_decimal(year, 4) + "-"@ + padded_decimal(month, 2) + "-"@ + padded_decimal(day, 2)
        + " "@ + padded_decimal(hour, 2) + ":"@ + padded_decimal(minute, 2) + ":"@
        + padded_decimal(second, 2)
}

/// A calendar date and time of day, to the second, without a time zone.
#[derive(Debug, Clone, Copy, PartialEq, Eq, Structural)]
pub struct Timestamp {
    pub year: u32,
    pub month: u32,
    pub day: u32,
    pub hour: u32,
    pub minute: u32,
    pub second: u32,
}

impl Timestamp {
    /// Whether the timestamp names an existing instant of years 0 to 9999.
    pub open spec fn wf(&self) -> bool {
        valid_parts(
            self.year as nat,
            self.month as nat,
            self.day as nat,
            self.hour as nat,
            self.minute as nat,
            self.second as nat,
        )
    }

    /// The text of the timestamp, as the time-series server reads it.
    pub open spec fn text(&self) -> Seq<char> {
        parts_text(
            self.year as nat,
            self.month as nat,
            self.day as nat,
            self.hour as nat,
            self.minute as nat,
            self.second as nat,
        )
    }

    /// A timestamp from its parts; `None` when they name no instant of years 0 to 9999.
    pub fn new(year: u32, month: u32, day: u32, hour: u32, minute: u32, second: u32) -> (r: Option<
        Timestamp,
    >)
        ensures
            r is Some <==> valid_parts(
                year as nat,
                month as nat,
                day as nat,
                hour as nat,
                minute as nat,
                second as nat,
            ),
            r matches Some(t) ==> t == (Timestamp { year, month, day, hour, minute, second }),
    {
        if year > 9999 || month < 1 || month > 12 || hour >= 24 || minute >= 60 || second >= 60 {
            return None;
        }
        let leap = year % 4 == 0 && (year % 100 != 0 || year % 400 == 0);
        let days: u32 = if month == 2 {
            if leap {
                29
            } else {
                28
            }
        } else if month == 4 || month == 6 || month == 9 || month == 11 {
            30
        } else {
            31
        };
        if day < 1 || day > days {
            return None;
        }
        Some(Timestamp { year, month, day, hour, minute, second })
    }

    /// The text of the timestamp, `YYYY-MM-DD HH:MM:SS`.
    pub fn to_text(&self) -> (r: String)
        requires
            self.wf(),
        ensures
            r@ == self.text(),
    {
        match datetime_text(self.year, self.month, self.day, self.hour, self.minute, self.second) {
            Some(s) => s,
            None => String::new(),
        }
    }
}

/// Relies on chrono: `NaiveDate::from_ymd_opt` and `NaiveDate::and_hms_opt`
/// accept every existing date and time of day, and `NaiveDateTime`'s `Display`
/// writes a year of 0 to 9999 as four digits, then `-MM-DD HH:MM:SS` with no
/// fraction when the nanoseconds are zero.
#[verifier::external_body]
fn datetime_text(year: u32, month: u32, day: u32, hour: u32, minute: u32, second: u32) -> (r:
    Option<String>)
    requires
        year <= 9999,
    ensures
        valid_parts(year as nat, month as nat, day as nat, hour as nat, minute as nat, second as nat)
            ==> r is Some && r->0@ == parts_text(
            year as nat,
            month as nat,
            day as nat,
            hour as nat,
            minute as nat,
            second as nat,
        ),
{
    chrono::NaiveDate::from_ymd_opt(year as i32, month, day)
        .and_then(|d| d.and_hms_opt(hour, minute, second))
        .map(|t| t.to_string())
}

} // verus!
