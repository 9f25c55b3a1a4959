//! The clock.

use vstd::prelude::*;
use crate::decimal::{decimal, lemma_decimal_length, pow10};

verus! {

/// A local time as a calendar and a clock show it.
#[derive(Clone, Copy, PartialEq, Eq, Debug, Structural)]
pub struct CivilTime {
    pub year: i32,
    pub month: u32,
    pub day: u32,
    pub hour: u32,
    pub minute: u32,
    pub second: u32,
}

/// Whether a year of the Gregorian calendar has a 29th of February.
pub open spec fn is_leap_year(year: int) -> bool {
    year % 4 == 0 && (year % 100 != 0 || year % 400 == 0)
}

/// The number of days of a month.
pub open spec fn days_in_month(year: int, month: int) -> int {
    if month == 2 {
        if is_leap_year(year) {
            29
        } else {
            28
        }
    } else if month == 4 || month == 6 || month == 9 || month == 11 {
        30
    } else {
        31
    }
}

/// A number with zeros before it, up to a width.
pub open spec fn zero_padded(n: nat, width: nat) -> Seq<char> {
    if decimal(n).len() >= width {
        decimal(n)
    } else {
        Seq::new((width - decimal(n).len()) as nat, |i: int| '0') + decimal(n)
    }
}

/// A year in four digits; outside of 0 to 9999 it carries its sign.
pub open spec fn year_text(year: int) -> Seq<char> {
    if year < 0 {
        "-"@ + zero_padded((-year) as nat, 4)
    } else if year > 9999 {
        "+"@ + zero_padded(year as nat, 4)
    } else {
        zero_padded(year as nat, 4)
    }
}

impl CivilTime {
    /// Whether there is such a day and such a time of day, in a year from 262144 BCE to
    /// 262142 CE.
    pub open spec fn exists_in_calendar(self) -> bool {
        &&& -262143 <= self.year <= 262142
        &&& 1 <= self.month <= 12
        &&& 1 <= self.day <= days_in_month(self.year as int, self.month as int)
        &&& self.hour < 24
        &&& self.minute < 60
        &&& self.second < 60
    }

    /// The date and the time of day to the minute.
    pub open spec fn minute_text(self) -> Seq<char> {
        year_text(self.year as int) + "-"@ + zero_padded(self.month as nat, 2) + "-"@ + zero_padded(
            self.day as nat,
            2,
        ) + " "@ + zero_padded(self.hour as nat, 2) + ":"@ + zero_padded(self.minute as nat, 2)
    }

    /// The date and the time of day to the second.
    pub open spec fn second_text(self) -> Seq<char> {
        self.minute_text() + ":"@ + zero_padded(self.second as nat, 2)
    }
}

/// The pattern of a time to the second.
pub const PATTERN_SECONDS: &'static str = "%Y-%m-%d %H:%M:%S";

/// The pattern of a time to the minute.
pub const PATTERN_MINUTES: &'static str = "%Y-%m-%d %H:%M";

/// `chrono::NaiveDateTime::format`, on the date and time that `NaiveDate::from_ymd_opt`
/// and `NaiveDate::and_hms_opt` make of the fields. There is a text exactly where that
/// day and time of day exist. The year has four digits and outside of 0 to 9999 a sign
/// before them; the other fields have two digits.
#[verifier::external_body]
fn format_date_time(time: &CivilTime, pattern: &str) -> (text: Option<String>)
    requires
        pattern@ == PATTERN_SECONDS@ || pattern@ == PATTERN_MINUTES@,
    ensures
        text is Some <==> time.exists_in_calendar(),
        text is Some && pattern@ == PATTERN_SECONDS@ ==> text->0@ == time.second_text(),
        text is Some && pattern@ == PATTERN_MINUTES@ ==> text->0@ == time.minute_text(),
{
    let date = chrono::NaiveDate::from_ymd_opt(time.year, time.month, time.day)?;
    let moment = date.and_hms_opt(time.hour, time.minute, time.second)?;
    Some(moment.format(pattern).to_string())
}

/// What the clock shows: the local time, with its seconds or without.
pub open spec fn clock_text(time: CivilTime, show_seconds: bool) -> Seq<char> {
    if show_seconds {
        time.second_text()
    } else {
        time.minute_text()
    }
}

/// What the clock shows of a time that a calendar has.
pub open spec fn clock_shows(time: CivilTime, show_seconds: bool) -> Option<Seq<char>> {
    if time.exists_in_calendar() {
        Some(clock_text(time, show_seconds))
    } else {
        None
    }
}

/// What the clock shows. There is nothing to show of a time that no calendar has.
pub fn time_text(time: &CivilTime, show_seconds: bool) -> (text: Option<String>)
    ensures
        text is Some <==> time.exists_in_calendar(),
        text matches Some(t) ==> t@ == clock_text(*time, show_seconds),
        text is Some <==> clock_shows(*time, show_seconds) is Some,
        text matches Some(t) ==> t@ == clock_shows(*time, show_seconds)->0,
{
    if show_seconds {
        format_date_time(time, PATTERN_SECONDS)
    } else {
        format_date_time(time, PATTERN_MINUTES)
    }
}

/// The milliseconds between two updates of the clock.
pub open spec fn interval_of(show_seconds: bool) -> nat {
    if show_seconds {
        1000
    } else {
        60000
    }
}

/// The milliseconds between two updates of the clock: a second, or a minute where no
/// seconds are shown.
pub fn update_interval(show_seconds: bool) -> (millis: u64)
    ensures
        millis == if show_seconds {
            1000u64
        } else {
            60000u64
        },
        millis == interval_of(show_seconds),
{
    if show_seconds {
        1000
    } else {
        60000
    }
}

/// The text without seconds is the beginning of the text with seconds.
pub proof fn lemma_minutes_begin_seconds(time: CivilTime)
    ensures
        clock_text(time, false).is_prefix_of(clock_text(time, true)),
{
}

/// In the years 0 to 9999 the clock always takes the same width.
pub proof fn lemma_clock_width(time: CivilTime)
    requires
        time.exists_in_calendar(),
        0 <= time.year <= 9999,
    ensures
        clock_text(time, true).len() == 19,
        clock_text(time, false).len() == 16,
{
    reveal_strlit("-");
    reveal_strlit(":");
    reveal_strlit(" ");
    reveal_with_fuel(pow10, 5);
    lemma_decimal_length(time.year as nat, 4);
    lemma_decimal_length(time.month as nat, 2);
    lemma_decimal_length(time.day as nat, 2);
    lemma_decimal_length(time.hour as nat, 2);
    lemma_decimal_length(time.minute as nat, 2);
    lemma_decimal_length(time.second as nat, 2);
}

} // verus!
