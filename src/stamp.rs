use vstd::prelude::*;

verus! {

/// A UTC date and time to the second, as plain numbers.
#[derive(Clone, Copy, Debug, PartialEq, Eq, Structural)]
pub struct Timestamp {
    pub year: i32,
    pub month: u32,
    pub day: u32,
    pub hour: u32,
    pub minute: u32,
    pub second: u32,
}

/// Whether `year` is a leap year of the Gregorian calendar.
pub open spec fn is_leap_year(year: int) -> bool {
    (year % 4 == 0 && year % 100 != 0) || year % 400 == 0
}

/// The number of days of `month` (1 to 12) in `year`.
pub open spec fn days_in_month(year: int, month: int) -> int {
    if month == 2 {
        if is_leap_year(year) {
            29
        } else {
            28
        }
    } else if month == 4 || month == 6 || month == 9 || month == 11 {
        30
    } else {
        31
    }
}

/// A calendar date and time of day, with a year of at most four digits.
pub open spec fn valid_timestamp(t: Timestamp) -> bool {
    &&& 0 <= t.year <= 9999
    &&& 1 <= t.month <= 12
    &&& 1 <= t.day <= days_in_month(t.year as int, t.month as int)
    &&& t.hour < 24
    &&& t.minute < 60
    &&& t.second < 60
}

/// The decimal digit `d`.
pub open spec fn digit(d: nat) -> char
    recommends
        d < 10,
{
    seq!['0', '1', '2', '3', '4', '5', '6', '7', '8', '9'][d as int]
}

/// `n` in two decimal digits.
pub open spec fn two_digits(n: nat) -> Seq<char> {
    seq![digit((n / 10) % 10), digit(n % 10)]
}

/// `n` in four decimal digits.
pub open spec fn four_digits(n: nat) -> Seq<char> {
    seq![digit((n / 1000) % 10), digit((n / 100) % 10), digit((n / 10) % 10), digit(n % 10)]
}

/// The name of a session started at `t`: `YYYY-MM-DD_HH-MM-SS`.
pub open spec fn stamp_text(t: Timestamp) -> Seq<char> {
    four_digits(t.year as nat) + seq!['-'] + two_digits(t.month as nat) + seq!['-']
        + two_digits(t.day as nat) + seq!['_'] + two_digits(t.hour as nat) + seq!['-']
        + two_digits(t.minute as nat) + seq!['-'] + two_digits(t.second as nat)
}

/// Relies on chrono's `NaiveDate::from_ymd_opt`, `NaiveDate::and_hms_opt`
/// and `NaiveDateTime::format` with `%Y-%m-%d_%H-%M-%S`: both constructors
/// accept every valid date and time, `%Y` writes a year of 0 to 9999 as four
/// digits, and the other fields write two digits, zero-padded.
#[verifier::external_body]
fn format_stamp(t: Timestamp) -> (r: String)
    requires
        valid_timestamp(t),
    ensures
        r@ == stamp_text(t),
{
    let date = chrono::NaiveDate::from_ymd_opt(t.year, t.month, t.day).unwrap();
    let moment = date.and_hms_opt(t.hour, t.minute, t.second).unwrap();
    moment.format("%Y-%m-%d_%H-%M-%S").to_string()
}

impl Timestamp {
    /// Whether the fields form a calendar date and a time of day, with a
    /// year of at most four digits.
    pub fn is_valid(&self) -> (b: bool)
        ensures
            b == valid_timestamp(*self),
    {
        if self.year < 0 || self.year > 9999 || self.month < 1 || self.month > 12 || self.day < 1
            || self.hour >= 24 || self.minute >= 60 || self.second >= 60 {
            return false;
        }
        let leap = (self.year % 4 == 0 && self.year % 100 != 0) || self.year % 400 == 0;
        let days: u32 = if self.month == 2 {
            if leap {
                29
            } else {
                28
            }
        } else if self.month == 4 || self.month == 6 || self.month == 9 || self.month == 11 {
            30
        } else {
            31
        };
        self.day <= days
    }

    /// The name of a session started at this moment, `YYYY-MM-DD_HH-MM-SS`;
    /// `None` when the fields do not form a valid timestamp.
    pub fn session_name(&self) -> (r: Option<String>)
        ensures
            r is Some <==> valid_timestamp(*self),
            r matches Some(s) ==> s@ == stamp_text(*self),
    {
        if self.is_valid() {
            Some(format_stamp(*self))
        } else {
            None
        }
    }
}

} // verus!
