//! Calendar dates without a time component, and the day arithmetic the
//! relative-day resolver needs.

use chrono::Datelike;
use vstd::prelude::*;

verus! {

/// Smallest year a `CivilDate` may carry (the range `chrono::NaiveDate`
/// supports, so that dates can be exchanged with the clock and the date
/// parser).
pub const MIN_YEAR: i32 = -262143;

/// Largest year a `CivilDate` may carry.
pub const MAX_YEAR: i32 = 262142;

/// A calendar date in the proleptic Gregorian calendar.
#[derive(Clone, Copy, PartialEq, Eq, Structural, Debug, Hash)]
pub struct CivilDate {
    pub year: i32,
    pub month: u8,
    pub day: u8,
}

/// A leap year: divisible by 4, except centuries not divisible by 400.
pub open spec fn spec_is_leap_year(y: int) -> bool {
    y % 4 == 0 && (y % 100 != 0 || y % 400 == 0)
}

/// Number of days of month `m` of year `y`.
pub open spec fn spec_days_in_month(y: int, m: int) -> int {
    if m == 2 {
        if spec_is_leap_year(y) {
            29
        } else {
            28
        }
    } else if m == 4 || m == 6 || m == 9 || m == 11 {
        30
    } else {
        31
    }
}

impl CivilDate {
    /// A well-formed date: a real day of the calendar, within the year range
    /// the library exchanges with the clock and the date parser.
    pub open spec fn wf(self) -> bool {
        &&& MIN_YEAR <= self.year <= MAX_YEAR
        &&& 1 <= self.month <= 12
        &&& 1 <= self.day <= spec_days_in_month(self.year as int, self.month as int)
    }

    /// Well-formed and not in the first or last representable year, so that
    /// the day before and the day after both exist.
    pub open spec fn interior(self) -> bool {
        self.wf() && MIN_YEAR < self.year < MAX_YEAR
    }

    /// The date one day later.
    pub open spec fn spec_next_day(self) -> CivilDate {
        if self.day < spec_days_in_month(self.year as int, self.month as int) {
            CivilDate { year: self.year, month: self.month, day: (self.day + 1) as u8 }
        } else if self.month < 12 {
            CivilDate { year: self.year, month: (self.month + 1) as u8, day: 1 }
        } else {
            CivilDate { year: (self.year + 1) as i32, month: 1, day: 1 }
        }
    }

    /// The date one day earlier.
    pub open spec fn spec_prev_day(self) -> CivilDate {
        if self.day > 1 {
            CivilDate { year: self.year, month: self.month, day: (self.day - 1) as u8 }
        } else if self.month > 1 {
            CivilDate {
                year: self.year,
                month: (self.month - 1) as u8,
                day: spec_days_in_month(self.year as int, self.month as int - 1) as u8,
            }
        } else {
            CivilDate { year: (self.year - 1) as i32, month: 12, day: 31 }
        }
    }
}

/// Whether year `y` is a leap year.
pub fn is_leap_year(y: i32) -> (r: bool)
    ensures
        r == spec_is_leap_year(y as int),
{
    y % 4 == 0 && (y % 100 != 0 || y % 400 == 0)
}

/// Number of days of month `m` of year `y`.
pub fn days_in_month(y: i32, m: u8) -> (r: u8)
    requires
        1 <= m <= 12,
    ensures
        r == spec_days_in_month(y as int, m as int),
{
    if m == 2 {
        if is_leap_year(y) {
            29
        } else {
            28
        }
    } else if m == 4 || m == 6 || m == 9 || m == 11 {
        30
    } else {
        31
    }
}

/// The date one day after `d`.
pub fn next_day(d: CivilDate) -> (r: CivilDate)
    requires
        d.interior(),
    ensures
        r == d.spec_next_day(),
        r.wf(),
{
    let dim = days_in_month(d.year, d.month);
    if d.day < dim {
        CivilDate { year: d.year, month: d.month, day: d.day + 1 }
    } else if d.month < 12 {
        CivilDate { year: d.year, month: d.month + 1, day: 1 }
    } else {
        CivilDate { year: d.year + 1, month: 1, day: 1 }
    }
}

/// The date one day before `d`.
pub fn prev_day(d: CivilDate) -> (r: CivilDate)
    requires
        d.interior(),
    ensures
        r == d.spec_prev_day(),
        r.wf(),
{
    if d.day > 1 {
        CivilDate { year: d.year, month: d.month, day: d.day - 1 }
    } else if d.month > 1 {
        CivilDate { year: d.year, month: d.month - 1, day: days_in_month(d.year, d.month - 1) }
    } else {
        CivilDate { year: d.year - 1, month: 12, day: 31 }
    }
}

/// Going one day forward and then one day back lands on the same date.
pub proof fn lemma_prev_of_next(d: CivilDate)
    requires
        d.interior(),
    ensures
        d.spec_next_day().spec_prev_day() == d,
{
}

/// Going one day back and then one day forward lands on the same date.
pub proof fn lemma_next_of_prev(d: CivilDate)
    requires
        d.interior(),
    ensures
        d.spec_prev_day().spec_next_day() == d,
{
}

/// Whether `c` is an ASCII decimal digit.
pub open spec fn spec_is_digit(c: char) -> bool {
    48 <= c as u32 <= 57
}

/// The value of the ASCII decimal digit `c`.
pub open spec fn spec_digit_val(c: char) -> int {
    c as u32 - 48
}

/// The date written by a string in strict `dd/mm/yyyy` form: two digits,
/// a slash, two digits, a slash, four digits, naming a real calendar day.
/// Any other string is not in strict form.
pub open spec fn strict_ddmmyyyy(s: Seq<char>) -> Option<CivilDate> {
    if s.len() == 10 && spec_is_digit(s[0]) && spec_is_digit(s[1]) && s[2] == '/'
        && spec_is_digit(s[3]) && spec_is_digit(s[4]) && s[5] == '/' && spec_is_digit(s[6])
        && spec_is_digit(s[7]) && spec_is_digit(s[8]) && spec_is_digit(s[9]) {
        let d = spec_digit_val(s[0]) * 10 + spec_digit_val(s[1]);
        let m = spec_digit_val(s[3]) * 10 + spec_digit_val(s[4]);
        let y = spec_digit_val(s[6]) * 1000 + spec_digit_val(s[7]) * 100 + spec_digit_val(s[8])
            * 10 + spec_digit_val(s[9]);
        if 1 <= m <= 12 && 1 <= d <= spec_days_in_month(y, m) {
            Some(CivilDate { year: y as i32, month: m as u8, day: d as u8 })
        } else {
            None
        }
    } else {
        None
    }
}

/// What parsing a string in `dd/mm/yyyy` format returns: either the date, or
/// the text of the parse diagnostic. The parser accepts some looser spellings
/// too (unpadded day or month, a signed year), so the full result is named
/// rather than spelled out; `parse_ddmmyyyy` states what is known of it.
pub uninterp spec fn ddmmyyyy_of(s: Seq<char>) -> Result<CivilDate, Seq<char>>;

/// Relies on `chrono::NaiveDate::parse_from_str` with format `"%d/%m/%Y"`:
/// the result depends on the characters alone; a returned date is a real
/// calendar day; and a string that is exactly `dd/mm/yyyy` with a valid day,
/// month and four-digit year parses to exactly that date.
#[verifier::external_body]
pub(crate) fn parse_ddmmyyyy(s: &str) -> (r: Result<CivilDate, String>)
    ensures
        match r {
            Ok(d) => ddmmyyyy_of(s@) == Ok::<CivilDate, Seq<char>>(d) && d.wf() && (
            strict_ddmmyyyy(s@) matches Some(c) ==> c == d),
            Err(e) => ddmmyyyy_of(s@) == Err::<CivilDate, Seq<char>>(e@) && strict_ddmmyyyy(s@)
                is None,
        },
{
    match chrono::NaiveDate::parse_from_str(s, "%d/%m/%Y") {
        Ok(d) => Ok(CivilDate { year: d.year(), month: d.month() as u8, day: d.day() as u8 }),
        Err(e) => Err(format!("{}", e)),
    }
}

/// Relies on `chrono::Utc::now`: the current civil date in UTC is a real
/// calendar day lying strictly inside the representable year range.
#[verifier::external_body]
pub fn today_utc() -> (r: CivilDate)
    ensures
        r.interior(),
{
    let d = chrono::Utc::now().date_naive();
    CivilDate { year: d.year(), month: d.month() as u8, day: d.day() as u8 }
}

} // verus!
