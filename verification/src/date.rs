//! Calendar dates as plain year/month/day values, with the proleptic
//! Gregorian rules needed to step one day backward.

use vstd::prelude::*;

use crate::amount::{digit_val, is_digit};

verus! {

/// A calendar date. Well-formed values satisfy [`Date::wf`].
#[derive(Clone, Copy, Debug, PartialEq, Eq, Structural)]
pub struct Date {
    pub year: u32,
    pub month: u32,
    pub day: u32,
}

/// Gregorian leap-year rule.
pub open spec fn is_leap_year(y: int) -> bool {
    y % 4 == 0 && (y % 100 != 0 || y % 400 == 0)
}

/// Number of days in the given month of the given year.
pub open spec fn days_in_month(y: int, m: int) -> int {
    if m == 2 {
        if is_leap_year(y) {
            29
        } else {
            28
        }
    } else if m == 4 || m == 6 || m == 9 || m == 11 {
        30
    } else {
        31
    }
}

impl Date {
    /// A valid date of the four-digit era: the month exists and the day
    /// exists in that month.
    pub open spec fn wf(self) -> bool {
        1 <= self.year <= 9999 && 1 <= self.month <= 12 && 1 <= self.day <= days_in_month(
            self.year as int,
            self.month as int,
        )
    }
}

/// `a` is strictly earlier than `b`.
pub open spec fn date_lt(a: Date, b: Date) -> bool {
    a.year < b.year || (a.year == b.year && (a.month < b.month || (a.month == b.month
        && a.day < b.day)))
}

/// `a` is `b` or earlier.
pub open spec fn date_le(a: Date, b: Date) -> bool {
    a == b || date_lt(a, b)
}

/// The date one calendar day before `d` (meaningful only for well-formed
/// dates after the first representable day).
pub open spec fn prev_date(d: Date) -> Date {
    if d.day > 1 {
        Date { year: d.year, month: d.month, day: (d.day - 1) as u32 }
    } else if d.month > 1 {
        Date {
            year: d.year,
            month: (d.month - 1) as u32,
            day: days_in_month(d.year as int, d.month as int - 1) as u32,
        }
    } else {
        Date { year: (d.year - 1) as u32, month: 12, day: 31 }
    }
}

/// Executable mirror of [`days_in_month`].
pub fn days_in_month_of(year: u32, month: u32) -> (r: u32)
    ensures
        r == days_in_month(year as int, month as int),
{
    if month == 2 {
        if year % 4 == 0 && (year % 100 != 0 || year % 400 == 0) {
            29
        } else {
            28
        }
    } else if month == 4 || month == 6 || month == 9 || month == 11 {
        30
    } else {
        31
    }
}

impl Date {
    /// Steps one calendar day backward.
    pub fn prev_day(&self) -> (r: Date)
        requires
            self.wf(),
            !(self.year == 1 && self.month == 1 && self.day == 1),
        ensures
            r == prev_date(*self),
            r.wf(),
            date_lt(r, *self),
            r.year + 1 >= self.year,
    {
        if self.day > 1 {
            Date { year: self.year, month: self.month, day: self.day - 1 }
        } else if self.month > 1 {
            Date {
                year: self.year,
                month: self.month - 1,
                day: days_in_month_of(self.year, self.month - 1),
            }
        } else {
            Date { year: self.year - 1, month: 12, day: 31 }
        }
    }
}

/// The date written `mm/dd/yy` in `s`, if `s` has exactly that shape and
/// names a valid calendar date.  Two-digit years `00..=68` mean `2000..=2068`
/// and `69..=99` mean `1969..=1999`.
pub open spec fn date_of_mmddyy(s: Seq<char>) -> Option<Date> {
    if s.len() == 8 && s[2] == '/' && s[5] == '/' && is_digit(s[0]) && is_digit(s[1]) && is_digit(
        s[3],
    ) && is_digit(s[4]) && is_digit(s[6]) && is_digit(s[7]) {
        let mm = digit_val(s[0]) * 10 + digit_val(s[1]);
        let dd = digit_val(s[3]) * 10 + digit_val(s[4]);
        let yy = digit_val(s[6]) * 10 + digit_val(s[7]);
        let year: nat = if yy <= 68 {
            2000 + yy
        } else {
            1900 + yy
        };
        if 1 <= mm <= 12 && 1 <= dd <= days_in_month(year as int, mm as int) {
            Some(Date { year: year as u32, month: mm as u32, day: dd as u32 })
        } else {
            None
        }
    } else {
        None
    }
}

/// Reads one digit of `s` at position `i`, or reports that none is there.
fn read_digit(s: &str, i: usize) -> (r: Option<u32>)
    requires
        i < s@.len(),
    ensures
        match r {
            Some(v) => is_digit(s@[i as int]) && v as nat == digit_val(s@[i as int]) && v <= 9,
            None => !is_digit(s@[i as int]),
        },
{
    let cv: u32 = s.get_char(i) as u32;
    if 48 <= cv && cv <= 57 {
        Some(cv - 48)
    } else {
        None
    }
}

/// Parses a `mm/dd/yy` transaction date, exactly as [`date_of_mmddyy`]
/// describes.  Every returned date is well formed and lies in 1969..=2068.
pub fn parse_mmddyy(s: &str) -> (r: Option<Date>)
    ensures
        r == date_of_mmddyy(s@),
        r matches Some(d) ==> d.wf() && 1969 <= d.year <= 2068,
{
    if s.unicode_len() != 8 {
        return None;
    }
    if s.get_char(2) != '/' || s.get_char(5) != '/' {
        return None;
    }
    let m1: u32 = match read_digit(s, 0) {
        Some(v) => v,
        None => {
            return None;
        },
    };
    let m2: u32 = match read_digit(s, 1) {
        Some(v) => v,
        None => {
            return None;
        },
    };
    let d1: u32 = match read_digit(s, 3) {
        Some(v) => v,
        None => {
            return None;
        },
    };
    let d2: u32 = match read_digit(s, 4) {
        Some(v) => v,
        None => {
            return None;
        },
    };
    let y1: u32 = match read_digit(s, 6) {
        Some(v) => v,
        None => {
            return None;
        },
    };
    let y2: u32 = match read_digit(s, 7) {
        Some(v) => v,
        None => {
            return None;
        },
    };
    let mm: u32 = m1 * 10 + m2;
    let dd: u32 = d1 * 10 + d2;
    let yy: u32 = y1 * 10 + y2;
    let year: u32 = if yy <= 68 {
        2000 + yy
    } else {
        1900 + yy
    };
    if 1 <= mm && mm <= 12 && 1 <= dd && dd <= days_in_month_of(year, mm) {
        Some(Date { year, month: mm, day: dd })
    } else {
        None
    }
}

/// The decimal digit character for a value below ten.
pub open spec fn digit_char(d: int) -> char {
    if d == 0 {
        '0'
    } else if d == 1 {
        '1'
    } else if d == 2 {
        '2'
    } else if d == 3 {
        '3'
    } else if d == 4 {
        '4'
    } else if d == 5 {
        '5'
    } else if d == 6 {
        '6'
    } else if d == 7 {
        '7'
    } else if d == 8 {
        '8'
    } else {
        '9'
    }
}

/// A date in ISO `YYYY-MM-DD` form, as a character sequence.
pub open spec fn iso_seq(d: Date) -> Seq<char> {
    seq![
        digit_char(d.year as int / 1000 % 10),
        digit_char(d.year as int / 100 % 10),
        digit_char(d.year as int / 10 % 10),
        digit_char(d.year as int % 10),
        '-',
        digit_char(d.month as int / 10),
        digit_char(d.month as int % 10),
        '-',
        digit_char(d.day as int / 10),
        digit_char(d.day as int % 10),
    ]
}

/// One decimal digit as a string slice.
fn digit_str(d: u32) -> (r: &'static str)
    requires
        d <= 9,
    ensures
        r@ =~= seq![digit_char(d as int)],
{
    proof {
        reveal_strlit("0");
        reveal_strlit("1");
        reveal_strlit("2");
        reveal_strlit("3");
        reveal_strlit("4");
        reveal_strlit("5");
        reveal_strlit("6");
        reveal_strlit("7");
        reveal_strlit("8");
        reveal_strlit("9");
    }
    if d == 0 {
        "0"
    } else if d == 1 {
        "1"
    } else if d == 2 {
        "2"
    } else if d == 3 {
        "3"
    } else if d == 4 {
        "4"
    } else if d == 5 {
        "5"
    } else if d == 6 {
        "6"
    } else if d == 7 {
        "7"
    } else if d == 8 {
        "8"
    } else {
        "9"
    }
}

impl Date {
    /// Formats the date in ISO `YYYY-MM-DD` form.
    pub fn to_iso_string(&self) -> (r: String)
        requires
            self.wf(),
        ensures
            r@ == iso_seq(*self),
    {
        proof {
            reveal_strlit("-");
        }
        let mut out: String = String::new();
        out.append(digit_str(self.year / 1000 % 10));
        out.append(digit_str(self.year / 100 % 10));
        out.append(digit_str(self.year / 10 % 10));
        out.append(digit_str(self.year % 10));
        out.append("-");
        out.append(digit_str(self.month / 10));
        out.append(digit_str(self.month % 10));
        out.append("-");
        out.append(digit_str(self.day / 10));
        out.append(digit_str(self.day % 10));
        proof {
            assert(out@ =~= iso_seq(*self));
        }
        out
    }
}

} // verus!
