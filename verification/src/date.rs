//! Calendar dates and the `YYYY-MM-DD` stamp that names a day's log file.

use vstd::prelude::*;

verus! {

/// A calendar day in the proleptic Gregorian calendar, within the four-digit
/// year range that a `YYYY-MM-DD` stamp can carry.
#[derive(Clone, Copy, PartialEq, Eq, Structural, Debug)]
pub struct Date {
    pub year: u32,
    pub month: u32,
    pub day: u32,
}

/// Whether `y` is a Gregorian leap year.
pub open spec fn is_leap_year(y: int) -> bool {
    (y % 4 == 0 && y % 100 != 0) || y % 400 == 0
}

/// Number of days in month `m` of year `y`.
pub open spec fn days_in_month(y: int, m: int) -> int {
    if m == 2 {
        if is_leap_year(y) {
            29
        } else {
            28
        }
    } else if m == 4 || m == 6 || m == 9 || m == 11 {
        30
    } else {
        31
    }
}

impl Date {
    /// A well-formed date: four-digit year, real month, real day of that month.
    pub open spec fn valid(self) -> bool {
        &&& 1 <= self.year <= 9999
        &&& 1 <= self.month <= 12
        &&& 1 <= self.day <= days_in_month(self.year as int, self.month as int)
    }

    /// Executable leap-year test, equal to `is_leap_year`.
    pub fn leap_year(&self) -> (r: bool)
        ensures
            r == is_leap_year(self.year as int),
    {
        (self.year % 4 == 0 && self.year % 100 != 0) || self.year % 400 == 0
    }

    /// Executable month length, equal to `days_in_month`.
    pub fn month_length(&self) -> (r: u32)
        requires
            1 <= self.month <= 12,
        ensures
            r as int == days_in_month(self.year as int, self.month as int),
    {
        if self.month == 2 {
            if self.leap_year() {
                29
            } else {
                28
            }
        } else if self.month == 4 || self.month == 6 || self.month == 9 || self.month == 11 {
            30
        } else {
            31
        }
    }

    /// The calendar day after this one: the day the file sink rotates to at
    /// midnight. The last representable day has no successor in range.
    pub fn next_day(&self) -> (r: Date)
        requires
            self.valid(),
            !(self.year == 9999 && self.month == 12 && self.day == 31),
        ensures
            r == spec_next_day(*self),
            r.valid(),
    {
        if self.day < self.month_length() {
            Date { year: self.year, month: self.month, day: self.day + 1 }
        } else if self.month < 12 {
            Date { year: self.year, month: self.month + 1, day: 1 }
        } else {
            Date { year: self.year + 1, month: 1, day: 1 }
        }
    }
}

/// The day after `d`: increments the day, wrapping into the next month or year
/// at each boundary.
pub open spec fn spec_next_day(d: Date) -> Date {
    if d.day < days_in_month(d.year as int, d.month as int) {
        Date { year: d.year, month: d.month, day: (d.day + 1) as u32 }
    } else if d.month < 12 {
        Date { year: d.year, month: (d.month + 1) as u32, day: 1 }
    } else {
        Date { year: (d.year + 1) as u32, month: 1, day: 1 }
    }
}

/// The decimal digit character for `v`.
pub open spec fn digit(v: int) -> char {
    if v == 0 {
        '0'
    } else if v == 1 {
        '1'
    } else if v == 2 {
        '2'
    } else if v == 3 {
        '3'
    } else if v == 4 {
        '4'
    } else if v == 5 {
        '5'
    } else if v == 6 {
        '6'
    } else if v == 7 {
        '7'
    } else if v == 8 {
        '8'
    } else {
        '9'
    }
}

/// The ten characters of the `YYYY-MM-DD` stamp for `d`, zero-padded.
pub open spec fn date_seq(d: Date) -> Seq<char> {
    seq![
        digit(d.year as int / 1000 % 10),
        digit(d.year as int / 100 % 10),
        digit(d.year as int / 10 % 10),
        digit(d.year as int % 10),
        '-',
        digit(d.month as int / 10 % 10),
        digit(d.month as int % 10),
        '-',
        digit(d.day as int / 10 % 10),
        digit(d.day as int % 10),
    ]
}

/// Appends the decimal digit character for `v` to `s`.
fn push_digit(s: &mut String, v: u32)
    requires
        v < 10,
    ensures
        final(s)@ == old(s)@ + seq![digit(v as int)],
{
    let d: &'static str = match v {
        0 => "0",
        1 => "1",
        2 => "2",
        3 => "3",
        4 => "4",
        5 => "5",
        6 => "6",
        7 => "7",
        8 => "8",
        _ => "9",
    };
    proof {
        reveal_strlit("0");
        reveal_strlit("1");
        reveal_strlit("2");
        reveal_strlit("3");
        reveal_strlit("4");
        reveal_strlit("5");
        reveal_strlit("6");
        reveal_strlit("7");
        reveal_strlit("8");
        reveal_strlit("9");
        assert(d@ =~= seq![digit(v as int)]);
    }
    s.append(d);
}

impl Date {
    /// Formats this date as its zero-padded `YYYY-MM-DD` stamp.
    pub fn format_stamp(&self) -> (r: String)
        requires
            self.valid(),
        ensures
            r@ == date_seq(*self),
    {
        let mut s = String::new();
        push_digit(&mut s, self.year / 1000 % 10);
        push_digit(&mut s, self.year / 100 % 10);
        push_digit(&mut s, self.year / 10 % 10);
        push_digit(&mut s, self.year % 10);
        push_dash(&mut s);
        push_digit(&mut s, self.month / 10 % 10);
        push_digit(&mut s, self.month % 10);
        push_dash(&mut s);
        push_digit(&mut s, self.day / 10 % 10);
        push_digit(&mut s, self.day % 10);
        proof {
            assert(s@ =~= date_seq(*self));
        }
        s
    }
}

/// Appends the separator of the stamp to `s`.
fn push_dash(s: &mut String)
    ensures
        final(s)@ == old(s)@ + seq!['-'],
{
    proof {
        reveal_strlit("-");
        assert("-"@ =~= seq!['-']);
    }
    s.append("-");
}

/// Two distinct digits format as two distinct characters.
pub proof fn lemma_digit_injective(a: int, b: int)
    requires
        0 <= a < 10,
        0 <= b < 10,
        digit(a) == digit(b),
    ensures
        a == b,
{
}

/// A number below 10000 is recovered from its four decimal digits.
proof fn lemma_four_digits_determine(y: int)
    requires
        0 <= y < 10000,
    ensures
        y == (y / 1000 % 10) * 1000 + (y / 100 % 10) * 100 + (y / 10 % 10) * 10 + y % 10,
{
    assert(y == (y / 1000 % 10) * 1000 + (y / 100 % 10) * 100 + (y / 10 % 10) * 10 + y % 10)
        by (nonlinear_arith)
        requires 0 <= y < 10000;
}

/// A number below 100 is recovered from its two decimal digits.
proof fn lemma_two_digits_determine(y: int)
    requires
        0 <= y < 100,
    ensures
        y == (y / 10 % 10) * 10 + y % 10,
{
    assert(y == (y / 10 % 10) * 10 + y % 10) by (nonlinear_arith)
        requires 0 <= y < 100;
}

/// Distinct valid dates have distinct `YYYY-MM-DD` stamps.
pub proof fn lemma_date_seq_injective(a: Date, b: Date)
    requires
        a.valid(),
        b.valid(),
        date_seq(a) == date_seq(b),
    ensures
        a == b,
{
    lemma_digit_injective(a.year as int / 1000 % 10, b.year as int / 1000 % 10);
    lemma_digit_injective(a.year as int / 100 % 10, b.year as int / 100 % 10);
    lemma_digit_injective(a.year as int / 10 % 10, b.year as int / 10 % 10);
    lemma_digit_injective(a.year as int % 10, b.year as int % 10);
    lemma_digit_injective(a.month as int / 10 % 10, b.month as int / 10 % 10);
    lemma_digit_injective(a.month as int % 10, b.month as int % 10);
    lemma_digit_injective(a.day as int / 10 % 10, b.day as int / 10 % 10);
    lemma_digit_injective(a.day as int % 10, b.day as int % 10);
    lemma_four_digits_determine(a.year as int);
    lemma_four_digits_determine(b.year as int);
    lemma_two_digits_determine(a.month as int);
    lemma_two_digits_determine(b.month as int);
    lemma_two_digits_determine(a.day as int);
    lemma_two_digits_determine(b.day as int);
}

} // verus!
