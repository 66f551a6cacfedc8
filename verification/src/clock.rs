//! The discovery time stamps, written through chrono's formatting: `%H:%M`
//! for the time of day and `%Y-%b-%d` for the date.
use vstd::prelude::*;

use crate::text::{
    all_digits, decimal, digit_char, digits_value, lemma_decimal_round_trip, lemma_digit_char,
};

verus! {

/// A reading of the local clock, as plain calendar and clock fields.
pub struct LocalClock {
    pub year: i32,
    pub month: u32,
    pub day: u32,
    pub hour: u32,
    pub minute: u32,
}

/// A number below 100 written with exactly two digits (`%H`, `%M`, `%d`).
pub open spec fn two_digits(v: nat) -> Seq<char> {
    seq![digit_char((v / 10) as int), digit_char((v % 10) as int)]
}

/// `d` with zeros in front up to four characters.
pub open spec fn zero_pad4(d: Seq<char>) -> Seq<char> {
    if d.len() >= 4 {
        d
    } else {
        Seq::new((4 - d.len()) as nat, |i: int| '0') + d
    }
}

/// A year as `%Y` writes it: four digits at least, with a sign outside 0..=9999.
pub open spec fn year_text(y: int) -> Seq<char> {
    if 0 <= y <= 9999 {
        zero_pad4(decimal(y as nat))
    } else if y > 9999 {
        seq!['+'] + decimal(y as nat)
    } else {
        seq!['-'] + zero_pad4(decimal((-y) as nat))
    }
}

/// The English abbreviation of a month (1 = January), as `%b` writes it.
pub open spec fn month_abbrev(m: int) -> Seq<char> {
    if m == 1 {
        "Jan"@
    } else if m == 2 {
        "Feb"@
    } else if m == 3 {
        "Mar"@
    } else if m == 4 {
        "Apr"@
    } else if m == 5 {
        "May"@
    } else if m == 6 {
        "Jun"@
    } else if m == 7 {
        "Jul"@
    } else if m == 8 {
        "Aug"@
    } else if m == 9 {
        "Sep"@
    } else if m == 10 {
        "Oct"@
    } else if m == 11 {
        "Nov"@
    } else {
        "Dec"@
    }
}

/// Leap years of the proleptic Gregorian calendar.
pub open spec fn is_leap_year(y: int) -> bool {
    y % 4 == 0 && (y % 100 != 0 || y % 400 == 0)
}

/// The number of days of month `m` (1 = January) of year `y`.
pub open spec fn days_in_month(y: int, m: int) -> int {
    if m == 2 {
        if is_leap_year(y) {
            29
        } else {
            28
        }
    } else if m == 4 || m == 6 || m == 9 || m == 11 {
        30
    } else {
        31
    }
}

/// A calendar date that chrono's `NaiveDate` can hold.
pub open spec fn valid_date(y: int, m: int, d: int) -> bool {
    &&& -262143 <= y <= 262142
    &&& 1 <= m <= 12
    &&& 1 <= d <= days_in_month(y, m)
}

/// A time of day that chrono's `NaiveTime` can hold (with zero seconds).
pub open spec fn valid_clock_time(hour: int, minute: int) -> bool {
    0 <= hour < 24 && 0 <= minute < 60
}

/// The time of day as `%H:%M` writes it.
pub open spec fn clock_text(hour: nat, minute: nat) -> Seq<char> {
    two_digits(hour) + seq![':'] + two_digits(minute)
}

/// The date as `%Y-%b-%d` writes it.
pub open spec fn date_text(y: int, m: int, d: nat) -> Seq<char> {
    year_text(y) + seq!['-'] + month_abbrev(m) + seq!['-'] + two_digits(d)
}

/// Calls chrono's `NaiveTime::from_hms_opt(hour, minute, 0)` and, when it
/// gives a time, formats it with `"%H:%M"`. Claimed: a time is made exactly
/// for an hour below 24 and a minute below 60 (the seconds are zero), and
/// `%H` and `%M` write the hour and minute zero-padded to two digits.
#[verifier::external_body]
fn format_clock_time(hour: u32, minute: u32) -> (r: Option<String>)
    ensures
        r is Some <==> valid_clock_time(hour as int, minute as int),
        r matches Some(s) ==> s@ == clock_text(hour as nat, minute as nat),
{
    match chrono::NaiveTime::from_hms_opt(hour, minute, 0) {
        Some(t) => Some(t.format("%H:%M").to_string()),
        None => None,
    }
}

/// Calls chrono's `NaiveDate::from_ymd_opt(year, month, day)` and, when it
/// gives a date, formats it with `"%Y-%b-%d"`. Claimed: a date is made
/// exactly for a valid proleptic Gregorian date within chrono's year range;
/// `%Y` writes the year zero-padded to four digits, with a sign outside
/// 0..=9999; `%b` writes the English month abbreviation (the default locale);
/// `%d` writes the day zero-padded to two digits.
#[verifier::external_body]
fn format_calendar_date(year: i32, month: u32, day: u32) -> (r: Option<String>)
    ensures
        r is Some <==> valid_date(year as int, month as int, day as int),
        r matches Some(s) ==> s@ == date_text(year as int, month as int, day as nat),
{
    match chrono::NaiveDate::from_ymd_opt(year, month, day) {
        Some(d) => Some(d.format("%Y-%b-%d").to_string()),
        None => None,
    }
}

impl LocalClock {
    /// Whether the reading is a real time of day on a real calendar date.
    pub open spec fn is_valid(&self) -> bool {
        valid_clock_time(self.hour as int, self.minute as int) && valid_date(
            self.year as int,
            self.month as int,
            self.day as int,
        )
    }

    /// The time of day of the reading, `HH:MM`.
    pub open spec fn time_text(&self) -> Seq<char> {
        clock_text(self.hour as nat, self.minute as nat)
    }

    /// The date of the reading, `YYYY-Mon-DD`.
    pub open spec fn day_text(&self) -> Seq<char> {
        date_text(self.year as int, self.month as int, self.day as nat)
    }

    /// The time stamp (time of day, date) of a discovery made at this reading;
    /// `None` when the reading is not a real time and date.
    pub fn stamp(&self) -> (r: Option<(String, String)>)
        ensures
            r is Some <==> self.is_valid(),
            r matches Some(p) ==> p.0@ == self.time_text() && p.1@ == self.day_text(),
    {
        let time = format_clock_time(self.hour, self.minute);
        let date = format_calendar_date(self.year, self.month, self.day);
        match (time, date) {
            (Some(t), Some(d)) => Some((t, d)),
            _ => None,
        }
    }
}

/// Zeros in front of a string of digits do not change the number it denotes.
pub proof fn lemma_leading_zeros(z: Seq<char>, d: Seq<char>)
    requires
        forall|i: int| 0 <= i < z.len() ==> z[i] == '0',
    ensures
        digits_value(z + d) == digits_value(d),
    decreases z.len() + d.len(),
{
    if d.len() == 0 {
        assert(z + d =~= z);
        if z.len() > 0 {
            lemma_leading_zeros(z.drop_last(), d);
            assert(z.drop_last() + d =~= z.drop_last());
        }
    } else {
        lemma_leading_zeros(z, d.drop_last());
        assert((z + d).drop_last() =~= z + d.drop_last());
        assert((z + d).last() == d.last());
    }
}

/// Two digits that denote `v`, for `v` below 100.
pub proof fn law_two_digits(v: nat)
    requires
        v < 100,
    ensures
        two_digits(v).len() == 2,
        all_digits(two_digits(v)),
        digits_value(two_digits(v)) == v,
{
    lemma_digit_char((v / 10) as int);
    lemma_digit_char((v % 10) as int);
    let t = two_digits(v);
    assert(t.drop_last() =~= seq![digit_char((v / 10) as int)]);
    assert(t.drop_last().drop_last() =~= Seq::<char>::empty());
    assert(digits_value(Seq::<char>::empty()) == 0);
    assert(digits_value(t.drop_last()) == v / 10);
    assert(digits_value(t) == (v / 10) * 10 + v % 10);
}

/// The time of day is written `HH:MM`: two digits denoting the hour, a colon,
/// two digits denoting the minute.
pub proof fn law_clock_text(hour: nat, minute: nat)
    requires
        hour < 24,
        minute < 60,
    ensures
        clock_text(hour, minute).len() == 5,
        clock_text(hour, minute)[2] == ':',
        all_digits(clock_text(hour, minute).subrange(0, 2)),
        digits_value(clock_text(hour, minute).subrange(0, 2)) == hour,
        all_digits(clock_text(hour, minute).subrange(3, 5)),
        digits_value(clock_text(hour, minute).subrange(3, 5)) == minute,
{
    law_two_digits(hour);
    law_two_digits(minute);
    let t = clock_text(hour, minute);
    assert(t.subrange(0, 2) =~= two_digits(hour));
    assert(t.subrange(3, 5) =~= two_digits(minute));
}

/// A year is written with at least four digits that denote it, preceded by
/// `+` above 9999 and by `-` below zero.
pub proof fn law_year_text(y: int)
    ensures
        0 <= y <= 9999 ==> year_text(y).len() == 4 && all_digits(year_text(y)) && digits_value(
            year_text(y),
        ) == y,
        y > 9999 ==> year_text(y)[0] == '+' && year_text(y).len() >= 5 && all_digits(
            year_text(y).drop_first(),
        ) && digits_value(year_text(y).drop_first()) == y,
        y < 0 ==> year_text(y)[0] == '-' && year_text(y).len() >= 5 && all_digits(
            year_text(y).drop_first(),
        ) && digits_value(year_text(y).drop_first()) == -y,
{
    if 0 <= y <= 9999 {
        lemma_padded_digits(y as nat);
    } else if y > 9999 {
        lemma_decimal_round_trip(y as nat);
        lemma_decimal_len(y as nat);
        assert(year_text(y).drop_first() =~= decimal(y as nat));
    } else {
        lemma_padded_digits((-y) as nat);
        assert(year_text(y).drop_first() =~= zero_pad4(decimal((-y) as nat)));
    }
}

/// A numeral of a number of at least 10000 has five digits or more, and one
/// below 10000 has four digits or fewer.
proof fn lemma_decimal_len(n: nat)
    ensures
        n >= 10 ==> decimal(n).len() >= 2,
        n >= 100 ==> decimal(n).len() >= 3,
        n >= 1000 ==> decimal(n).len() >= 4,
        n >= 10000 ==> decimal(n).len() >= 5,
        n < 10 ==> decimal(n).len() <= 1,
        n < 100 ==> decimal(n).len() <= 2,
        n < 1000 ==> decimal(n).len() <= 3,
        n < 10000 ==> decimal(n).len() <= 4,
    decreases n,
{
    if n >= 10 {
        lemma_decimal_len(n / 10);
        assert(decimal(n).len() == decimal(n / 10).len() + 1);
    }
}

/// Zero-padding a numeral to four characters keeps a string of digits that
/// denotes the same number.
proof fn lemma_padded_digits(n: nat)
    ensures
        zero_pad4(decimal(n)).len() >= 4,
        n < 10000 ==> zero_pad4(decimal(n)).len() == 4,
        all_digits(zero_pad4(decimal(n))),
        digits_value(zero_pad4(decimal(n))) == n,
{
    lemma_decimal_round_trip(n);
    lemma_decimal_len(n);
    let d = decimal(n);
    if d.len() < 4 {
        let z = Seq::new((4 - d.len()) as nat, |i: int| '0');
        lemma_leading_zeros(z, d);
        assert(zero_pad4(d) =~= z + d);
        assert forall|i: int| 0 <= i < zero_pad4(d).len() implies '0' <= #[trigger] zero_pad4(d)[i]
            <= '9' by {
            if i >= z.len() {
                assert(zero_pad4(d)[i] == d[i - z.len()]);
            }
        }
    }
}

/// The English month abbreviations, January first.
pub open spec fn english_months() -> Seq<Seq<char>> {
    seq![
        "Jan"@,
        "Feb"@,
        "Mar"@,
        "Apr"@,
        "May"@,
        "Jun"@,
        "Jul"@,
        "Aug"@,
        "Sep"@,
        "Oct"@,
        "Nov"@,
        "Dec"@,
    ]
}

/// A date of the years 0..=9999 is written `YYYY-Mon-DD`: four digits denoting
/// the year, a hyphen, the month's English abbreviation, a hyphen, two digits
/// denoting the day.
pub proof fn law_date_text(y: int, m: int, d: nat)
    requires
        0 <= y <= 9999,
        valid_date(y, m, d as int),
    ensures
        date_text(y, m, d).len() == 11,
        all_digits(date_text(y, m, d).subrange(0, 4)),
        digits_value(date_text(y, m, d).subrange(0, 4)) == y,
        date_text(y, m, d)[4] == '-',
        date_text(y, m, d).subrange(5, 8) == english_months()[m - 1],
        date_text(y, m, d)[8] == '-',
        all_digits(date_text(y, m, d).subrange(9, 11)),
        digits_value(date_text(y, m, d).subrange(9, 11)) == d,
{
    reveal_strlit("Jan");
    reveal_strlit("Feb");
    reveal_strlit("Mar");
    reveal_strlit("Apr");
    reveal_strlit("May");
    reveal_strlit("Jun");
    reveal_strlit("Jul");
    reveal_strlit("Aug");
    reveal_strlit("Sep");
    reveal_strlit("Oct");
    reveal_strlit("Nov");
    reveal_strlit("Dec");
    law_year_text(y);
    law_two_digits(d);
    let t = date_text(y, m, d);
    assert(month_abbrev(m) == english_months()[m - 1]);
    assert(month_abbrev(m).len() == 3);
    assert(t.subrange(0, 4) =~= year_text(y));
    assert(t.subrange(5, 8) =~= month_abbrev(m));
    assert(t.subrange(9, 11) =~= two_digits(d));
}

} // verus!
