//! Calendar days, as `chrono` counts them.

use crate::text::{decimal, decimal_reads_back, digit_char};
use chrono::Datelike;
use vstd::prelude::*;

verus! {

/// A date of the proleptic Gregorian calendar.
pub struct Date {
    pub year: int,
    pub month: int,
    pub day: int,
}

/// Whether `year` has a 29th of February.
pub open spec fn is_leap_year(year: int) -> bool {
    year % 4 == 0 && (year % 100 != 0 || year % 400 == 0)
}

/// How many days `month` has in `year`.
pub open spec fn days_in_month(year: int, month: int) -> int {
    if month == 2 {
        if is_leap_year(year) {
            29
        } else {
            28
        }
    } else if month == 4 || month == 6 || month == 9 || month == 11 {
        30
    } else {
        31
    }
}

/// The dates that can be represented.
pub open spec fn is_date(d: Date) -> bool {
    &&& -262143 <= d.year <= 262142
    &&& 1 <= d.month <= 12
    &&& 1 <= d.day <= days_in_month(d.year, d.month)
}

/// Whether `a` is an earlier date than `b`.
pub open spec fn earlier(a: Date, b: Date) -> bool {
    a.year < b.year || (a.year == b.year && (a.month < b.month || (a.month == b.month && a.day
        < b.day)))
}

/// The date before `d`, if it can be represented.
pub open spec fn previous_date(d: Date) -> Option<Date> {
    if d.day > 1 {
        Some(Date { year: d.year, month: d.month, day: d.day - 1 })
    } else if d.month > 1 {
        Some(Date { year: d.year, month: d.month - 1, day: days_in_month(d.year, d.month - 1) })
    } else if d.year > -262143 {
        Some(Date { year: d.year - 1, month: 12, day: 31 })
    } else {
        None
    }
}

/// `count` times the digit zero.
pub open spec fn zeros(count: nat) -> Seq<char> {
    Seq::new(count, |i: int| digit_char(0))
}

/// The decimal form of `n`, filled up with zeros in front to at least `width` digits.
pub open spec fn zero_padded(n: nat, width: nat) -> Seq<char> {
    if decimal(n).len() >= width {
        decimal(n)
    } else {
        zeros((width - decimal(n).len()) as nat) + decimal(n)
    }
}

/// A year in at least four digits, with a sign where it is negative or has more than four digits.
pub open spec fn year_text(year: int) -> Seq<char> {
    if 0 <= year <= 9999 {
        zero_padded(year as nat, 4)
    } else if year < 0 {
        seq!['-'] + zero_padded((-year) as nat, 4)
    } else {
        seq!['+'] + zero_padded(year as nat, 4)
    }
}

/// A date as year, month and day, joined by hyphens.
pub open spec fn date_text(d: Date) -> Seq<char> {
    year_text(d.year) + seq!['-'] + zero_padded(d.month as nat, 2) + seq!['-'] + zero_padded(
        d.day as nat,
        2,
    )
}

/// `chrono::NaiveDate::from_ymd_opt`: there is a date for a year, month and day exactly where that
/// day exists in the Gregorian calendar and the year is in chrono's range.
#[verifier::external_body]
fn chrono_has_date(year: i32, month: u32, day: u32) -> (exists_: bool)
    ensures
        exists_ == is_date(Date { year: year as int, month: month as int, day: day as int }),
{
    chrono::NaiveDate::from_ymd_opt(year, month, day).is_some()
}

/// `chrono::NaiveDate::pred_opt`: the previous calendar date, and none before the first date that
/// chrono can represent.
#[verifier::external_body]
fn chrono_previous(year: i32, month: u32, day: u32) -> (previous: Option<(i32, u32, u32)>)
    requires
        is_date(Date { year: year as int, month: month as int, day: day as int }),
    ensures
        match (
            previous,
            previous_date(Date { year: year as int, month: month as int, day: day as int }),
        ) {
            (Some(p), Some(d)) => p.0 == d.year && p.1 == d.month && p.2 == d.day,
            (None, None) => true,
            _ => false,
        },
{
    let date = chrono::NaiveDate::from_ymd_opt(year, month, day)?.pred_opt()?;
    Some((date.year(), date.month(), date.day()))
}

/// `chrono::NaiveDate::format` with `%Y-%m-%d`: the year in at least four digits, signed where it
/// is outside 0 to 9999, then the month and the day in two digits each.
#[verifier::external_body]
fn chrono_date_text(year: i32, month: u32, day: u32) -> (t: String)
    requires
        is_date(Date { year: year as int, month: month as int, day: day as int }),
    ensures
        t@ == date_text(Date { year: year as int, month: month as int, day: day as int }),
{
    chrono::NaiveDate::from_ymd_opt(year, month, day).unwrap().format("%Y-%m-%d").to_string()
}

/// A calendar day.
#[derive(Debug, Clone, Copy, PartialEq, Eq, Structural)]
pub struct Day {
    year: i32,
    month: u32,
    day: u32,
}

impl View for Day {
    type V = Date;

    closed spec fn view(&self) -> Date {
        Date { year: self.year as int, month: self.month as int, day: self.day as int }
    }
}

impl Day {
    #[verifier::type_invariant]
    spec fn well_formed(self) -> bool {
        is_date(self@)
    }

    /// The day with the given year, month and day of the month, if there is one.
    pub fn from_ymd_opt(year: i32, month: u32, day: u32) -> (r: Option<Day>)
        ensures
            r is Some <==> is_date(
                Date { year: year as int, month: month as int, day: day as int },
            ),
            r is Some ==> r->0@ == (Date {
                year: year as int,
                month: month as int,
                day: day as int,
            }),
    {
        if chrono_has_date(year, month, day) {
            Some(Day { year, month, day })
        } else {
            None
        }
    }

    /// The year.
    pub fn year(&self) -> (year: i32)
        ensures
            year == self@.year,
    {
        self.year
    }

    /// The month, from 1 to 12.
    pub fn month(&self) -> (month: u32)
        ensures
            month == self@.month,
    {
        self.month
    }

    /// The day of the month, from 1.
    pub fn day(&self) -> (day: u32)
        ensures
            day == self@.day,
    {
        self.day
    }

    /// Whether this day is later than `other`.
    pub fn is_after(&self, other: &Day) -> (r: bool)
        ensures
            r == earlier(other@, self@),
    {
        self.year > other.year || (self.year == other.year && (self.month > other.month || (
        self.month == other.month && self.day > other.day)))
    }

    /// The day before, if it can be represented.
    pub fn pred_opt(&self) -> (r: Option<Day>)
        ensures
            is_date(self@),
            match (r, previous_date(self@)) {
                (Some(p), Some(d)) => p@ == d,
                (None, None) => true,
                _ => false,
            },
    {
        proof {
            use_type_invariant(self);
            previous_date_is_adjacent(self@);
        }
        match chrono_previous(self.year, self.month, self.day) {
            Some(p) => Some(Day { year: p.0, month: p.1, day: p.2 }),
            None => None,
        }
    }

    /// The day as `YYYY-MM-DD`.
    pub fn text(&self) -> (t: String)
        ensures
            is_date(self@),
            t@ == date_text(self@),
    {
        proof {
            use_type_invariant(self);
        }
        chrono_date_text(self.year, self.month, self.day)
    }
}

/// The date before a date is itself a date, is earlier, and leaves no date between the two; only
/// the first date has none before it.
pub proof fn previous_date_is_adjacent(d: Date)
    requires
        is_date(d),
    ensures
        previous_date(d) is Some ==> {
            let p = previous_date(d)->0;
            &&& is_date(p)
            &&& earlier(p, d)
            &&& forall|e: Date| #[trigger] is_date(e) && earlier(e, d) ==> e == p || earlier(e, p)
        },
        previous_date(d) is None ==> forall|e: Date| #[trigger] is_date(e) ==> !earlier(e, d),
{
}

/// The number that a row of digits stands for.
pub(crate) closed spec fn digits_value(s: Seq<char>) -> int
    decreases s.len(),
{
    if s.len() == 0 {
        0
    } else {
        digits_value(s.drop_last()) * 10 + (s.last() as int - '0' as int)
    }
}

proof fn decimal_has_its_value(n: nat)
    ensures
        digits_value(decimal(n)) == n,
        decimal(n).len() >= 1,
        forall|i: int| 0 <= i < decimal(n).len() ==> '0' <= #[trigger] decimal(n)[i] <= '9',
    decreases n,
{
    if n < 10 {
        assert(decimal(n).drop_last() =~= Seq::<char>::empty());
        assert(digits_value(Seq::<char>::empty()) == 0);
    } else {
        decimal_has_its_value(n / 10);
        assert(decimal(n).drop_last() =~= decimal(n / 10));
    }
}

proof fn leading_zeros_keep_the_value(count: nat, s: Seq<char>)
    ensures
        digits_value(zeros(count) + s) == digits_value(s),
    decreases count + s.len(),
{
    let t = zeros(count) + s;
    if s.len() > 0 {
        leading_zeros_keep_the_value(count, s.drop_last());
        assert(t.drop_last() =~= zeros(count) + s.drop_last());
    } else if count > 0 {
        leading_zeros_keep_the_value((count - 1) as nat, s);
        assert(t.drop_last() =~= zeros((count - 1) as nat) + s);
    } else {
        assert(t =~= s);
    }
}

pub(crate) proof fn padding_keeps_the_value(n: nat, width: nat)
    ensures
        digits_value(zero_padded(n, width)) == n,
        zero_padded(n, width).len() >= 1,
        forall|i: int|
            0 <= i < zero_padded(n, width).len() ==> '0' <= #[trigger] zero_padded(n, width)[i]
                <= '9',
{
    decimal_has_its_value(n);
    if decimal(n).len() < width {
        leading_zeros_keep_the_value((width - decimal(n).len()) as nat, decimal(n));
    }
}

pub(crate) proof fn two_digits(n: nat)
    requires
        n < 100,
    ensures
        zero_padded(n, 2).len() == 2,
{
    reveal_with_fuel(decimal, 3);
}

proof fn year_text_tells_years_apart(a: int, b: int)
    requires
        year_text(a) == year_text(b),
    ensures
        a == b,
{
    let na = (if a < 0 { -a } else { a }) as nat;
    let nb = (if b < 0 { -b } else { b }) as nat;
    padding_keeps_the_value(na, 4);
    padding_keeps_the_value(nb, 4);
    let ta = year_text(a);
    let tb = year_text(b);
    assert(0 <= a <= 9999 ==> '0' <= ta[0] <= '9');
    assert(0 <= b <= 9999 ==> '0' <= tb[0] <= '9');
    assert(!(0 <= a <= 9999) ==> ta.drop_first() =~= zero_padded(na, 4));
    assert(!(0 <= b <= 9999) ==> tb.drop_first() =~= zero_padded(nb, 4));
}

/// Two different dates are written differently.
pub proof fn date_text_tells_dates_apart(a: Date, b: Date)
    requires
        is_date(a),
        is_date(b),
        date_text(a) == date_text(b),
    ensures
        a == b,
{
    two_digits(a.month as nat);
    two_digits(a.day as nat);
    two_digits(b.month as nat);
    two_digits(b.day as nat);
    let ta = date_text(a);
    let tb = date_text(b);
    let n = ta.len() as int;
    assert(ta.subrange(0, n - 6) =~= year_text(a.year));
    assert(tb.subrange(0, n - 6) =~= year_text(b.year));
    year_text_tells_years_apart(a.year, b.year);
    assert(ta.subrange(n - 5, n - 3) =~= zero_padded(a.month as nat, 2));
    assert(tb.subrange(n - 5, n - 3) =~= zero_padded(b.month as nat, 2));
    assert(ta.subrange(n - 2, n) =~= zero_padded(a.day as nat, 2));
    assert(tb.subrange(n - 2, n) =~= zero_padded(b.day as nat, 2));
    padding_keeps_the_value(a.month as nat, 2);
    padding_keeps_the_value(b.month as nat, 2);
    padding_keeps_the_value(a.day as nat, 2);
    padding_keeps_the_value(b.day as nat, 2);
}

/// Dates are ordered by year, then by month, then by day.
pub proof fn dates_go_by_year_month_and_day(a: Date, b: Date)
    ensures
        a.year < b.year ==> earlier(a, b) && !earlier(b, a),
        a.year == b.year && a.month < b.month ==> earlier(a, b) && !earlier(b, a),
        a.year == b.year && a.month == b.month ==> (earlier(a, b) <==> a.day < b.day),
{
}

/// A year of four digits, a month and a day are written in ten characters, from which each reads back.
pub proof fn date_text_reads_back(d: Date)
    requires
        is_date(d),
        0 <= d.year <= 9999,
    ensures
        ({
            let t = date_text(d);
            let value = |s: Seq<char>|
                s.fold_left(0int, |v: int, c: char| v * 10 + (c as int - 48));
            &&& t.len() == 10
            &&& t[4] == '-' && t[7] == '-'
            &&& value(t.subrange(0, 4)) == d.year
            &&& value(t.subrange(5, 7)) == d.month
            &&& value(t.subrange(8, 10)) == d.day
        }),
{
    let t = date_text(d);
    two_digits(d.month as nat);
    two_digits(d.day as nat);
    four_digits(d.year as nat);
    padding_reads_back(d.year as nat, 4);
    padding_reads_back(d.month as nat, 2);
    padding_reads_back(d.day as nat, 2);
    assert(t.subrange(0, 4) =~= zero_padded(d.year as nat, 4));
    assert(t.subrange(5, 7) =~= zero_padded(d.month as nat, 2));
    assert(t.subrange(8, 10) =~= zero_padded(d.day as nat, 2));
}

proof fn four_digits(n: nat)
    requires
        n < 10000,
    ensures
        zero_padded(n, 4).len() == 4,
{
    reveal_with_fuel(decimal, 5);
}

proof fn padding_reads_back(n: nat, width: nat)
    ensures
        zero_padded(n, width).fold_left(0int, |v: int, c: char| v * 10 + (c as int - 48)) == n,
{
    decimal_reads_back(n);
    if decimal(n).len() < width {
        zeros_read_as_nothing((width - decimal(n).len()) as nat, decimal(n));
    }
}

proof fn zeros_read_as_nothing(count: nat, s: Seq<char>)
    ensures
        (zeros(count) + s).fold_left(0int, |v: int, c: char| v * 10 + (c as int - 48))
            == s.fold_left(0int, |v: int, c: char| v * 10 + (c as int - 48)),
    decreases count + s.len(),
{
    let t = zeros(count) + s;
    reveal_with_fuel(Seq::fold_left, 2);
    if s.len() > 0 {
        zeros_read_as_nothing(count, s.drop_last());
        assert(t.drop_last() =~= zeros(count) + s.drop_last());
    } else if count > 0 {
        zeros_read_as_nothing((count - 1) as nat, s);
        assert(t.drop_last() =~= zeros((count - 1) as nat) + s);
    } else {
        assert(t =~= s);
    }
}

} // verus!
