//! The proleptic Gregorian calendar of the first version of the program:
//! local dates and times from Unix time and a fixed offset.

use vstd::prelude::*;
use crate::text::{decimal, push_decimal, text_equals};

verus! {

/// Whether `y` is a leap year: divisible by four, and not by a hundred
/// unless by four hundred.
pub open spec fn is_leap(y: int) -> bool {
    (y % 4 == 0 && y % 100 != 0) || y % 400 == 0
}

/// The number of days of the year `y`.
pub open spec fn year_length(y: int) -> int {
    if is_leap(y) {
        366
    } else {
        365
    }
}

/// The number of days of the month `m` of the year `y`.
pub open spec fn month_length(y: int, m: int) -> int {
    if m == 2 {
        if is_leap(y) {
            29
        } else {
            28
        }
    } else if m == 4 || m == 6 || m == 9 || m == 11 {
        30
    } else {
        31
    }
}

/// The number of days of the year `y` before the month `m`.
pub open spec fn days_before_month(y: int, m: int) -> int
    decreases m,
{
    if m <= 1 {
        0
    } else {
        days_before_month(y, m - 1) + month_length(y, m - 1)
    }
}

/// The number of leap years among the years one to `n`, extended to all
/// integers.
pub open spec fn leaps_through(n: int) -> int {
    n / 4 - n / 100 + n / 400
}

/// The number of days from 1970-01-01 to the first day of the year `y`
/// (negative before 1970).
pub open spec fn days_to_year(y: int) -> int {
    365 * (y - 1970) + leaps_through(y - 1) - leaps_through(1969)
}

/// The number of days from 1970-01-01 to the date `y-m-d`.
pub open spec fn date_days(y: int, m: int, d: int) -> int {
    days_to_year(y) + days_before_month(y, m) + d - 1
}

/// Whether `y-m-d` is a date of the calendar.
pub open spec fn valid_date(y: int, m: int, d: int) -> bool {
    1 <= m <= 12 && 1 <= d <= month_length(y, m)
}

/// From one year to the next, the leap years counted grow by one exactly
/// when the year is a leap year.
pub proof fn lemma_leap_count_step(y: int)
    ensures
        leaps_through(y) - leaps_through(y - 1) == if is_leap(y) {
            1int
        } else {
            0int
        },
{
    assert(y / 4 - (y - 1) / 4 == if y % 4 == 0 {
        1int
    } else {
        0int
    }) by (nonlinear_arith);
    assert(y / 100 - (y - 1) / 100 == if y % 100 == 0 {
        1int
    } else {
        0int
    }) by (nonlinear_arith);
    assert(y / 400 - (y - 1) / 400 == if y % 400 == 0 {
        1int
    } else {
        0int
    }) by (nonlinear_arith);
    assert(y % 400 == 0 ==> y % 100 == 0 && y % 4 == 0) by (nonlinear_arith);
    assert(y % 100 == 0 ==> y % 4 == 0) by (nonlinear_arith);
}

/// The first day of the next year comes a year's length later.
pub proof fn lemma_year_step(y: int)
    ensures
        days_to_year(y + 1) == days_to_year(y) + year_length(y),
{
    lemma_leap_count_step(y);
}

/// Four hundred years are 146097 days, and 1970 starts such a cycle.
pub proof fn lemma_era(k: int)
    ensures
        days_to_year(1970 + 400 * k) == 146097 * k,
{
    assert((1969 + 400 * k) / 4 == 492 + 100 * k) by (nonlinear_arith);
    assert((1969 + 400 * k) / 100 == 19 + 4 * k) by (nonlinear_arith);
    assert((1969 + 400 * k) / 400 == 4 + k) by (nonlinear_arith);
    assert(1969int / 4 == 492 && 1969int / 100 == 19 && 1969int / 400 == 4);
}

/// The months of a year add up to the year.
pub proof fn lemma_months_fill_the_year(y: int)
    ensures
        days_before_month(y, 13) == year_length(y),
        forall|m: int| 1 <= m <= 12 ==> days_before_month(y, m + 1) == days_before_month(y, m)
            + month_length(y, m),
{
    reveal_with_fuel(days_before_month, 13);
}

/// `a` divided by `b`, rounded down.
fn floor_div(a: i64, b: i64) -> (r: i64)
    requires
        b > 0,
    ensures
        r == a as int / b as int,
        (r as int) * (b as int) <= a,
        a < (r as int + 1) * (b as int),
{
    let q = if a >= 0 {
        a / b
    } else {
        -((-(a + 1)) / b) - 1
    };
    assert(q == a as int / b as int && q * b <= a && a < (q + 1) * b) by (nonlinear_arith)
        requires
            b > 0,
            a >= 0 ==> q == (a as int) / (b as int),
            a < 0 ==> q == -((-(a as int + 1)) / (b as int)) - 1,
    ;
    q
}

/// A year's divisibility by four, a hundred and four hundred does not
/// change when four thousand million years are added.
proof fn lemma_leap_shift(y: int)
    ensures
        is_leap(y) == is_leap(y + 4_000_000_000),
{
    vstd::arithmetic::div_mod::lemma_mod_multiples_vanish(1_000_000_000, y, 4);
    vstd::arithmetic::div_mod::lemma_mod_multiples_vanish(40_000_000, y, 100);
    vstd::arithmetic::div_mod::lemma_mod_multiples_vanish(10_000_000, y, 400);
}

/// Whether `year` is a leap year, for the years the calendar handles.
fn leap(year: i64) -> (r: bool)
    requires
        -4_000_000_000 <= year <= 4_000_000_000,
    ensures
        r == is_leap(year as int),
{
    proof {
        lemma_leap_shift(year as int);
    }
    let y = (year + 4_000_000_000) as u64;
    (y % 4 == 0 && y % 100 != 0) || y % 400 == 0
}

/// Whether `year` is a leap year.
pub fn is_leap_year(year: i32) -> (r: bool)
    ensures
        r == is_leap(year as int),
{
    leap(year as i64)
}

/// The number of days of the year `year`.
fn days_in_year(year: i64) -> (r: i64)
    requires
        -4_000_000_000 <= year <= 4_000_000_000,
    ensures
        r == year_length(year as int),
{
    if leap(year) {
        366
    } else {
        365
    }
}

/// The number of days of the month `month` of the year `year`.
fn days_in_month(year: i64, month: i64) -> (r: i64)
    requires
        -4_000_000_000 <= year <= 4_000_000_000,
    ensures
        r == month_length(year as int, month as int),
{
    if month == 2 {
        if leap(year) {
            29
        } else {
            28
        }
    } else if month == 4 || month == 6 || month == 9 || month == 11 {
        30
    } else {
        31
    }
}

/// Each later year starts at least a year later.
pub proof fn lemma_days_to_year_grows(a: int, b: int)
    requires
        a < b,
    ensures
        days_to_year(a) + 365 <= days_to_year(b),
    decreases b - a,
{
    lemma_year_step(a);
    if a + 1 < b {
        lemma_days_to_year_grows(a + 1, b);
    }
}

/// The earliest day whose year still fits an `i32`.
pub open spec fn first_day() -> int {
    days_to_year(i32::MIN + 1)
}

/// The day after the last day whose year fits an `i32`.
pub open spec fn end_day() -> int {
    days_to_year(i32::MAX as int)
}

/// The date of the day `days` after 1970-01-01: the year, the month from
/// one and the day of the month from one.
pub fn civil_from_days(days_since_unix_epoch: i64) -> (r: (i32, u32, u32))
    requires
        first_day() <= days_since_unix_epoch < end_day(),
    ensures
        valid_date(r.0 as int, r.1 as int, r.2 as int),
        date_days(r.0 as int, r.1 as int, r.2 as int) == days_since_unix_epoch,
{
    let days = days_since_unix_epoch;
    proof {
        assert(-800_000_000_000 < first_day() && end_day() < 800_000_000_000);
    }
    let era = floor_div(days, 146097);
    proof {
        assert(-5_500_000 <= era <= 5_500_000) by (nonlinear_arith)
            requires
                era * 146097 <= days,
                days < (era + 1) * 146097,
                -800_000_000_000 < days < 800_000_000_000,
        ;
        lemma_era(era as int);
        lemma_era(era as int + 1);
    }
    let base: i64 = 1970 + 400 * era;
    let mut rem: i64 = days - era * 146097;
    let mut year: i64 = base;
    while rem >= days_in_year(year)
        invariant
            -3_000_000_000 <= base <= 3_000_000_000,
            base <= year < base + 400,
            days_to_year(base + 400) == 146097 * (era + 1),
            days < 146097 * (era + 1),
            days_to_year(year as int) + rem == days,
            0 <= rem,
        decreases rem,
    {
        proof {
            lemma_year_step(year as int);
        }
        rem = rem - days_in_year(year);
        year = year + 1;
    }
    proof {
        lemma_year_step(year as int);
        if year >= i32::MAX {
            if year > i32::MAX {
                lemma_days_to_year_grows(i32::MAX as int, year as int);
            }
        }
        if year <= i32::MIN {
            if year + 1 < i32::MIN + 1 {
                lemma_days_to_year_grows(year as int + 1, i32::MIN + 1);
            }
        }
    }
    proof {
        lemma_months_fill_the_year(year as int);
    }
    let mut month: i64 = 1;
    while rem >= days_in_month(year, month)
        invariant
            -4_000_000_000 <= year <= 4_000_000_000,
            1 <= month <= 12,
            0 <= rem,
            days_before_month(year as int, month as int) + rem < year_length(year as int),
            days_to_year(year as int) + days_before_month(year as int, month as int) + rem == days,
            days_before_month(year as int, 13) == year_length(year as int),
            forall|m: int|
                1 <= m <= 12 ==> days_before_month(year as int, m + 1) == days_before_month(
                    year as int,
                    m,
                ) + month_length(year as int, m),
        decreases 12 - month,
    {
        rem = rem - days_in_month(year, month);
        month = month + 1;
    }
    (year as i32, month as u32, (rem + 1) as u32)
}

/// A local date and time, and its offset from UTC in minutes.
#[derive(Clone, Copy, Debug, PartialEq, Eq, Structural)]
pub struct LocalDateTime {
    pub year: i32,
    pub month: u32,
    pub day: u32,
    pub hour: u32,
    pub minute: u32,
    pub second: u32,
    pub utc_offset_minutes: i32,
}

/// The local second counted from 1970-01-01 00:00 of a time.
pub open spec fn local_seconds(t: LocalDateTime) -> int {
    date_days(t.year as int, t.month as int, t.day as int) * 86400 + t.hour * 3600 + t.minute * 60
        + t.second
}

/// Whether the Unix time `unix_seconds` at the offset `offset_minutes`
/// falls on a day whose year fits an `i32`.
pub open spec fn representable(unix_seconds: int, offset_minutes: int) -> bool {
    let local = unix_seconds + offset_minutes * 60;
    &&& i64::MIN <= local <= i64::MAX
    &&& first_day() <= local / 86400 < end_day()
}

impl LocalDateTime {
    /// The local date and time of `unix_seconds` at `utc_offset_minutes`
    /// from UTC.
    pub fn from_unix_seconds_with_offset(unix_seconds: i64, utc_offset_minutes: i32) -> (r: Self)
        requires
            representable(unix_seconds as int, utc_offset_minutes as int),
        ensures
            valid_date(r.year as int, r.month as int, r.day as int),
            r.hour < 24 && r.minute < 60 && r.second < 60,
            local_seconds(r) == unix_seconds + utc_offset_minutes * 60,
            r.utc_offset_minutes == utc_offset_minutes,
    {
        let local = unix_seconds + (utc_offset_minutes as i64) * 60;
        let days = floor_div(local, 86_400);
        let seconds_of_day = local - days * 86_400;
        let (year, month, day) = civil_from_days(days);
        let hour = (seconds_of_day / 3600) as u32;
        let minute = ((seconds_of_day % 3600) / 60) as u32;
        let second = (seconds_of_day % 60) as u32;
        assert(seconds_of_day == (seconds_of_day / 3600) * 3600 + ((seconds_of_day % 3600) / 60)
            * 60 + seconds_of_day % 60) by (nonlinear_arith)
            requires
                0 <= seconds_of_day < 86400,
        ;
        LocalDateTime { year, month, day, hour, minute, second, utc_offset_minutes }
    }

    /// The day of the year, from one: the days of the months before this
    /// one, plus the day of the month.
    pub fn day_of_year(self) -> (r: u32)
        requires
            self.month <= 13,
            self.day + 366 <= u32::MAX,
        ensures
            r == days_before_month(self.year as int, self.month as int) + self.day,
    {
        let leap = is_leap_year(self.year);
        let mut total: u32 = 0;
        let mut m: u32 = 1;
        proof {
            lemma_months_fill_the_year(self.year as int);
        }
        while m < self.month
            invariant
                1 <= m <= 13,
                self.month <= 13,
                leap == is_leap(self.year as int),
                m <= self.month || m == 1,
                total == days_before_month(self.year as int, m as int),
                total <= 366,
                days_before_month(self.year as int, 13) <= 366,
                forall|k: int|
                    1 <= k <= 12 ==> days_before_month(self.year as int, k + 1)
                        == days_before_month(self.year as int, k) + month_length(
                        self.year as int,
                        k as int,
                    ),
            decreases 13 - m,
        {
            let length: u32 = if m == 2 {
                if leap {
                    29
                } else {
                    28
                }
            } else if m == 4 || m == 6 || m == 9 || m == 11 {
                30
            } else {
                31
            };
            proof {
                lemma_days_before_month_grows(self.year as int, m as int + 1);
            }
            total = total + length;
            m = m + 1;
        }
        proof {
            if self.month <= 1 {
                assert(days_before_month(self.year as int, self.month as int) == 0);
                assert(total == 0);
            } else {
                assert(m == self.month);
            }
        }
        total + self.day
    }

    /// The time in ISO 8601 form with its offset, such as
    /// `2026-06-29T21:15:00+08:00`.
    pub fn iso8601(self) -> (r: String)
        requires
            self.utc_offset_minutes != i32::MIN,
        ensures
            r@ == iso_text(self),
    {
        let mut out = String::new();
        push_padded_signed(&mut out, self.year as i64, 4);
        out.append("-");
        push_padded(&mut out, self.month as u64, 2);
        out.append("-");
        push_padded(&mut out, self.day as u64, 2);
        out.append("T");
        push_padded(&mut out, self.hour as u64, 2);
        out.append(":");
        push_padded(&mut out, self.minute as u64, 2);
        out.append(":");
        push_padded(&mut out, self.second as u64, 2);
        let magnitude: u64 = if self.utc_offset_minutes >= 0 {
            out.append("+");
            self.utc_offset_minutes as u64
        } else {
            out.append("-");
            (-(self.utc_offset_minutes as i64)) as u64
        };
        push_padded(&mut out, magnitude / 60, 2);
        out.append(":");
        push_padded(&mut out, magnitude % 60, 2);
        proof {
            reveal_strlit("-");
            reveal_strlit("T");
            reveal_strlit(":");
            reveal_strlit("+");
            assert(out@ =~= iso_text(self));
        }
        out
    }
}

/// The days before a later month are at least as many.
proof fn lemma_days_before_month_grows(y: int, m: int)
    requires
        1 <= m,
    ensures
        days_before_month(y, m) >= 0,
    decreases m,
{
    if m > 1 {
        lemma_days_before_month_grows(y, m - 1);
    }
}

/// `k` zeros, none when `k` is not positive.
pub open spec fn zeros(k: int) -> Seq<char> {
    Seq::new(if k > 0 {
        k as nat
    } else {
        0
    }, |i: int| '0')
}

/// The decimal numeral of `n`, padded with zeros to `width` characters.
pub open spec fn padded(n: nat, width: int) -> Seq<char> {
    zeros(width - decimal(n).len()) + decimal(n)
}

/// The decimal numeral of `n` with its sign, padded with zeros after the
/// sign to `width` characters.
pub open spec fn padded_signed(n: int, width: int) -> Seq<char> {
    if n < 0 {
        "-"@ + zeros(width - 1 - decimal((-n) as nat).len()) + decimal((-n) as nat)
    } else {
        padded(n as nat, width)
    }
}

/// The ISO 8601 text of a time with its offset.
pub open spec fn iso_text(t: LocalDateTime) -> Seq<char> {
    let magnitude: nat = if t.utc_offset_minutes >= 0 {
        t.utc_offset_minutes as nat
    } else {
        (-t.utc_offset_minutes) as nat
    };
    padded_signed(t.year as int, 4) + "-"@ + padded(t.month as nat, 2) + "-"@ + padded(
        t.day as nat,
        2,
    ) + "T"@ + padded(t.hour as nat, 2) + ":"@ + padded(t.minute as nat, 2) + ":"@ + padded(
        t.second as nat,
        2,
    ) + (if t.utc_offset_minutes >= 0 {
        "+"@
    } else {
        "-"@
    }) + padded(magnitude / 60, 2) + ":"@ + padded(magnitude % 60, 2)
}

/// Appends `k` zeros to `out`.
fn push_zeros(out: &mut String, k: usize)
    ensures
        final(out)@ == old(out)@ + zeros(k as int),
{
    let mut i: usize = 0;
    while i < k
        invariant
            0 <= i <= k,
            out@ == old(out)@ + zeros(i as int),
        decreases k - i,
    {
        out.append("0");
        proof {
            reveal_strlit("0");
        }
        i += 1;
        assert(out@ =~= old(out)@ + zeros(i as int));
    }
}

/// Appends the decimal numeral of `n`, padded with zeros to `width`.
fn push_padded(out: &mut String, n: u64, width: usize)
    ensures
        final(out)@ == old(out)@ + padded(n as nat, width as int),
{
    let mut digits = String::new();
    push_decimal(&mut digits, n);
    let len = digits.as_str().unicode_len();
    if len < width {
        push_zeros(out, width - len);
    } else {
        push_zeros(out, 0);
    }
    out.append(digits.as_str());
    assert(digits@ =~= decimal(n as nat));
    assert(out@ =~= old(out)@ + padded(n as nat, width as int));
}

/// Appends the decimal numeral of `n` with its sign, padded with zeros
/// after the sign to `width`.
fn push_padded_signed(out: &mut String, n: i64, width: usize)
    requires
        n > i64::MIN,
        width >= 1,
    ensures
        final(out)@ == old(out)@ + padded_signed(n as int, width as int),
{
    if n < 0 {
        out.append("-");
        proof {
            reveal_strlit("-");
        }
        let mut digits = String::new();
        push_decimal(&mut digits, (-n) as u64);
        let len = digits.as_str().unicode_len();
        if len < width - 1 {
            push_zeros(out, width - 1 - len);
        } else {
            push_zeros(out, 0);
        }
        out.append(digits.as_str());
        assert(out@ =~= old(out)@ + padded_signed(n as int, width as int));
    } else {
        push_padded(out, n as u64, width);
    }
}

/// The offset from UTC, in minutes, of the time zones the first version
/// knew: eight hours for China and Singapore and by default, none for UTC.
pub open spec fn zone_offset(name: Seq<char>) -> int {
    if name == "UTC"@ || name == "Etc/UTC"@ || name == "Z"@ {
        0
    } else {
        480
    }
}

/// The offset from UTC, in minutes, of a time zone.
pub fn timezone_offset_minutes(timezone_name: &str) -> (r: i32)
    ensures
        r == zone_offset(timezone_name@),
{
    proof {
        reveal_strlit("UTC");
        reveal_strlit("Etc/UTC");
        reveal_strlit("Z");
    }
    if text_equals(timezone_name, "UTC") || text_equals(timezone_name, "Etc/UTC") || text_equals(
        timezone_name,
        "Z",
    ) {
        0
    } else {
        480
    }
}

/// The minute of the day of a time, brought into `0..=1439`.
pub fn local_time_minutes(now: LocalDateTime) -> (r: i32)
    requires
        now.hour * 60 + now.minute <= i32::MAX,
    ensures
        r == if now.hour * 60 + now.minute > 1439 {
            1439
        } else {
            now.hour * 60 + now.minute
        },
{
    let minutes = now.hour as i32 * 60 + now.minute as i32;
    if minutes > 1439 {
        1439
    } else {
        minutes
    }
}

} // verus!
