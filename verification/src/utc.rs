//! Points in time as UTC text.

use vstd::prelude::*;
use vstd::string::*;

use crate::fixed::quotient;
use crate::text::{digit, integer_text};

verus! {

/// Milliseconds of a day.
pub const DAY_MS: i64 = 86_400_000;

/// Days from the first day of year 0 to that of 1970.
pub const DAYS_TO_1970: i64 = 719_528;

/// Whether a year has a 29th of February.
pub open spec fn is_leap(y: int) -> bool {
    y % 4 == 0 && (y % 100 != 0 || y % 400 == 0)
}

/// Days from the first day of year 0 to that of year `y`.
pub open spec fn days_before_year(y: int) -> int {
    365 * y + (y + 3) / 4 - (y + 99) / 100 + (y + 399) / 400
}

/// Days of a month.
pub open spec fn month_len(y: int, m: int) -> int {
    if m == 2 {
        if is_leap(y) {
            29
        } else {
            28
        }
    } else if m == 4 || m == 6 || m == 9 || m == 11 {
        30
    } else {
        31
    }
}

/// Days of the year before month `m`.
pub open spec fn days_before_month(y: int, m: int) -> int
    decreases m,
{
    if m <= 1 {
        0
    } else {
        days_before_month(y, m - 1) + month_len(y, m - 1)
    }
}

/// A day of the calendar: year, month, day of the month.
pub type Date = (int, int, int);

/// Whether a date is that of the day which lies `days` behind 1970-01-01.
pub open spec fn is_date(d: Date, days: int) -> bool {
    &&& 1 <= d.1 <= 12
    &&& 1 <= d.2 <= month_len(d.0, d.1)
    &&& days_before_year(d.0) + days_before_month(d.0, d.1) + d.2 - 1 - DAYS_TO_1970 == days
}

/// The date of the day which lies `days` behind 1970-01-01.
pub open spec fn date_of(days: int) -> Date {
    choose|d: Date| is_date(d, days)
}

/// A year is as long as its months.
proof fn lemma_year(y: int)
    ensures
        days_before_year(y + 1) - days_before_year(y) == if is_leap(y) {
            366int
        } else {
            365
        },
        days_before_month(y, 12) + 31 == if is_leap(y) {
            366int
        } else {
            365
        },
{
    assert((y + 4) / 4 - (y + 3) / 4 == if y % 4 == 0 {
        1int
    } else {
        0
    });
    assert((y + 100) / 100 - (y + 99) / 100 == if y % 100 == 0 {
        1int
    } else {
        0
    });
    assert((y + 400) / 400 - (y + 399) / 400 == if y % 400 == 0 {
        1int
    } else {
        0
    });
    assert(y % 100 == 0 ==> y % 4 == 0);
    assert(y % 400 == 0 ==> y % 100 == 0);
    lemma_months(y);
}

/// The months up to December.
proof fn lemma_months(y: int)
    ensures
        days_before_month(y, 12) == 306 + month_len(y, 2),
{
    assert(days_before_month(y, 1) == 0);
    assert(days_before_month(y, 2) == 31);
    assert(days_before_month(y, 3) == 31 + month_len(y, 2));
    assert(days_before_month(y, 4) == 62 + month_len(y, 2));
    assert(days_before_month(y, 5) == 92 + month_len(y, 2));
    assert(days_before_month(y, 6) == 123 + month_len(y, 2));
    assert(days_before_month(y, 7) == 153 + month_len(y, 2));
    assert(days_before_month(y, 8) == 184 + month_len(y, 2));
    assert(days_before_month(y, 9) == 215 + month_len(y, 2));
    assert(days_before_month(y, 10) == 245 + month_len(y, 2));
    assert(days_before_month(y, 11) == 276 + month_len(y, 2));
}

/// A later year begins later.
proof fn lemma_years_rise(a: int, b: int)
    requires
        a <= b,
    ensures
        days_before_year(b) - days_before_year(a) >= 365 * (b - a),
    decreases b - a,
{
    if a < b {
        lemma_years_rise(a, b - 1);
        lemma_year(b - 1);
    }
}

/// A later month begins behind the end of an earlier one.
proof fn lemma_months_rise(y: int, a: int, b: int)
    requires
        1 <= a < b,
    ensures
        days_before_month(y, a) + month_len(y, a) <= days_before_month(y, b),
    decreases b - a,
{
    if a < b - 1 {
        lemma_months_rise(y, a, b - 1);
    }
}

/// A date lies inside its year.
proof fn lemma_inside(d: Date, days: int)
    requires
        is_date(d, days),
    ensures
        days_before_year(d.0) <= days + DAYS_TO_1970 < days_before_year(d.0 + 1),
{
    lemma_year(d.0);
    if d.1 < 12 {
        lemma_months_rise(d.0, d.1, 12);
    }
    lemma_before_month(d.0, d.1);
}

proof fn lemma_before_month(y: int, m: int)
    ensures
        days_before_month(y, m) >= 0,
    decreases m,
{
    if m > 1 {
        lemma_before_month(y, m - 1);
    }
}

/// Every day has one date only.
pub proof fn a_day_has_one_date(a: Date, b: Date, days: int)
    requires
        is_date(a, days),
        is_date(b, days),
    ensures
        a == b,
{
    lemma_inside(a, days);
    lemma_inside(b, days);
    if a.0 < b.0 {
        lemma_years_rise(a.0 + 1, b.0);
    }
    if b.0 < a.0 {
        lemma_years_rise(b.0 + 1, a.0);
    }
    if a.1 < b.1 {
        lemma_months_rise(a.0, a.1, b.1);
    }
    if b.1 < a.1 {
        lemma_months_rise(a.0, b.1, a.1);
    }
}

/// A year is never longer than 366 days.
proof fn lemma_early(y: int)
    requires
        y <= 0,
    ensures
        days_before_year(y) >= 366 * y,
    decreases -y,
{
    if y < 0 {
        lemma_early(y + 1);
        lemma_year(y);
    }
}

/// The year that a search for a day starts from begins no later than the year
/// behind it.
proof fn lemma_bounds(z: int, y: int)
    requires
        -111_000_000_000 <= z <= 111_000_000_000,
        y == if z >= 0 {
            z / 365
        } else {
            z / 366
        },
    ensures
        -400_000_000 <= y <= 400_000_000,
        z < days_before_year(y + 1),
{
    if z < 0 {
        lemma_early(y + 1);
    }
}

/// Nor does the search run out of the years that are looked at.
proof fn lemma_far(y: int, z: int)
    requires
        -400_000_000 <= y,
        -111_000_000_000 <= z,
        z < days_before_year(y),
    ensures
        -400_000_000 < y,
{
}

/// `n / d` rounded down.
fn floor_div(n: i64, d: i64) -> (r: i64)
    requires
        d > 1,
    ensures
        r == n as int / d as int,
{
    proof {
        assert(i64::MIN <= n as int / d as int <= i64::MAX) by (nonlinear_arith)
            requires
                d > 1,
        ;
    }
    quotient(n as i128, d as i128) as i64
}

/// What is left of `n` after whole `d`s are taken out.
fn floor_rem(n: i64, d: i64) -> (r: i64)
    requires
        d > 1,
    ensures
        r == n as int % d as int,
        0 <= r < d,
{
    match n.checked_rem_euclid(d) {
        Some(rest) => rest,
        None => 0,
    }
}

fn year_start(y: i64) -> (r: i64)
    requires
        -400_000_000 <= y <= 400_000_000,
    ensures
        r == days_before_year(y as int),
{
    365 * y + floor_div(y + 3, 4) - floor_div(y + 99, 100) + floor_div(y + 399, 400)
}

fn leap(y: i64) -> (r: bool)
    ensures
        r == is_leap(y as int),
{
    floor_rem(y, 4) == 0 && (floor_rem(y, 100) != 0 || floor_rem(y, 400) == 0)
}

fn length_of(y: i64, m: i64) -> (r: i64)
    ensures
        r == month_len(y as int, m as int),
{
    if m == 2 {
        if leap(y) {
            29
        } else {
            28
        }
    } else if m == 4 || m == 6 || m == 9 || m == 11 {
        30
    } else {
        31
    }
}

/// The date of the day which lies `days` behind 1970-01-01.
pub fn civil_date(days: i64) -> (r: (i64, i64, i64))
    requires
        -110_000_000_000 <= days <= 110_000_000_000,
    ensures
        is_date((r.0 as int, r.1 as int, r.2 as int), days as int),
        (r.0 as int, r.1 as int, r.2 as int) == date_of(days as int),
{
    let z: i64 = days + DAYS_TO_1970;
    let mut y: i64 = if z >= 0 {
        floor_div(z, 365)
    } else {
        floor_div(z, 366)
    };
    proof {
        lemma_bounds(z as int, y as int);
    }
    let mut start: i64 = year_start(y);
    while start > z
        invariant
            -400_000_000 <= y <= 400_000_000,
            -111_000_000_000 <= z <= 111_000_000_000,
            start == days_before_year(y as int),
            z < days_before_year(y + 1),
        decreases y + 400_000_001,
    {
        proof {
            lemma_year(y - 1);
            lemma_far(y as int, z as int);
        }
        y = y - 1;
        start = year_start(y);
    }
    let mut rest: i64 = z - start;
    let mut m: i64 = 1;
    proof {
        lemma_year(y as int);
    }
    while m < 12 && rest >= length_of(y, m)
        invariant
            1 <= m <= 12,
            0 <= rest <= 366,
            start == days_before_year(y as int),
            rest == z - start - days_before_month(y as int, m as int),
            z - start < days_before_month(y as int, 12) + 31,
        decreases 12 - m,
    {
        rest = rest - length_of(y, m);
        m = m + 1;
    }
    proof {
        let d: Date = (y as int, m as int, rest + 1);
        assert(is_date(d, days as int));
        a_day_has_one_date(d, date_of(days as int), days as int);
    }
    (y, m, rest + 1)
}

/// `n` in two digits.
pub open spec fn two_digits(n: int) -> Seq<char> {
    seq![digit((n / 10 % 10) as nat), digit((n % 10) as nat)]
}

/// `n` in three digits.
pub open spec fn three_digits(n: int) -> Seq<char> {
    seq![digit((n / 100 % 10) as nat)] + two_digits(n % 100)
}

/// A year in four digits; one that has more, or lies before year 0, as a number.
pub open spec fn year_digits(y: int) -> Seq<char> {
    if 0 <= y <= 9999 {
        two_digits(y / 100) + two_digits(y % 100)
    } else {
        crate::text::integer(y)
    }
}

/// A point in time, given in milliseconds since the Unix epoch, in the form
/// `2026-09-02T23:28:39.745Z`.
pub open spec fn utc_text(ms: int) -> Seq<char> {
    let date = date_of(ms / (DAY_MS as int));
    let rest = ms % (DAY_MS as int);
    year_digits(date.0) + "-"@ + two_digits(date.1) + "-"@ + two_digits(date.2) + "T"@
        + two_digits(rest / 3_600_000) + ":"@ + two_digits(rest / 60_000 % 60) + ":"@ + two_digits(
        rest / 1_000 % 60,
    ) + "."@ + three_digits(rest % 1_000) + "Z"@
}

fn push_two(s: &mut String, n: i64)
    requires
        0 <= n <= 99,
    ensures
        final(s)@ == old(s)@ + two_digits(n as int),
{
    let ghost before = s@;
    let high: u8 = (n / 10) as u8;
    let low: u8 = (n % 10) as u8;
    s.push((48 + high) as char);
    s.push((48 + low) as char);
    assert(s@ =~= before + two_digits(n as int));
}

fn push_three(s: &mut String, n: i64)
    requires
        0 <= n <= 999,
    ensures
        final(s)@ == old(s)@ + three_digits(n as int),
{
    let ghost before = s@;
    let high: u8 = (n / 100) as u8;
    s.push((48 + high) as char);
    push_two(s, n % 100);
    assert(s@ =~= before + three_digits(n as int));
}

fn push_year(s: &mut String, y: i64)
    ensures
        final(s)@ == old(s)@ + year_digits(y as int),
{
    let ghost before = s@;
    if 0 <= y && y <= 9999 {
        push_two(s, y / 100);
        push_two(s, y % 100);
        assert(s@ =~= before + year_digits(y as int));
    } else {
        s.append(integer_text(y).as_str());
    }
}

/// A point in time, given in milliseconds since the Unix epoch, as text.
pub fn utc_from_ms(ms: i64) -> (r: String)
    ensures
        r@ == utc_text(ms as int),
{
    let (y, m, d): (i64, i64, i64) = civil_date(floor_div(ms, DAY_MS));
    let rest: i64 = floor_rem(ms, DAY_MS);
    let mut s: String = String::new();
    push_year(&mut s, y);
    s.append("-");
    push_two(&mut s, m);
    s.append("-");
    push_two(&mut s, d);
    s.append("T");
    push_two(&mut s, rest / 3_600_000);
    s.append(":");
    push_two(&mut s, rest / 60_000 % 60);
    s.append(":");
    push_two(&mut s, rest / 1_000 % 60);
    s.append(".");
    push_three(&mut s, rest % 1_000);
    s.append("Z");
    assert(Seq::<char>::empty() + year_digits(y as int) =~= year_digits(y as int));
    s
}

/// The day behind a day.
pub open spec fn next_day(d: Date) -> Date {
    let leap = (d.0 % 4 == 0 && d.0 % 100 != 0) || d.0 % 400 == 0;
    let last = if d.1 == 2 {
        if leap {
            29int
        } else {
            28
        }
    } else if d.1 == 4 || d.1 == 6 || d.1 == 9 || d.1 == 11 {
        30
    } else {
        31
    };
    if d.2 < last {
        (d.0, d.1, d.2 + 1)
    } else if d.1 < 12 {
        (d.0, d.1 + 1, 1)
    } else {
        (d.0 + 1, 1, 1)
    }
}

/// The calendar begins with the first of January 1970 and goes on day by day: February has
/// 29 days in a leap year, that is every fourth year but not the hundredth unless it is a
/// four hundredth.
pub proof fn the_calendar_goes_on_day_by_day(d: Date, days: int)
    ensures
        is_date((1970, 1, 1), 0),
        is_date(d, days) ==> is_date(next_day(d), days + 1),
{
    assert(days_before_month(1970, 1) == 0);
    if is_date(d, days) {
        let n = next_day(d);
        if d.2 >= month_len(d.0, d.1) {
            if d.1 < 12 {
                assert(days_before_month(d.0, d.1 + 1) == days_before_month(d.0, d.1) + month_len(
                    d.0,
                    d.1,
                ));
            } else {
                lemma_year(d.0);
                assert(days_before_month(d.0 + 1, 1) == 0);
            }
        }
    }
}

/// What two digits stand for.
pub open spec fn two_in(s: Seq<char>, at: int) -> int {
    10 * (s[at] as int - '0' as int) + (s[at + 1] as int - '0' as int)
}

/// Two digits stand for their number.
proof fn lemma_two_digits(n: int)
    requires
        0 <= n <= 99,
    ensures
        two_digits(n).len() == 2,
        two_in(two_digits(n), 0) == n,
{
}

/// The hours, minutes, seconds and thousandths of a day make it up.
proof fn lemma_time_of_day(rest: int)
    requires
        0 <= rest < 86_400_000,
    ensures
        ({
            let h = rest / 3_600_000;
            let m = rest / 60_000 % 60;
            let c = rest / 1_000 % 60;
            &&& 0 <= h < 24 && 0 <= m < 60 && 0 <= c < 60 && 0 <= rest % 1_000 < 1_000
            &&& ((h * 60 + m) * 60 + c) * 1_000 + rest % 1_000 == rest
        }),
{
    assert(rest / 3_600_000 == rest / 60_000 / 60);
    assert(rest / 60_000 == rest / 1_000 / 60);
}

/// The parts of a date and a time of day with their marks.
#[verifier::opaque]
spec fn joined(
    year: Seq<char>,
    month: Seq<char>,
    day: Seq<char>,
    hour: Seq<char>,
    minute: Seq<char>,
    second: Seq<char>,
    thousandths: Seq<char>,
) -> Seq<char> {
    year + "-"@ + month + "-"@ + day + "T"@ + hour + ":"@ + minute + ":"@ + second + "."@
        + thousandths + "Z"@
}

/// Where the parts of a date and a time of day stand.
proof fn lemma_layout(
    year: Seq<char>,
    month: Seq<char>,
    day: Seq<char>,
    hour: Seq<char>,
    minute: Seq<char>,
    second: Seq<char>,
    thousandths: Seq<char>,
)
    requires
        year.len() == 4,
        month.len() == 2 && day.len() == 2 && hour.len() == 2 && minute.len() == 2 && second.len()
            == 2,
        thousandths.len() == 3,
    ensures
        ({
            let s = joined(year, month, day, hour, minute, second, thousandths);
            &&& s.len() == 24
            &&& s[4] == '-' && s[7] == '-' && s[10] == 'T' && s[13] == ':' && s[16] == ':'
                && s[19] == '.' && s[23] == 'Z'
            &&& s[0] == year[0] && s[1] == year[1] && s[2] == year[2] && s[3] == year[3]
            &&& s[5] == month[0] && s[6] == month[1] && s[8] == day[0] && s[9] == day[1]
            &&& s[11] == hour[0] && s[12] == hour[1] && s[14] == minute[0] && s[15] == minute[1]
            &&& s[17] == second[0] && s[18] == second[1]
            &&& s[20] == thousandths[0] && s[21] == thousandths[1] && s[22] == thousandths[2]
        }),
{
    reveal(joined);
    reveal_strlit("-");
    reveal_strlit("T");
    reveal_strlit(":");
    reveal_strlit(".");
    reveal_strlit("Z");
}

/// Whether a text reads as a date and a time of day: the marks stand in their places, and
/// the digits between them stand for the date, and for hours, minutes, seconds and
/// thousandths that together are `rest` thousandths of a second.
#[verifier::opaque]
pub open spec fn reads_as(s: Seq<char>, d: Date, rest: int) -> bool {
    let hours = two_in(s, 11);
    let minutes = two_in(s, 14);
    let seconds = two_in(s, 17);
    let thousandths = 10 * two_in(s, 20) + (s[22] as int - '0' as int);
    &&& s.len() == 24
    &&& s[4] == '-' && s[7] == '-' && s[10] == 'T' && s[13] == ':' && s[16] == ':' && s[19] == '.'
        && s[23] == 'Z'
    &&& 100 * two_in(s, 0) + two_in(s, 2) == d.0
    &&& two_in(s, 5) == d.1
    &&& two_in(s, 8) == d.2
    &&& 0 <= hours < 24 && 0 <= minutes < 60 && 0 <= seconds < 60 && 0 <= thousandths < 1000
    &&& ((hours * 60 + minutes) * 60 + seconds) * 1000 + thousandths == rest
}

proof fn lemma_reads_as(d: Date, rest: int)
    requires
        0 <= d.0 <= 9999,
        0 <= d.1 <= 99,
        0 <= d.2 <= 99,
        0 <= rest < 86_400_000,
    ensures
        reads_as(
            joined(
                year_digits(d.0),
                two_digits(d.1),
                two_digits(d.2),
                two_digits(rest / 3_600_000),
                two_digits(rest / 60_000 % 60),
                two_digits(rest / 1_000 % 60),
                three_digits(rest % 1_000),
            ),
            d,
            rest,
        ),
{
    reveal(reads_as);
    let h = rest / 3_600_000;
    let m = rest / 60_000 % 60;
    let c = rest / 1_000 % 60;
    let t = rest % 1_000;
    lemma_time_of_day(rest);
    lemma_two_digits(d.0 / 100);
    lemma_two_digits(d.0 % 100);
    lemma_two_digits(d.1);
    lemma_two_digits(d.2);
    lemma_two_digits(h);
    lemma_two_digits(m);
    lemma_two_digits(c);
    lemma_two_digits(t % 100);
    assert(year_digits(d.0) == two_digits(d.0 / 100) + two_digits(d.0 % 100));
    assert(three_digits(t).len() == 3);
    lemma_layout(
        year_digits(d.0),
        two_digits(d.1),
        two_digits(d.2),
        two_digits(h),
        two_digits(m),
        two_digits(c),
        three_digits(t),
    );
    assert(three_digits(t)[0] as int - '0' as int == t / 100);
    assert(three_digits(t)[1] == two_digits(t % 100)[0]);
    assert(three_digits(t)[2] == two_digits(t % 100)[1]);
}

/// The text of a point in time reads as the date of its day and as the thousandths of a
/// second that have passed of it.
pub proof fn the_text_of_a_point_in_time(ms: int, d: Date)
    requires
        is_date(d, ms / 86_400_000),
        0 <= d.0 <= 9999,
    ensures
        reads_as(utc_text(ms), d, ms % 86_400_000),
{
    reveal(joined);
    a_day_has_one_date(d, date_of(ms / 86_400_000), ms / 86_400_000);
    lemma_reads_as(d, ms % 86_400_000);
}

} // verus!
