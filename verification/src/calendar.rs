//! Calendar values as plain data, and the trusted interface to chrono.
//!
//! A [`Date`] or [`Time`] holds exactly what the event logic reads: integers.
//! Turning a canonical string such as `"24 Feb 2023"` or `"5:30 PM"` into
//! such a value is chrono's work; it sits behind the `external_body`
//! functions below, whose contracts name the parsers' results.

use vstd::prelude::*;

verus! {

/// A calendar date as plain values: a proleptic Gregorian year and a
/// one-based month and day.
#[derive(Clone, Copy, PartialEq, Eq, Structural, Debug)]
pub struct Date {
    pub year: i32,
    pub month: u8,
    pub day: u8,
}

/// A clock time of day as plain values: a 24-hour hour and a minute.
#[derive(Clone, Copy, PartialEq, Eq, Structural, Debug)]
pub struct Time {
    pub hour: u8,
    pub minute: u8,
}

/// A real calendar date, as chrono guarantees of every date it returns:
/// month and day one-based and in range, year within chrono's span.
pub open spec fn date_wf(d: Date) -> bool {
    &&& 1 <= d.month <= 12
    &&& 1 <= d.day <= 31
    &&& -262143 <= d.year <= 262142
}

/// A real time of day, as chrono guarantees of every time it returns.
pub open spec fn time_wf(t: Time) -> bool {
    t.hour < 24 && t.minute < 60
}

/// What chrono's `NaiveDate::parse_from_str` with format `"%d %b %Y"` makes
/// of a string: `None` where it errors, otherwise the `(year, month, day)`
/// it returns. The result depends on the characters alone.
pub uninterp spec fn date_of_str(s: Seq<char>) -> Option<(int, int, int)>;

/// What chrono's `NaiveTime::parse_from_str` with format `"%I:%M %P"` makes
/// of a string: `None` where it errors, otherwise the `(hour, minute)` it
/// returns, with the hour on the 24-hour clock. The result depends on the
/// characters alone.
pub uninterp spec fn time_of_str(s: Seq<char>) -> Option<(int, int)>;

/// Relies on `chrono::NaiveDate::parse_from_str` with the `"%d %b %Y"`
/// format: the result is a function of the input string alone, and a parsed
/// date is a real calendar date (chrono documents `month()` as 1 to 12,
/// `day()` as 1 to 31, and bounds the year). The error text is chrono's.
#[verifier::external_body]
pub(crate) fn chrono_parse_date(s: &str) -> (r: Result<Date, String>)
    ensures
        match r {
            Ok(d) => date_of_str(s@) == Some((d.year as int, d.month as int, d.day as int))
                && date_wf(d),
            Err(_) => date_of_str(s@) is None,
        },
{
    match chrono::NaiveDate::parse_from_str(s, "%d %b %Y") {
        Ok(d) => Ok(Date {
            year: chrono::Datelike::year(&d),
            month: chrono::Datelike::month(&d) as u8,
            day: chrono::Datelike::day(&d) as u8,
        }),
        Err(e) => Err(e.to_string()),
    }
}

/// Relies on `chrono::NaiveTime::parse_from_str` with the `"%I:%M %P"`
/// format: the result is a function of the input string alone, and a parsed
/// time is a real time of day (chrono documents `hour()` as 0 to 23 and
/// `minute()` as 0 to 59). The error text is chrono's.
#[verifier::external_body]
pub(crate) fn chrono_parse_time(s: &str) -> (r: Result<Time, String>)
    ensures
        match r {
            Ok(t) => time_of_str(s@) == Some((t.hour as int, t.minute as int))
                && time_wf(t),
            Err(_) => time_of_str(s@) is None,
        },
{
    match chrono::NaiveTime::parse_from_str(s, "%I:%M %P") {
        Ok(t) => Ok(Time {
            hour: chrono::Timelike::hour(&t) as u8,
            minute: chrono::Timelike::minute(&t) as u8,
        }),
        Err(e) => Err(e.to_string()),
    }
}

/// Relies on `chrono::Utc::now` and `Datelike::year`: the current UTC year
/// at the moment of the call. Nothing more is promised of it than chrono's
/// bound on the years its dates can hold.
#[verifier::external_body]
pub(crate) fn current_year() -> (y: i32)
    ensures
        -262143 <= y <= 262142,
{
    chrono::Datelike::year(&chrono::Utc::now())
}

/// The decimal digit character for `d`.
pub open spec fn dec_digit(d: int) -> char {
    if d == 0 { '0' }
    else if d == 1 { '1' }
    else if d == 2 { '2' }
    else if d == 3 { '3' }
    else if d == 4 { '4' }
    else if d == 5 { '5' }
    else if d == 6 { '6' }
    else if d == 7 { '7' }
    else if d == 8 { '8' }
    else { '9' }
}

/// The usual decimal rendering of a nonnegative integer, no leading zeros.
pub open spec fn dec_seq(n: int) -> Seq<char>
    decreases n when n >= 0
{
    if n < 10 {
        seq![dec_digit(n)]
    } else {
        dec_seq(n / 10) + seq![dec_digit(n % 10)]
    }
}

/// Decimal rendering of any integer, with a leading `-` when negative.
pub open spec fn dec_seq_int(n: int) -> Seq<char> {
    if n < 0 {
        seq!['-'] + dec_seq(-n)
    } else {
        dec_seq(n)
    }
}

/// The one-character string for a decimal digit.
fn digit_str(x: u32) -> (r: &'static str)
    requires
        x < 10,
    ensures
        r@ == seq![dec_digit(x as int)],
{
    proof {
        reveal_strlit("0");
        reveal_strlit("1");
        reveal_strlit("2");
        reveal_strlit("3");
        reveal_strlit("4");
        reveal_strlit("5");
        reveal_strlit("6");
        reveal_strlit("7");
        reveal_strlit("8");
        reveal_strlit("9");
    }
    let r = if x == 0 { "0" }
    else if x == 1 { "1" }
    else if x == 2 { "2" }
    else if x == 3 { "3" }
    else if x == 4 { "4" }
    else if x == 5 { "5" }
    else if x == 6 { "6" }
    else if x == 7 { "7" }
    else if x == 8 { "8" }
    else { "9" };
    proof {
        assert(r@ =~= seq![dec_digit(x as int)]);
    }
    r
}

/// Renders `x` in decimal.
pub fn u32_to_string(x: u32) -> (r: String)
    ensures
        r@ == dec_seq(x as int),
    decreases x,
{
    if x < 10 {
        let d = digit_str(x);
        let r = String::from_str(d);
        r
    } else {
        let mut s = u32_to_string(x / 10);
        let d = digit_str(x % 10);
        s.append(d);
        proof {
            assert(s@ =~= dec_seq((x / 10) as int) + seq![dec_digit((x % 10) as int)]);
        }
        s
    }
}

/// Renders `x` in decimal, with a leading `-` when negative.
pub fn i32_to_string(x: i32) -> (r: String)
    ensures
        r@ == dec_seq_int(x as int),
{
    if x >= 0 {
        u32_to_string(x as u32)
    } else {
        let neg: i64 = -(x as i64);
        assert(0 <= neg <= u32::MAX);
        let mag: u32 = neg as u32;
        let mut s = String::from_str("-");
        let t = u32_to_string(mag);
        s.append(t.as_str());
        proof {
            reveal_strlit("-");
            assert(s@ =~= seq!['-'] + dec_seq(-(x as int)));
        }
        s
    }
}

/// Two decimal digits, zero padded.
pub open spec fn pad2(n: int) -> Seq<char> {
    seq![dec_digit(n / 10), dec_digit(n % 10)]
}

/// Four decimal digits, zero padded.
pub open spec fn pad4(n: int) -> Seq<char> {
    seq![
        dec_digit(n / 1000),
        dec_digit((n / 100) % 10),
        dec_digit((n / 10) % 10),
        dec_digit(n % 10),
    ]
}

/// The short English month name for a one-based month number.
pub open spec fn month_abbrev(m: int) -> Seq<char> {
    if m == 1 { seq!['J', 'a', 'n'] }
    else if m == 2 { seq!['F', 'e', 'b'] }
    else if m == 3 { seq!['M', 'a', 'r'] }
    else if m == 4 { seq!['A', 'p', 'r'] }
    else if m == 5 { seq!['M', 'a', 'y'] }
    else if m == 6 { seq!['J', 'u', 'n'] }
    else if m == 7 { seq!['J', 'u', 'l'] }
    else if m == 8 { seq!['A', 'u', 'g'] }
    else if m == 9 { seq!['S', 'e', 'p'] }
    else if m == 10 { seq!['O', 'c', 't'] }
    else if m == 11 { seq!['N', 'o', 'v'] }
    else { seq!['D', 'e', 'c'] }
}

/// The rendering a date record serializes to: `"DD Mon YYYY"`, day and
/// year zero padded.
pub open spec fn date_fmt(d: Date) -> Seq<char> {
    pad2(d.day as int) + seq![' '] + month_abbrev(d.month as int) + seq![' '] + pad4(
        d.year as int,
    )
}

/// The hour on the 12-hour clock.
pub open spec fn hour12(h: int) -> int {
    if h % 12 == 0 {
        12
    } else {
        h % 12
    }
}

/// The rendering a time record serializes to: `"HH:MM am|pm"`, hour on the
/// 12-hour clock and zero padded, meridiem in lower case.
pub open spec fn time_fmt(t: Time) -> Seq<char> {
    pad2(hour12(t.hour as int)) + seq![':'] + pad2(t.minute as int) + seq![' '] + (
    if t.hour < 12 {
        seq!['a', 'm']
    } else {
        seq!['p', 'm']
    })
}

/// The short month name as a string.
fn month_str(m: u8) -> (r: &'static str)
    requires
        1 <= m <= 12,
    ensures
        r@ == month_abbrev(m as int),
{
    proof {
        reveal_strlit("Jan");
        reveal_strlit("Feb");
        reveal_strlit("Mar");
        reveal_strlit("Apr");
        reveal_strlit("May");
        reveal_strlit("Jun");
        reveal_strlit("Jul");
        reveal_strlit("Aug");
        reveal_strlit("Sep");
        reveal_strlit("Oct");
        reveal_strlit("Nov");
        reveal_strlit("Dec");
    }
    let r = if m == 1 { "Jan" }
    else if m == 2 { "Feb" }
    else if m == 3 { "Mar" }
    else if m == 4 { "Apr" }
    else if m == 5 { "May" }
    else if m == 6 { "Jun" }
    else if m == 7 { "Jul" }
    else if m == 8 { "Aug" }
    else if m == 9 { "Sep" }
    else if m == 10 { "Oct" }
    else if m == 11 { "Nov" }
    else { "Dec" };
    proof {
        assert(r@ =~= month_abbrev(m as int));
    }
    r
}

/// Renders a date the way the record serializer writes it: `"DD Mon
/// YYYY"`. Only years the four-digit form can carry are accepted.
pub fn format_date(d: &Date) -> (r: String)
    requires
        date_wf(*d),
        0 <= d.year <= 9999,
    ensures
        r@ == date_fmt(*d),
{
    let mut s = String::new();
    let day = d.day as u32;
    s.append(digit_str(day / 10));
    s.append(digit_str(day % 10));
    s.append(" ");
    s.append(month_str(d.month));
    s.append(" ");
    let y = d.year as u32;
    s.append(digit_str(y / 1000));
    s.append(digit_str((y / 100) % 10));
    s.append(digit_str((y / 10) % 10));
    s.append(digit_str(y % 10));
    proof {
        reveal_strlit(" ");
        assert(s@ =~= date_fmt(*d));
    }
    s
}

/// Renders a time the way the record serializer writes it: `"HH:MM
/// am|pm"`.
pub fn format_time(t: &Time) -> (r: String)
    requires
        time_wf(*t),
    ensures
        r@ == time_fmt(*t),
{
    let h12: u32 = if t.hour % 12 == 0 {
        12
    } else {
        (t.hour % 12) as u32
    };
    let mut s = String::new();
    s.append(digit_str(h12 / 10));
    s.append(digit_str(h12 % 10));
    s.append(":");
    s.append(digit_str((t.minute as u32) / 10));
    s.append(digit_str((t.minute as u32) % 10));
    s.append(" ");
    if t.hour < 12 {
        s.append("am");
    } else {
        s.append("pm");
    }
    proof {
        reveal_strlit(":");
        reveal_strlit(" ");
        reveal_strlit("am");
        reveal_strlit("pm");
        assert(s@ =~= time_fmt(*t));
    }
    s
}

} // verus!
