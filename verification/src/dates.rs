//! The date-field grammar: the three shapes a date text may take, and what
//! the normalizer makes of each.
//!
//! The shapes, tried in this order:
//! 1. single date `D[ ]Mon[ ][year]`,
//! 2. same-month range `D1[ ]-[ ]D2[ ]Mon[ ][year]`,
//! 3. cross-month range `D1[ ]Mon1[ ]-[ ]D2[ ]Mon2[ ][year]`,
//!
//! where each `[ ]` is one optional space, a day is one or two digits, a
//! month name is three to nine ASCII letters, and the year is four digits,
//! two digits, or absent (the current year then stands in). Every matched
//! shape is reassembled into canonical `"D Mon YYYY"` strings, which the
//! calendar-date parser turns into values.

use vstd::prelude::*;

use crate::calendar::Date;
use crate::calendar::date_fmt;
use crate::calendar::date_of_str;
use crate::calendar::date_wf;
use crate::calendar::dec_seq_int;
use crate::calendar::month_abbrev;
use crate::calendar::pad2;
use crate::calendar::pad4;
use crate::textscan::alpha_run_end;
use crate::textscan::alpha_run_end_exec;
use crate::textscan::digit_run_end;
use crate::textscan::digit_run_end_exec;

verus! {

/// Index just past one optional space at `i`.
pub open spec fn opt_space(s: Seq<char>, i: int) -> int {
    if 0 <= i < s.len() && s[i] == ' ' {
        i + 1
    } else {
        i
    }
}

/// From `ys` to the end of `s` stands a year field: four digits, two
/// digits, or nothing.
pub open spec fn year_ok(s: Seq<char>, ys: int) -> bool {
    &&& 0 <= ys <= s.len()
    &&& {
        let yl = s.len() - ys;
        (yl == 0 || yl == 2 || yl == 4) && digit_run_end(s, ys) == s.len()
    }
}

/// Shape 1, a single date: its `(day, month, year)` texts, or `None`.
pub open spec fn date_shape1(s: Seq<char>) -> Option<(Seq<char>, Seq<char>, Seq<char>)> {
    let de = digit_run_end(s, 0);
    if !(1 <= de <= 2) {
        None
    } else {
        let ms = opt_space(s, de);
        let me = alpha_run_end(s, ms);
        if !(3 <= me - ms && me - ms <= 9) {
            None
        } else {
            let ys = opt_space(s, me);
            if year_ok(s, ys) {
                Some(
                    (
                        s.subrange(0, de),
                        s.subrange(ms, me),
                        s.subrange(ys, s.len() as int),
                    ),
                )
            } else {
                None
            }
        }
    }
}

/// Shape 2, a same-month range: its `(first day, second day, month, year)`
/// texts, or `None`.
pub open spec fn date_shape2(s: Seq<char>) -> Option<
    (Seq<char>, Seq<char>, Seq<char>, Seq<char>),
> {
    let d1e = digit_run_end(s, 0);
    if !(1 <= d1e <= 2) {
        None
    } else {
        let h = opt_space(s, d1e);
        if !(h < s.len() && s[h] == '-') {
            None
        } else {
            let d2s = opt_space(s, h + 1);
            let d2e = digit_run_end(s, d2s);
            if !(1 <= d2e - d2s && d2e - d2s <= 2) {
                None
            } else {
                let ms = opt_space(s, d2e);
                let me = alpha_run_end(s, ms);
                if !(3 <= me - ms && me - ms <= 9) {
                    None
                } else {
                    let ys = opt_space(s, me);
                    if year_ok(s, ys) {
                        Some(
                            (
                                s.subrange(0, d1e),
                                s.subrange(d2s, d2e),
                                s.subrange(ms, me),
                                s.subrange(ys, s.len() as int),
                            ),
                        )
                    } else {
                        None
                    }
                }
            }
        }
    }
}

/// Shape 3, a cross-month range: its `(first day, first month, second day,
/// second month, year)` texts, or `None`.
pub open spec fn date_shape3(s: Seq<char>) -> Option<
    (Seq<char>, Seq<char>, Seq<char>, Seq<char>, Seq<char>),
> {
    let d1e = digit_run_end(s, 0);
    if !(1 <= d1e <= 2) {
        None
    } else {
        let m1s = opt_space(s, d1e);
        let m1e = alpha_run_end(s, m1s);
        if !(3 <= m1e - m1s && m1e - m1s <= 9) {
            None
        } else {
            let h = opt_space(s, m1e);
            if !(h < s.len() && s[h] == '-') {
                None
            } else {
                let d2s = opt_space(s, h + 1);
                let d2e = digit_run_end(s, d2s);
                if !(1 <= d2e - d2s && d2e - d2s <= 2) {
                    None
                } else {
                    let m2s = opt_space(s, d2e);
                    let m2e = alpha_run_end(s, m2s);
                    if !(3 <= m2e - m2s && m2e - m2s <= 9) {
                        None
                    } else {
                        let ys = opt_space(s, m2e);
                        if year_ok(s, ys) {
                            Some(
                                (
                                    s.subrange(0, d1e),
                                    s.subrange(m1s, m1e),
                                    s.subrange(d2s, d2e),
                                    s.subrange(m2s, m2e),
                                    s.subrange(ys, s.len() as int),
                                ),
                            )
                        } else {
                            None
                        }
                    }
                }
            }
        }
    }
}

/// The canonical string handed to the calendar-date parser.
pub open spec fn canonical_date(day: Seq<char>, mon: Seq<char>, year: Seq<char>) -> Seq<char> {
    day + seq![' '] + mon + seq![' '] + year
}

/// The year text to use: the captured one, or the current year rendered in
/// decimal when the capture is blank.
pub open spec fn year_or_current(y: Seq<char>, cy: int) -> Seq<char> {
    if y.len() == 0 {
        dec_seq_int(cy)
    } else {
        y
    }
}

/// The date the calendar parser's `(year, month, day)` answer denotes.
pub open spec fn built_date(y: int, m: int, d: int) -> Date {
    Date { year: y as i32, month: m as u8, day: d as u8 }
}

/// What the date normalizer produces: a start date and an optional end
/// date, a parse failure inside a recognized shape, or no recognized shape.
pub enum DateOutcome {
    Built(Option<Date>, Option<Date>),
    ParseFail,
    BadShape,
}

/// Outcome of a matched single-date shape.
pub open spec fn single_date_outcome(
    day: Seq<char>,
    mon: Seq<char>,
    yr: Seq<char>,
    cy: int,
) -> DateOutcome {
    match date_of_str(canonical_date(day, mon, year_or_current(yr, cy))) {
        Some((y, m, d)) => DateOutcome::Built(Some(built_date(y, m, d)), None),
        None => DateOutcome::ParseFail,
    }
}

/// Outcome of a matched range shape: both ends share the year text, and a
/// failure on either end fails the whole normalization.
pub open spec fn range_date_outcome(
    d1: Seq<char>,
    m1: Seq<char>,
    d2: Seq<char>,
    m2: Seq<char>,
    yr: Seq<char>,
    cy: int,
) -> DateOutcome {
    let ytext = year_or_current(yr, cy);
    match date_of_str(canonical_date(d1, m1, ytext)) {
        None => DateOutcome::ParseFail,
        Some((y, m, d)) => match date_of_str(canonical_date(d2, m2, ytext)) {
            None => DateOutcome::ParseFail,
            Some((y2, mm, dd)) => DateOutcome::Built(
                Some(built_date(y, m, d)),
                Some(built_date(y2, mm, dd)),
            ),
        },
    }
}

/// What the date normalizer makes of a date text under current year `cy`:
/// the three shapes tried in order, first match wins.
pub open spec fn date_outcome(s: Seq<char>, cy: int) -> DateOutcome {
    match date_shape1(s) {
        Some((d, m, y)) => single_date_outcome(d, m, y, cy),
        None => match date_shape2(s) {
            Some((d1, d2, m, y)) => range_date_outcome(d1, m, d2, m, y, cy),
            None => match date_shape3(s) {
                Some((d1, m1, d2, m2, y)) => range_date_outcome(d1, m1, d2, m2, y, cy),
                None => DateOutcome::BadShape,
            },
        },
    }
}

/// Executable twin of [`date_shape1`], returning the capture boundaries.
pub(crate) fn date_shape1_exec(s: &str) -> (r: Option<(usize, usize, usize, usize)>)
    ensures
        match r {
            Some((de, ms, me, ys)) => {
                &&& date_shape1(s@) == Some(
                    (
                        s@.subrange(0, de as int),
                        s@.subrange(ms as int, me as int),
                        s@.subrange(ys as int, s@.len() as int),
                    ),
                )
                &&& de <= ms <= me <= ys <= s@.len()
            },
            None => date_shape1(s@) is None,
        },
{
    let n = s.unicode_len();
    let de = digit_run_end_exec(s, 0);
    if !(1 <= de && de <= 2) {
        return None;
    }
    let ms = if de < n && s.get_char(de) == ' ' {
        de + 1
    } else {
        de
    };
    let me = alpha_run_end_exec(s, ms);
    if !(3 <= me - ms && me - ms <= 9) {
        return None;
    }
    let ys = if me < n && s.get_char(me) == ' ' {
        me + 1
    } else {
        me
    };
    let yl = n - ys;
    if !(yl == 0 || yl == 2 || yl == 4) {
        return None;
    }
    let dre = digit_run_end_exec(s, ys);
    if dre != n {
        return None;
    }
    Some((de, ms, me, ys))
}

/// Executable twin of [`date_shape2`], returning the capture boundaries.
pub(crate) fn date_shape2_exec(s: &str) -> (r: Option<
    (usize, usize, usize, usize, usize, usize),
>)
    ensures
        match r {
            Some((d1e, d2s, d2e, ms, me, ys)) => {
                &&& date_shape2(s@) == Some(
                    (
                        s@.subrange(0, d1e as int),
                        s@.subrange(d2s as int, d2e as int),
                        s@.subrange(ms as int, me as int),
                        s@.subrange(ys as int, s@.len() as int),
                    ),
                )
                &&& d1e <= d2s <= d2e <= ms <= me <= ys <= s@.len()
            },
            None => date_shape2(s@) is None,
        },
{
    let n = s.unicode_len();
    let d1e = digit_run_end_exec(s, 0);
    if !(1 <= d1e && d1e <= 2) {
        return None;
    }
    let h = if d1e < n && s.get_char(d1e) == ' ' {
        d1e + 1
    } else {
        d1e
    };
    if !(h < n && s.get_char(h) == '-') {
        return None;
    }
    let d2s = if h + 1 < n && s.get_char(h + 1) == ' ' {
        h + 2
    } else {
        h + 1
    };
    let d2e = digit_run_end_exec(s, d2s);
    if !(1 <= d2e - d2s && d2e - d2s <= 2) {
        return None;
    }
    let ms = if d2e < n && s.get_char(d2e) == ' ' {
        d2e + 1
    } else {
        d2e
    };
    let me = alpha_run_end_exec(s, ms);
    if !(3 <= me - ms && me - ms <= 9) {
        return None;
    }
    let ys = if me < n && s.get_char(me) == ' ' {
        me + 1
    } else {
        me
    };
    let yl = n - ys;
    if !(yl == 0 || yl == 2 || yl == 4) {
        return None;
    }
    let dre = digit_run_end_exec(s, ys);
    if dre != n {
        return None;
    }
    Some((d1e, d2s, d2e, ms, me, ys))
}

/// Executable twin of [`date_shape3`], returning the capture boundaries.
pub(crate) fn date_shape3_exec(s: &str) -> (r: Option<
    (usize, usize, usize, usize, usize, usize, usize, usize),
>)
    ensures
        match r {
            Some((d1e, m1s, m1e, d2s, d2e, m2s, m2e, ys)) => {
                &&& date_shape3(s@) == Some(
                    (
                        s@.subrange(0, d1e as int),
                        s@.subrange(m1s as int, m1e as int),
                        s@.subrange(d2s as int, d2e as int),
                        s@.subrange(m2s as int, m2e as int),
                        s@.subrange(ys as int, s@.len() as int),
                    ),
                )
                &&& d1e <= m1s <= m1e && m1e <= d2s <= d2e <= m2s <= m2e <= ys <= s@.len()
            },
            None => date_shape3(s@) is None,
        },
{
    let n = s.unicode_len();
    let d1e = digit_run_end_exec(s, 0);
    if !(1 <= d1e && d1e <= 2) {
        return None;
    }
    let m1s = if d1e < n && s.get_char(d1e) == ' ' {
        d1e + 1
    } else {
        d1e
    };
    let m1e = alpha_run_end_exec(s, m1s);
    if !(3 <= m1e - m1s && m1e - m1s <= 9) {
        return None;
    }
    let h = if m1e < n && s.get_char(m1e) == ' ' {
        m1e + 1
    } else {
        m1e
    };
    if !(h < n && s.get_char(h) == '-') {
        return None;
    }
    let d2s = if h + 1 < n && s.get_char(h + 1) == ' ' {
        h + 2
    } else {
        h + 1
    };
    let d2e = digit_run_end_exec(s, d2s);
    if !(1 <= d2e - d2s && d2e - d2s <= 2) {
        return None;
    }
    let m2s = if d2e < n && s.get_char(d2e) == ' ' {
        d2e + 1
    } else {
        d2e
    };
    let m2e = alpha_run_end_exec(s, m2s);
    if !(3 <= m2e - m2s && m2e - m2s <= 9) {
        return None;
    }
    let ys = if m2e < n && s.get_char(m2e) == ' ' {
        m2e + 1
    } else {
        m2e
    };
    let yl = n - ys;
    if !(yl == 0 || yl == 2 || yl == 4) {
        return None;
    }
    let dre = digit_run_end_exec(s, ys);
    if dre != n {
        return None;
    }
    Some((d1e, m1s, m1e, d2s, d2e, m2s, m2e, ys))
}

/// Re-parsing a serialized date goes back through the calendar parser
/// verbatim: the `"DD Mon YYYY"` rendering of any date is recognized as
/// the single-date shape, its captures are exactly the rendered day, month
/// and year, and the canonical string the normalizer reassembles for the
/// calendar parser is the rendered text itself, whatever the current year.
pub proof fn lemma_date_fmt_reparse(d: Date, cy: int)
    requires
        date_wf(d),
        0 <= d.year <= 9999,
    ensures
        date_shape1(date_fmt(d)) == Some(
            (pad2(d.day as int), month_abbrev(d.month as int), pad4(d.year as int)),
        ),
        date_outcome(date_fmt(d), cy) == single_date_outcome(
            pad2(d.day as int),
            month_abbrev(d.month as int),
            pad4(d.year as int),
            cy,
        ),
        canonical_date(
            pad2(d.day as int),
            month_abbrev(d.month as int),
            year_or_current(pad4(d.year as int), cy),
        ) == date_fmt(d),
{
    let s = date_fmt(d);
    let day = d.day as int;
    let mon = d.month as int;
    let yr = d.year as int;
    assert(month_abbrev(mon).len() == 3);
    assert(s.len() == 11);
    assert(s[0] == crate::calendar::dec_digit(day / 10));
    assert(s[1] == crate::calendar::dec_digit(day % 10));
    assert(s[2] == ' ');
    assert(s[3] == month_abbrev(mon)[0]);
    assert(s[4] == month_abbrev(mon)[1]);
    assert(s[5] == month_abbrev(mon)[2]);
    assert(s[6] == ' ');
    assert(s[7] == crate::calendar::dec_digit(yr / 1000));
    assert(s[8] == crate::calendar::dec_digit((yr / 100) % 10));
    assert(s[9] == crate::calendar::dec_digit((yr / 10) % 10));
    assert(s[10] == crate::calendar::dec_digit(yr % 10));
    assert(crate::textscan::is_digit(s[0]));
    assert(crate::textscan::is_digit(s[1]));
    assert(!crate::textscan::is_digit(s[2]));
    assert(digit_run_end(s, 2) == 2);
    assert(digit_run_end(s, 1) == 2);
    assert(digit_run_end(s, 0) == 2);
    assert(opt_space(s, 2) == 3);
    assert(crate::textscan::is_alpha(s[3]));
    assert(crate::textscan::is_alpha(s[4]));
    assert(crate::textscan::is_alpha(s[5]));
    assert(!crate::textscan::is_alpha(s[6]));
    assert(alpha_run_end(s, 6) == 6);
    assert(alpha_run_end(s, 5) == 6);
    assert(alpha_run_end(s, 4) == 6);
    assert(alpha_run_end(s, 3) == 6);
    assert(opt_space(s, 6) == 7);
    assert(crate::textscan::is_digit(s[7]));
    assert(crate::textscan::is_digit(s[8]));
    assert(crate::textscan::is_digit(s[9]));
    assert(crate::textscan::is_digit(s[10]));
    assert(digit_run_end(s, 11) == 11);
    assert(digit_run_end(s, 10) == 11);
    assert(digit_run_end(s, 9) == 11);
    assert(digit_run_end(s, 8) == 11);
    assert(digit_run_end(s, 7) == 11);
    assert(year_ok(s, 7));
    assert(s.subrange(0, 2) =~= pad2(day));
    assert(s.subrange(3, 6) =~= month_abbrev(mon));
    assert(s.subrange(7, 11) =~= pad4(yr));
    assert(date_shape1(s) == Some((pad2(day), month_abbrev(mon), pad4(yr))));
    assert(pad4(yr).len() == 4);
    assert(year_or_current(pad4(yr), cy) == pad4(yr));
    assert(canonical_date(pad2(day), month_abbrev(mon), pad4(yr)) =~= s);
}

/// Builds the canonical `"D Mon YYYY"` string from its three pieces.
pub(crate) fn build_canonical_date(day: &str, mon: &str, year: &str) -> (r: String)
    ensures
        r@ == canonical_date(day@, mon@, year@),
{
    let mut c = day.to_owned();
    c.append(" ");
    c.append(mon);
    c.append(" ");
    c.append(year);
    proof {
        reveal_strlit(" ");
        assert(c@ =~= canonical_date(day@, mon@, year@));
    }
    c
}

} // verus!
