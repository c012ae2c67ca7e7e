//! The time-field grammar: the three shapes a non-empty time text may
//! take, and what the normalizer makes of each.
//!
//! The shapes, tried in this order:
//! 1. fully qualified single time `H:MM AM|PM`, handed to the clock parser
//!    as written,
//! 2. bare-hour single time `H AM|PM`, minutes defaulted to `:00`,
//! 3. range `H1[:MM1][AM|PM]-H2[:MM2][ ]AM|PM`, either side's minutes
//!    defaulted to `:00`; a start without its own meridiem borrows the
//!    end's.
//!
//! An empty time text is no shape at all: it means an all-day event. In a
//! range, a side whose reconstructed string the clock parser rejects is
//! dropped to `None` rather than failing the whole normalization.

use vstd::prelude::*;

use crate::calendar::Time;
use crate::calendar::time_of_str;
use crate::textscan::digit_run_end;
use crate::textscan::digit_run_end_exec;
use crate::textscan::is_digit;

verus! {

/// Shape 1: exactly `H:MM AM|PM` with a one- or two-digit hour.
pub open spec fn time_shape1(s: Seq<char>) -> bool {
    let h = digit_run_end(s, 0);
    &&& 1 <= h <= 2
    &&& s.len() == h + 6
    &&& s[h] == ':'
    &&& is_digit(s[h + 1])
    &&& is_digit(s[h + 2])
    &&& s[h + 3] == ' '
    &&& (s[h + 4] == 'A' || s[h + 4] == 'P')
    &&& s[h + 5] == 'M'
}

/// Shape 2: exactly `H AM|PM`; its `(hour, meridiem)` texts, or `None`.
pub open spec fn time_shape2(s: Seq<char>) -> Option<(Seq<char>, Seq<char>)> {
    let h = digit_run_end(s, 0);
    if 1 <= h <= 2 && s.len() == h + 3 && s[h] == ' ' && (s[h + 1] == 'A' || s[h + 1] == 'P')
        && s[h + 2] == 'M' {
        Some((s.subrange(0, h), s.subrange(h + 1, h + 3)))
    } else {
        None
    }
}

/// Index just past an optional `:MM` at `i`; `None` when a colon stands at
/// `i` without two digits behind it, which no shape admits.
pub open spec fn opt_minutes(s: Seq<char>, i: int) -> Option<int> {
    if 0 <= i < s.len() && s[i] == ':' {
        if i + 3 <= s.len() && is_digit(s[i + 1]) && is_digit(s[i + 2]) {
            Some(i + 3)
        } else {
            None
        }
    } else {
        Some(i)
    }
}

/// Index just past an optional `AM`/`PM` at `i`; `None` when an `A` or `P`
/// stands at `i` without an `M` behind it, which no shape admits.
pub open spec fn opt_meridiem(s: Seq<char>, i: int) -> Option<int> {
    if 0 <= i < s.len() && (s[i] == 'A' || s[i] == 'P') {
        if i + 2 <= s.len() && s[i + 1] == 'M' {
            Some(i + 2)
        } else {
            None
        }
    } else {
        Some(i)
    }
}

/// Shape 3, a time range: its `(start hour, start minutes, start meridiem,
/// end hour, end minutes, end meridiem)` texts, the minutes with their
/// leading colon, minutes and start meridiem possibly empty; or `None`.
pub open spec fn time_shape3(s: Seq<char>) -> Option<
    (Seq<char>, Seq<char>, Seq<char>, Seq<char>, Seq<char>, Seq<char>),
> {
    let h1e = digit_run_end(s, 0);
    if !(1 <= h1e <= 2) {
        None
    } else {
        match opt_minutes(s, h1e) {
            None => None,
            Some(i1) => match opt_meridiem(s, i1) {
                None => None,
                Some(i2) => {
                    if !(i2 < s.len() && s[i2] == '-') {
                        None
                    } else {
                        let h2s = i2 + 1;
                        let h2e = digit_run_end(s, h2s);
                        if !(1 <= h2e - h2s && h2e - h2s <= 2) {
                            None
                        } else {
                            match opt_minutes(s, h2e) {
                                None => None,
                                Some(i3) => {
                                    let i4 = if i3 < s.len() && s[i3] == ' ' {
                                        i3 + 1
                                    } else {
                                        i3
                                    };
                                    if i4 + 2 == s.len() && (s[i4] == 'A' || s[i4] == 'P')
                                        && s[i4 + 1] == 'M' {
                                        Some(
                                            (
                                                s.subrange(0, h1e),
                                                s.subrange(h1e, i1),
                                                s.subrange(i1, i2),
                                                s.subrange(h2s, h2e),
                                                s.subrange(h2e, i3),
                                                s.subrange(i4, s.len() as int),
                                            ),
                                        )
                                    } else {
                                        None
                                    }
                                },
                            }
                        }
                    }
                },
            },
        }
    }
}

/// The canonical string handed to the clock parser: the hour, the minutes
/// (defaulted to `:00` when absent), a space, and a meridiem.
pub open spec fn canonical_time(h: Seq<char>, min: Seq<char>, mer: Seq<char>) -> Seq<char> {
    h + (if min.len() > 0 {
        min + seq![' ']
    } else {
        seq![':', '0', '0', ' ']
    }) + mer
}

/// The time the clock parser's `(hour, minute)` answer denotes.
pub open spec fn built_time(h: int, m: int) -> Time {
    Time { hour: h as u8, minute: m as u8 }
}

/// A range side: the parsed time, or `None` for a side the parser rejects.
pub open spec fn opt_time(r: Option<(int, int)>) -> Option<Time> {
    match r {
        Some((h, m)) => Some(built_time(h, m)),
        None => None,
    }
}

/// What the time normalizer produces: optional start and end times, a
/// parse failure inside a single-time shape, or no recognized shape.
pub enum TimeOutcome {
    Built(Option<Time>, Option<Time>),
    ParseFail,
    BadShape,
}

/// What the time normalizer makes of a time text: empty means all day,
/// otherwise the three shapes tried in order, first match wins.
pub open spec fn time_outcome(s: Seq<char>) -> TimeOutcome {
    if s.len() == 0 {
        TimeOutcome::Built(None, None)
    } else if time_shape1(s) {
        match time_of_str(s) {
            Some((h, m)) => TimeOutcome::Built(Some(built_time(h, m)), None),
            None => TimeOutcome::ParseFail,
        }
    } else {
        match time_shape2(s) {
            Some((ht, mer)) => match time_of_str(canonical_time(ht, Seq::<char>::empty(), mer)) {
                Some((h, m)) => TimeOutcome::Built(Some(built_time(h, m)), None),
                None => TimeOutcome::ParseFail,
            },
            None => match time_shape3(s) {
                Some((h1, min1, mer1, h2, min2, mer2)) => TimeOutcome::Built(
                    opt_time(
                        time_of_str(
                            canonical_time(
                                h1,
                                min1,
                                if mer1.len() > 0 {
                                    mer1
                                } else {
                                    mer2
                                },
                            ),
                        ),
                    ),
                    opt_time(time_of_str(canonical_time(h2, min2, mer2))),
                ),
                None => TimeOutcome::BadShape,
            },
        }
    }
}

/// Executable twin of [`time_shape1`].
pub(crate) fn time_shape1_exec(s: &str) -> (r: bool)
    ensures
        r == time_shape1(s@),
{
    let n = s.unicode_len();
    let h = digit_run_end_exec(s, 0);
    if !(1 <= h && h <= 2) {
        return false;
    }
    if n != h + 6 {
        return false;
    }
    let c1 = s.get_char(h);
    let c2 = s.get_char(h + 1);
    let c3 = s.get_char(h + 2);
    let c4 = s.get_char(h + 3);
    let c5 = s.get_char(h + 4);
    let c6 = s.get_char(h + 5);
    c1 == ':' && crate::textscan::digit(c2) && crate::textscan::digit(c3) && c4 == ' '
        && (c5 == 'A' || c5 == 'P') && c6 == 'M'
}

/// Executable twin of [`time_shape2`], returning the hour-run end.
pub(crate) fn time_shape2_exec(s: &str) -> (r: Option<usize>)
    ensures
        match r {
            Some(h) => {
                &&& time_shape2(s@) == Some(
                    (s@.subrange(0, h as int), s@.subrange(h + 1, h + 3)),
                )
                &&& h + 3 == s@.len()
            },
            None => time_shape2(s@) is None,
        },
{
    let n = s.unicode_len();
    let h = digit_run_end_exec(s, 0);
    if !(1 <= h && h <= 2) {
        return None;
    }
    if n != h + 3 {
        return None;
    }
    let c1 = s.get_char(h);
    let c2 = s.get_char(h + 1);
    let c3 = s.get_char(h + 2);
    if c1 == ' ' && (c2 == 'A' || c2 == 'P') && c3 == 'M' {
        Some(h)
    } else {
        None
    }
}

/// Executable twin of [`opt_minutes`].
pub(crate) fn opt_minutes_exec(s: &str, i: usize) -> (r: Option<usize>)
    requires
        i <= s@.len(),
    ensures
        match r {
            Some(j) => opt_minutes(s@, i as int) == Some(j as int) && i <= j <= s@.len(),
            None => opt_minutes(s@, i as int) is None,
        },
{
    let n = s.unicode_len();
    if i < n && s.get_char(i) == ':' {
        if n - i >= 3 {
            let c1 = s.get_char(i + 1);
            let c2 = s.get_char(i + 2);
            if crate::textscan::digit(c1) && crate::textscan::digit(c2) {
                return Some(i + 3);
            }
        }
        None
    } else {
        Some(i)
    }
}

/// Executable twin of [`opt_meridiem`].
pub(crate) fn opt_meridiem_exec(s: &str, i: usize) -> (r: Option<usize>)
    requires
        i <= s@.len(),
    ensures
        match r {
            Some(j) => opt_meridiem(s@, i as int) == Some(j as int) && i <= j <= s@.len(),
            None => opt_meridiem(s@, i as int) is None,
        },
{
    let n = s.unicode_len();
    if i < n {
        let c = s.get_char(i);
        if c == 'A' || c == 'P' {
            if n - i >= 2 {
                let c1 = s.get_char(i + 1);
                if c1 == 'M' {
                    return Some(i + 2);
                }
            }
            return None;
        }
    }
    Some(i)
}

/// Executable twin of [`time_shape3`], returning the capture boundaries
/// `(h1e, i1, i2, h2s, h2e, i3, i4)`.
pub(crate) fn time_shape3_exec(s: &str) -> (r: Option<
    (usize, usize, usize, usize, usize, usize, usize),
>)
    ensures
        match r {
            Some((h1e, i1, i2, h2s, h2e, i3, i4)) => {
                &&& time_shape3(s@) == Some(
                    (
                        s@.subrange(0, h1e as int),
                        s@.subrange(h1e as int, i1 as int),
                        s@.subrange(i1 as int, i2 as int),
                        s@.subrange(h2s as int, h2e as int),
                        s@.subrange(h2e as int, i3 as int),
                        s@.subrange(i4 as int, s@.len() as int),
                    ),
                )
                &&& h1e <= i1 <= i2 && i2 < h2s <= h2e <= i3 <= i4 && i4 + 2 == s@.len()
            },
            None => time_shape3(s@) is None,
        },
{
    let n = s.unicode_len();
    let h1e = digit_run_end_exec(s, 0);
    if !(1 <= h1e && h1e <= 2) {
        return None;
    }
    let i1 = match opt_minutes_exec(s, h1e) {
        None => {
            return None;
        },
        Some(j) => j,
    };
    let i2 = match opt_meridiem_exec(s, i1) {
        None => {
            return None;
        },
        Some(j) => j,
    };
    if !(i2 < n && s.get_char(i2) == '-') {
        return None;
    }
    let h2s = i2 + 1;
    let h2e = digit_run_end_exec(s, h2s);
    if !(1 <= h2e - h2s && h2e - h2s <= 2) {
        return None;
    }
    let i3 = match opt_minutes_exec(s, h2e) {
        None => {
            return None;
        },
        Some(j) => j,
    };
    let i4 = if i3 < n && s.get_char(i3) == ' ' {
        i3 + 1
    } else {
        i3
    };
    if i4 + 2 == n {
        let c1 = s.get_char(i4);
        let c2 = s.get_char(i4 + 1);
        if (c1 == 'A' || c1 == 'P') && c2 == 'M' {
            return Some((h1e, i1, i2, h2s, h2e, i3, i4));
        }
    }
    None
}

/// Builds the canonical `"H:MM AM|PM"` string from its pieces, defaulting
/// absent minutes to `:00`.
pub(crate) fn build_canonical_time(h: &str, min: &str, mer: &str) -> (r: String)
    ensures
        r@ == canonical_time(h@, min@, mer@),
{
    let mut c = h.to_owned();
    if min.unicode_len() > 0 {
        c.append(min);
        c.append(" ");
    } else {
        c.append(":00 ");
    }
    c.append(mer);
    proof {
        reveal_strlit(" ");
        reveal_strlit(":00 ");
        assert(c@ =~= canonical_time(h@, min@, mer@));
    }
    c
}

} // verus!
