//! The event-line grammar: deciding whether a text line has the shape of an
//! event entry, and splitting such a line into its four raw fields.
//!
//! A line has the event shape when it contains a checkbox marker (`- [ ]`,
//! `- [x]` or `- [,]`) followed by one or more spaces and three
//! parenthesized groups, the groups separated by one or more spaces; each
//! group may hold anything, parentheses included. Field extraction demands
//! in addition one or more spaces and a trailing title segment after the
//! third group, and resolves the ambiguity in group boundaries by always
//! taking the first closing parenthesis that a separator can follow.

use vstd::prelude::*;

use crate::textscan::space_run_end;
use crate::textscan::lemma_space_run_end;
use crate::textscan::space_run_end_exec;

verus! {

/// The characters allowed between `[` and `]` in the checkbox marker.
pub open spec fn is_marker_char(c: char) -> bool {
    c == ' ' || c == ',' || c == 'x'
}

/// A five-character checkbox marker `- [m]` starts at `i`.
pub open spec fn marker_at(s: Seq<char>, i: int) -> bool {
    &&& 0 <= i
    &&& i + 5 <= s.len()
    &&& s[i] == '-'
    &&& s[i + 1] == ' '
    &&& s[i + 2] == '['
    &&& is_marker_char(s[i + 3])
    &&& s[i + 4] == ']'
}

/// A group separator: a `)` at `p`, one or more spaces, and a `(` at `q`.
pub open spec fn is_sep(s: Seq<char>, p: int, q: int) -> bool {
    &&& 0 <= p
    &&& p + 1 < q < s.len()
    &&& s[p] == ')'
    &&& s[q] == '('
    &&& forall|k: int| p < k < q ==> #[trigger] s[k] == ' '
}

/// One or more spaces from `j` up to a `(` at `q`.
pub open spec fn opens_after(s: Seq<char>, j: int, q: int) -> bool {
    &&& 0 <= j < q
    &&& q < s.len()
    &&& s[q] == '('
    &&& forall|k: int| j <= k < q ==> #[trigger] s[k] == ' '
}

/// Some `)` closes the third group at or after `from`.
pub open spec fn tail3(s: Seq<char>, from: int) -> bool {
    exists|p: int| from <= p < s.len() && #[trigger] s[p] == ')'
}

/// A separator at or after `from` ends the second group, and the rest of
/// the pattern follows.
pub open spec fn tail2(s: Seq<char>, from: int) -> bool {
    exists|p: int, q: int| from <= p && #[trigger] is_sep(s, p, q) && tail3(s, q + 1)
}

/// A separator at or after `from` ends the first group, and the rest of
/// the pattern follows.
pub open spec fn tail1(s: Seq<char>, from: int) -> bool {
    exists|p: int, q: int| from <= p && #[trigger] is_sep(s, p, q) && tail2(s, q + 1)
}

/// The full event pattern occurs with its marker at `i`: the marker, one or
/// more spaces, an opening `(`, and then three groups closed in turn.
pub open spec fn match_at(s: Seq<char>, i: int) -> bool {
    &&& marker_at(s, i)
    &&& exists|q: int| #[trigger] opens_after(s, i + 5, q) && tail1(s, q + 1)
}

/// The line contains the event pattern somewhere.
pub open spec fn is_event_shape(s: Seq<char>) -> bool {
    exists|i: int| #[trigger] match_at(s, i)
}

/// The `(` of a separator stands exactly where the run of spaces after its
/// `)` ends, so each `)` can begin at most one separator.
pub proof fn lemma_sep_q(s: Seq<char>, p: int, q: int)
    requires
        is_sep(s, p, q),
    ensures
        q == space_run_end(s, p + 1),
{
    lemma_space_run_end(s, p + 1);
    let r = space_run_end(s, p + 1);
    if q < r {
        assert(s[q] == ' ');
        assert(false);
    }
    if q > r {
        assert(s[r] == ' ');
        assert(false);
    }
}

/// Separators never cross: a later `)` has a later `(`.
pub proof fn lemma_sep_mono(s: Seq<char>, p1: int, q1: int, p2: int, q2: int)
    requires
        is_sep(s, p1, q1),
        is_sep(s, p2, q2),
        p1 <= p2,
    ensures
        q1 <= q2,
{
    if p1 == p2 {
        lemma_sep_q(s, p1, q1);
        lemma_sep_q(s, p2, q2);
    } else {
        if p2 < q1 {
            assert(s[p2] == ' ');
            assert(false);
        }
        assert(p2 != q1);
    }
}

/// Finds the first checkbox marker at or after `from`.
pub fn find_marker(s: &str, from: usize) -> (r: Option<usize>)
    requires
        from <= s@.len(),
    ensures
        match r {
            Some(m) => from <= m && marker_at(s@, m as int)
                && forall|j: int| from <= j < m ==> !marker_at(s@, j),
            None => forall|j: int| from <= j ==> !marker_at(s@, j),
        },
{
    let n = s.unicode_len();
    let mut p = from;
    while p < n
        invariant
            from <= p <= n,
            n == s@.len(),
            forall|j: int| from <= j < p ==> !marker_at(s@, j),
        decreases n - p,
    {
        if n - p < 5 {
            assert forall|j: int| from <= j implies !marker_at(s@, j) by {
                if j >= p {
                    assert(j + 5 > s@.len());
                }
            }
            return None;
        }
        let c0 = s.get_char(p);
        let c1 = s.get_char(p + 1);
        let c2 = s.get_char(p + 2);
        let c3 = s.get_char(p + 3);
        let c4 = s.get_char(p + 4);
        if c0 == '-' && c1 == ' ' && c2 == '[' && (c3 == ' ' || c3 == ',' || c3 == 'x')
            && c4 == ']' {
            return Some(p);
        }
        p += 1;
    }
    assert forall|j: int| from <= j implies !marker_at(s@, j) by {
        if j >= p {
            assert(j + 5 > s@.len());
        }
    }
    None
}

/// Finds the first group separator whose `)` is at or after `from`.
pub fn find_sep(s: &str, from: usize) -> (r: Option<(usize, usize)>)
    requires
        from <= s@.len(),
    ensures
        match r {
            Some((p, q)) => from <= p && is_sep(s@, p as int, q as int)
                && forall|p2: int, q2: int| from <= p2 < p ==> !is_sep(s@, p2, q2),
            None => forall|p2: int, q2: int| from <= p2 ==> !is_sep(s@, p2, q2),
        },
{
    let n = s.unicode_len();
    let mut p = from;
    while p < n
        invariant
            from <= p <= n,
            n == s@.len(),
            forall|p2: int, q2: int| from <= p2 < p ==> !is_sep(s@, p2, q2),
        decreases n - p,
    {
        let c = s.get_char(p);
        if c == ')' {
            let q = space_run_end_exec(s, p + 1);
            let mut hit = false;
            if q > p + 1 && q < n {
                let cq = s.get_char(q);
                if cq == '(' {
                    hit = true;
                }
            }
            if hit {
                proof {
                    lemma_space_run_end(s@, p + 1);
                    assert(is_sep(s@, p as int, q as int));
                }
                return Some((p, q));
            }
            assert forall|q2: int| !is_sep(s@, p as int, q2) by {
                if is_sep(s@, p as int, q2) {
                    lemma_sep_q(s@, p as int, q2);
                    lemma_space_run_end(s@, p + 1);
                }
            }
        }
        p += 1;
    }
    None
}

/// Finds the first `)` at or after `from`.
pub fn find_close(s: &str, from: usize) -> (r: Option<usize>)
    requires
        from <= s@.len(),
    ensures
        match r {
            Some(p) => from <= p < s@.len() && s@[p as int] == ')'
                && forall|k: int| from <= k < p ==> s@[k] != ')',
            None => forall|k: int| from <= k < s@.len() ==> s@[k] != ')',
        },
{
    let n = s.unicode_len();
    let mut p = from;
    while p < n
        invariant
            from <= p <= n,
            n == s@.len(),
            forall|k: int| from <= k < p ==> s@[k] != ')',
        decreases n - p,
    {
        let c = s.get_char(p);
        if c == ')' {
            return Some(p);
        }
        p += 1;
    }
    None
}

/// A `)` at `p` followed directly by a space, the way the third group must
/// close for a title segment to follow.
pub open spec fn close_sp_at(s: Seq<char>, p: int) -> bool {
    0 <= p && p + 1 < s.len() && s[p] == ')' && s[p + 1] == ' '
}

/// Finds the first space-followed `)` at or after `from`.
pub fn find_close_sp(s: &str, from: usize) -> (r: Option<usize>)
    requires
        from <= s@.len(),
    ensures
        match r {
            Some(p) => from <= p && close_sp_at(s@, p as int)
                && forall|k: int| from <= k < p ==> !close_sp_at(s@, k),
            None => forall|k: int| from <= k ==> !close_sp_at(s@, k),
        },
{
    let n = s.unicode_len();
    let mut p = from;
    while p < n
        invariant
            from <= p <= n,
            n == s@.len(),
            forall|k: int| from <= k < p ==> !close_sp_at(s@, k),
        decreases n - p,
    {
        let c = s.get_char(p);
        if c == ')' && p + 1 < n {
            let c1 = s.get_char(p + 1);
            if c1 == ' ' {
                return Some(p);
            }
        }
        p += 1;
    }
    None
}

/// The `(` that ends a space run is the only place a group can open, so
/// each position admits at most one opening parenthesis.
pub proof fn lemma_opens_q(s: Seq<char>, j: int, q: int)
    requires
        opens_after(s, j, q),
    ensures
        q == space_run_end(s, j),
{
    lemma_space_run_end(s, j);
    let r = space_run_end(s, j);
    if q < r {
        assert(s[q] == ' ');
        assert(false);
    }
    if q > r {
        assert(s[r] == ' ');
        assert(false);
    }
}

/// With no separator at all after `f0`, the three-group tail cannot match.
proof fn lemma_no_tail1_bare(s: Seq<char>, f0: int)
    requires
        forall|p: int, q: int| f0 <= p ==> !is_sep(s, p, q),
    ensures
        !tail1(s, f0),
{
    if tail1(s, f0) {
        let (p, q) = choose|p: int, q: int| f0 <= p && is_sep(s, p, q) && tail2(s, q + 1);
        assert(!is_sep(s, p, q));
    }
}

/// With a first separator at `p1` but none after its `(`, the tail cannot
/// match: any alternative first separator only moves the rest further right.
proof fn lemma_no_tail1_one_sep(s: Seq<char>, f0: int, p1: int, q1: int)
    requires
        f0 <= p1,
        is_sep(s, p1, q1),
        forall|p: int, q: int| f0 <= p < p1 ==> !is_sep(s, p, q),
        forall|p: int, q: int| q1 + 1 <= p ==> !is_sep(s, p, q),
    ensures
        !tail1(s, f0),
{
    if tail1(s, f0) {
        let (p, q) = choose|p: int, q: int| f0 <= p && is_sep(s, p, q) && tail2(s, q + 1);
        assert(p >= p1);
        lemma_sep_mono(s, p1, q1, p, q);
        let (p2, q2) = choose|p2: int, q2: int|
            q + 1 <= p2 && is_sep(s, p2, q2) && tail3(s, q2 + 1);
        assert(q1 + 1 <= p2);
        assert(!is_sep(s, p2, q2));
    }
}

/// With the first two separators found but no `)` after the second `(`,
/// the tail cannot match.
proof fn lemma_no_tail1_two_seps(
    s: Seq<char>,
    f0: int,
    p1: int,
    q1: int,
    p2: int,
    q2: int,
)
    requires
        f0 <= p1,
        is_sep(s, p1, q1),
        forall|p: int, q: int| f0 <= p < p1 ==> !is_sep(s, p, q),
        q1 + 1 <= p2,
        is_sep(s, p2, q2),
        forall|p: int, q: int| q1 + 1 <= p < p2 ==> !is_sep(s, p, q),
        forall|k: int| q2 + 1 <= k < s.len() ==> s[k] != ')',
    ensures
        !tail1(s, f0),
{
    if tail1(s, f0) {
        let (p, q) = choose|p: int, q: int| f0 <= p && is_sep(s, p, q) && tail2(s, q + 1);
        assert(p >= p1);
        lemma_sep_mono(s, p1, q1, p, q);
        let (pp, qq) = choose|pp: int, qq: int|
            q + 1 <= pp && is_sep(s, pp, qq) && tail3(s, qq + 1);
        assert(pp >= q1 + 1);
        assert(pp >= p2);
        lemma_sep_mono(s, p2, q2, pp, qq);
        let p3 = choose|p3: int| qq + 1 <= p3 < s.len() && s[p3] == ')';
        assert(q2 + 1 <= p3);
        assert(false);
    }
}

/// Decides whether the event pattern matches with its marker at `i`.
fn shape_match_at(s: &str, i: usize) -> (b: bool)
    requires
        marker_at(s@, i as int),
    ensures
        b == match_at(s@, i as int),
{
    let n = s.unicode_len();
    let q0 = space_run_end_exec(s, i + 5);
    let mut open_ok = false;
    if q0 > i + 5 && q0 < n {
        let cq = s.get_char(q0);
        if cq == '(' {
            open_ok = true;
        }
    }
    if !open_ok {
        proof {
            lemma_space_run_end(s@, i + 5);
            assert forall|q: int| !#[trigger] opens_after(s@, i + 5, q) by {
                if opens_after(s@, i + 5, q) {
                    lemma_opens_q(s@, i + 5, q);
                }
            }
        }
        return false;
    }
    proof {
        lemma_space_run_end(s@, i + 5);
        assert(opens_after(s@, i + 5, q0 as int));
    }
    let r1 = find_sep(s, q0 + 1);
    match r1 {
        None => {
            proof {
                lemma_no_tail1_bare(s@, q0 + 1);
                assert forall|q: int| !(#[trigger] opens_after(s@, i + 5, q) && tail1(
                    s@,
                    q + 1,
                )) by {
                    if opens_after(s@, i + 5, q) {
                        lemma_opens_q(s@, i + 5, q);
                    }
                }
            }
            false
        },
        Some((p1, q1)) => {
            let r2 = find_sep(s, q1 + 1);
            match r2 {
                None => {
                    proof {
                        lemma_no_tail1_one_sep(s@, q0 + 1, p1 as int, q1 as int);
                        assert forall|q: int| !(#[trigger] opens_after(s@, i + 5, q)
                            && tail1(s@, q + 1)) by {
                            if opens_after(s@, i + 5, q) {
                                lemma_opens_q(s@, i + 5, q);
                            }
                        }
                    }
                    false
                },
                Some((p2, q2)) => {
                    let r3 = find_close(s, q2 + 1);
                    match r3 {
                        None => {
                            proof {
                                lemma_no_tail1_two_seps(
                                    s@,
                                    q0 + 1,
                                    p1 as int,
                                    q1 as int,
                                    p2 as int,
                                    q2 as int,
                                );
                                assert forall|q: int| !(#[trigger] opens_after(s@, i + 5, q)
                                    && tail1(s@, q + 1)) by {
                                    if opens_after(s@, i + 5, q) {
                                        lemma_opens_q(s@, i + 5, q);
                                    }
                                }
                            }
                            false
                        },
                        Some(p3) => {
                            proof {
                                assert(tail3(s@, q2 + 1));
                                assert(tail2(s@, q1 + 1));
                                assert(tail1(s@, q0 + 1));
                            }
                            true
                        },
                    }
                },
            }
        },
    }
}

/// Decides whether a text line has the shape of an event entry: a checkbox
/// marker followed by three parenthesized groups separated by spaces.
///
/// Leading and trailing whitespace cannot matter: the pattern neither
/// begins nor ends with a space.
pub fn line_is_event(linestr: &str) -> (b: bool)
    ensures
        b == is_event_shape(linestr@),
{
    let n = linestr.unicode_len();
    let mut i: usize = 0;
    loop
        invariant
            i <= n,
            n == linestr@.len(),
            forall|j: int| 0 <= j < i ==> !match_at(linestr@, j),
        decreases n - i,
    {
        match find_marker(linestr, i) {
            None => {
                proof {
                    assert forall|j: int| !#[trigger] match_at(linestr@, j) by {
                        if j >= i {
                            assert(!marker_at(linestr@, j));
                        }
                    }
                }
                return false;
            },
            Some(m) => {
                if shape_match_at(linestr, m) {
                    assert(is_event_shape(linestr@));
                    return true;
                }
                proof {
                    assert forall|j: int| 0 <= j < m + 1 implies !match_at(linestr@, j) by {
                        if i <= j < m {
                            assert(!marker_at(linestr@, j));
                        }
                    }
                }
                i = m + 1;
            },
        }
    }
}

/// The `(` of the separator starting at `p`, if one starts there.
pub open spec fn sep_q_at(s: Seq<char>, p: int) -> Option<int> {
    if 0 <= p < s.len() && s[p] == ')' {
        let q = space_run_end(s, p + 1);
        if q > p + 1 && q < s.len() && s[q] == '(' {
            Some(q)
        } else {
            None
        }
    } else {
        None
    }
}

/// The first separator whose `)` is at or after `from`.
pub open spec fn first_sep(s: Seq<char>, from: int) -> Option<(int, int)>
    decreases s.len() - from when 0 <= from <= s.len()
{
    if from >= s.len() {
        None
    } else {
        match sep_q_at(s, from) {
            Some(q) => Some((from, q)),
            None => first_sep(s, from + 1),
        }
    }
}

/// The first space-followed `)` at or after `from`.
pub open spec fn first_close_sp(s: Seq<char>, from: int) -> Option<int>
    decreases s.len() - from when 0 <= from <= s.len()
{
    if from >= s.len() {
        None
    } else if close_sp_at(s, from) {
        Some(from)
    } else {
        first_close_sp(s, from + 1)
    }
}

proof fn lemma_first_sep_none(s: Seq<char>, from: int)
    requires
        0 <= from <= s.len(),
        forall|p: int, q: int| from <= p ==> !is_sep(s, p, q),
    ensures
        first_sep(s, from) is None,
    decreases s.len() - from,
{
    if from < s.len() {
        match sep_q_at(s, from) {
            Some(q) => {
                lemma_space_run_end(s, from + 1);
                assert(is_sep(s, from, q));
            },
            None => {},
        }
        lemma_first_sep_none(s, from + 1);
    }
}

proof fn lemma_first_sep_some(s: Seq<char>, from: int, p: int, q: int)
    requires
        0 <= from <= p,
        is_sep(s, p, q),
        forall|p2: int, q2: int| from <= p2 < p ==> !is_sep(s, p2, q2),
    ensures
        first_sep(s, from) == Some((p, q)),
    decreases p - from,
{
    if from == p {
        lemma_sep_q(s, p, q);
        lemma_space_run_end(s, p + 1);
        assert(sep_q_at(s, from) == Some(q));
    } else {
        match sep_q_at(s, from) {
            Some(q2) => {
                lemma_space_run_end(s, from + 1);
                assert(is_sep(s, from, q2));
                assert(false);
            },
            None => {},
        }
        lemma_first_sep_some(s, from + 1, p, q);
    }
}

proof fn lemma_first_close_sp_none(s: Seq<char>, from: int)
    requires
        0 <= from <= s.len(),
        forall|k: int| from <= k ==> !close_sp_at(s, k),
    ensures
        first_close_sp(s, from) is None,
    decreases s.len() - from,
{
    if from < s.len() {
        lemma_first_close_sp_none(s, from + 1);
    }
}

proof fn lemma_first_close_sp_some(s: Seq<char>, from: int, p: int)
    requires
        0 <= from <= p,
        close_sp_at(s, p),
        forall|k: int| from <= k < p ==> !close_sp_at(s, k),
    ensures
        first_close_sp(s, from) == Some(p),
    decreases p - from,
{
    if from < p {
        lemma_first_close_sp_some(s, from + 1, p);
    }
}

proof fn lemma_first_sep_is_sep(s: Seq<char>, from: int)
    requires
        0 <= from <= s.len(),
    ensures
        first_sep(s, from) matches Some((p, q)) ==> from <= p && is_sep(s, p, q),
    decreases s.len() - from,
{
    if from < s.len() {
        match sep_q_at(s, from) {
            Some(q) => {
                lemma_space_run_end(s, from + 1);
                assert(is_sep(s, from, q));
            },
            None => {
                lemma_first_sep_is_sep(s, from + 1);
            },
        }
    }
}

proof fn lemma_first_close_sp_is(s: Seq<char>, from: int)
    requires
        0 <= from <= s.len(),
    ensures
        first_close_sp(s, from) matches Some(p) ==> from <= p && close_sp_at(s, p),
    decreases s.len() - from,
{
    if from < s.len() && !close_sp_at(s, from) {
        lemma_first_close_sp_is(s, from + 1);
    }
}

/// The four raw fields extracted when the pattern's marker stands at `i`,
/// or `None` when it does not extract there. Each group runs to the first
/// closing parenthesis that the following required piece can follow; the
/// title is everything after the spaces that follow the third group.
pub open spec fn extract_here(s: Seq<char>, i: int) -> Option<
    (Seq<char>, Seq<char>, Seq<char>, Seq<char>),
> {
    if !marker_at(s, i) {
        None
    } else {
        let q0 = space_run_end(s, i + 5);
        if !(q0 > i + 5 && q0 < s.len() && s[q0] == '(') {
            None
        } else {
            match first_sep(s, q0 + 1) {
                None => None,
                Some((p1, q1)) => match first_sep(s, q1 + 1) {
                    None => None,
                    Some((p2, q2)) => match first_close_sp(s, q2 + 1) {
                        None => None,
                        Some(p3) => Some(
                            (
                                s.subrange(q0 + 1, p1),
                                s.subrange(q1 + 1, p2),
                                s.subrange(q2 + 1, p3),
                                s.subrange(space_run_end(s, p3 + 1), s.len() as int),
                            ),
                        ),
                    },
                },
            }
        }
    }
}

/// The fields extracted at the first marker position from which the whole
/// pattern extracts, scanning from `i`.
pub open spec fn extract_from(s: Seq<char>, i: int) -> Option<
    (Seq<char>, Seq<char>, Seq<char>, Seq<char>),
>
    decreases s.len() - i when 0 <= i <= s.len()
{
    if i >= s.len() {
        None
    } else if extract_here(s, i) is Some {
        extract_here(s, i)
    } else {
        extract_from(s, i + 1)
    }
}

/// The four raw fields of an event line: date text, time text, place text
/// and title text, or `None` for a line the field pattern does not match.
pub open spec fn extract_spec(s: Seq<char>) -> Option<
    (Seq<char>, Seq<char>, Seq<char>, Seq<char>),
> {
    extract_from(s, 0)
}

proof fn lemma_extract_skip(s: Seq<char>, a: int, b: int)
    requires
        0 <= a <= b <= s.len(),
        forall|j: int| a <= j < b ==> !marker_at(s, j),
    ensures
        extract_from(s, a) == extract_from(s, b),
    decreases b - a,
{
    if a < b {
        assert(extract_here(s, a) is None);
        lemma_extract_skip(s, a + 1, b);
    }
}

proof fn lemma_extract_none(s: Seq<char>, a: int)
    requires
        0 <= a <= s.len(),
        forall|j: int| a <= j ==> !marker_at(s, j),
    ensures
        extract_from(s, a) is None,
    decreases s.len() - a,
{
    if a < s.len() {
        assert(extract_here(s, a) is None);
        lemma_extract_none(s, a + 1);
    }
}

/// Extraction attempt with the marker fixed at `m`.
fn extract_here_exec<'a>(s: &'a str, m: usize) -> (r: Option<
    (&'a str, &'a str, &'a str, &'a str),
>)
    requires
        marker_at(s@, m as int),
    ensures
        match r {
            Some(t) => extract_here(s@, m as int) == Some((t.0@, t.1@, t.2@, t.3@)),
            None => extract_here(s@, m as int) is None,
        },
{
    let n = s.unicode_len();
    let q0 = space_run_end_exec(s, m + 5);
    if !(q0 > m + 5 && q0 < n) {
        return None;
    }
    let cq = s.get_char(q0);
    if cq != '(' {
        return None;
    }
    match find_sep(s, q0 + 1) {
        None => {
            proof {
                lemma_first_sep_none(s@, q0 + 1);
            }
            None
        },
        Some((p1, q1)) => {
            proof {
                lemma_first_sep_some(s@, q0 + 1, p1 as int, q1 as int);
            }
            match find_sep(s, q1 + 1) {
                None => {
                    proof {
                        lemma_first_sep_none(s@, q1 + 1);
                    }
                    None
                },
                Some((p2, q2)) => {
                    proof {
                        lemma_first_sep_some(s@, q1 + 1, p2 as int, q2 as int);
                    }
                    match find_close_sp(s, q2 + 1) {
                        None => {
                            proof {
                                lemma_first_close_sp_none(s@, q2 + 1);
                            }
                            None
                        },
                        Some(p3) => {
                            proof {
                                lemma_first_close_sp_some(s@, q2 + 1, p3 as int);
                            }
                            let ts = space_run_end_exec(s, p3 + 1);
                            let d = s.substring_char(q0 + 1, p1);
                            let t = s.substring_char(q1 + 1, p2);
                            let pl = s.substring_char(q2 + 1, p3);
                            let ti = s.substring_char(ts, n);
                            Some((d, t, pl, ti))
                        },
                    }
                },
            }
        },
    }
}

/// Splits a line into its four raw fields at the first position where the
/// full field pattern, title segment included, extracts.
pub(crate) fn extract_exec<'a>(s: &'a str) -> (r: Option<
    (&'a str, &'a str, &'a str, &'a str),
>)
    ensures
        match r {
            Some(t) => extract_spec(s@) == Some((t.0@, t.1@, t.2@, t.3@)),
            None => extract_spec(s@) is None,
        },
{
    let n = s.unicode_len();
    let mut i: usize = 0;
    loop
        invariant
            i <= n,
            n == s@.len(),
            extract_from(s@, 0) == extract_from(s@, i as int),
        decreases n - i,
    {
        match find_marker(s, i) {
            None => {
                proof {
                    lemma_extract_none(s@, i as int);
                }
                return None;
            },
            Some(m) => {
                proof {
                    lemma_extract_skip(s@, i as int, m as int);
                }
                match extract_here_exec(s, m) {
                    Some(t) => {
                        return Some(t);
                    },
                    None => {
                        proof {
                            assert(extract_from(s@, m as int) == extract_from(s@, m + 1));
                        }
                        i = m + 1;
                    },
                }
            },
        }
    }
}

proof fn lemma_extract_here_implies_match(s: Seq<char>, i: int)
    requires
        extract_here(s, i) is Some,
    ensures
        match_at(s, i),
{
    let q0 = space_run_end(s, i + 5);
    lemma_space_run_end(s, i + 5);
    assert(opens_after(s, i + 5, q0));
    match first_sep(s, q0 + 1) {
        Some((p1, q1)) => {
            lemma_first_sep_is_sep(s, q0 + 1);
            match first_sep(s, q1 + 1) {
                Some((p2, q2)) => {
                    lemma_first_sep_is_sep(s, q1 + 1);
                    match first_close_sp(s, q2 + 1) {
                        Some(p3) => {
                            lemma_first_close_sp_is(s, q2 + 1);
                            assert(tail3(s, q2 + 1));
                            assert(tail2(s, q1 + 1));
                            assert(tail1(s, q0 + 1));
                        },
                        None => {
                            assert(false);
                        },
                    }
                },
                None => {
                    assert(false);
                },
            }
        },
        None => {
            assert(false);
        },
    }
}

proof fn lemma_extract_from_implies_shape(s: Seq<char>, i: int)
    requires
        0 <= i <= s.len(),
        extract_from(s, i) is Some,
    ensures
        is_event_shape(s),
    decreases s.len() - i,
{
    if i < s.len() {
        if extract_here(s, i) is Some {
            lemma_extract_here_implies_match(s, i);
        } else {
            lemma_extract_from_implies_shape(s, i + 1);
        }
    }
}

/// Line recognition and field extraction validate independently, and
/// extraction is the stricter of the two: every line it splits into fields
/// has the event shape. The converse does not hold, since the shape does
/// not ask for a title segment.
pub proof fn lemma_extract_implies_shape(s: Seq<char>)
    requires
        extract_spec(s) is Some,
    ensures
        is_event_shape(s),
{
    lemma_extract_from_implies_shape(s, 0);
}

/// The literal tag `Tags: #event` as characters.
pub open spec fn event_tag() -> Seq<char> {
    seq!['T', 'a', 'g', 's', ':', ' ', '#', 'e', 'v', 'e', 'n', 't']
}

/// The tag occurs at position `i`.
pub open spec fn tag_at(s: Seq<char>, i: int) -> bool {
    0 <= i && i + 12 <= s.len() && s.subrange(i, i + 12) == event_tag()
}

/// The text contains the literal tag `Tags: #event` somewhere.
pub open spec fn contains_event_tag(s: Seq<char>) -> bool {
    exists|i: int| #[trigger] tag_at(s, i)
}

/// Decides whether a file's whole text marks the file as an event list:
/// some line of it carries the literal tag `Tags: #event`. The tag holds no
/// line break, so this is exactly a substring search.
pub fn file_is_event(filestr: &str) -> (b: bool)
    ensures
        b == contains_event_tag(filestr@),
{
    let tag = "Tags: #event";
    proof {
        reveal_strlit("Tags: #event");
        assert(tag@ =~= event_tag());
    }
    let n = filestr.unicode_len();
    if n < 12 {
        proof {
            assert forall|i: int| !#[trigger] tag_at(filestr@, i) by {
                if 0 <= i {
                    assert(i + 12 > filestr@.len());
                }
            }
        }
        return false;
    }
    let mut i: usize = 0;
    while i <= n - 12
        invariant
            n >= 12,
            i <= n - 12 + 1,
            n == filestr@.len(),
            tag@ == event_tag(),
            forall|j: int| 0 <= j < i ==> !tag_at(filestr@, j),
        decreases n - i,
    {
        let mut j: usize = 0;
        while j < 12
            invariant
                j <= 12,
                i + 12 <= n,
                n == filestr@.len(),
                tag@ == event_tag(),
                forall|k: int| 0 <= k < j ==> filestr@[i + k] == event_tag()[k],
            ensures
                j == 12 ==> forall|k: int| 0 <= k < 12 ==> filestr@[i + k] == event_tag()[k],
                j < 12 ==> !tag_at(filestr@, i as int),
            decreases 12 - j,
        {
            let c = filestr.get_char(i + j);
            let tc = tag.get_char(j);
            if c != tc {
                proof {
                    assert(filestr@.subrange(i as int, i + 12)[j as int] == filestr@[i + j]);
                }
                break;
            }
            j += 1;
        }
        if j == 12 {
            proof {
                assert forall|k: int| 0 <= k < 12 implies filestr@.subrange(i as int, i + 12)[k]
                    == event_tag()[k] by {
                    assert(filestr@.subrange(i as int, i + 12)[k] == filestr@[i + k]);
                }
                assert(filestr@.subrange(i as int, i + 12) =~= event_tag());
                assert(tag_at(filestr@, i as int));
            }
            return true;
        }
        i += 1;
    }
    proof {
        assert forall|k: int| !#[trigger] tag_at(filestr@, k) by {
            if 0 <= k < i {
            } else if k >= i {
                assert(k + 12 > filestr@.len());
            }
        }
    }
    false
}

} // verus!
