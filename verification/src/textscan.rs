//! Character classes and maximal-run scanning over the characters of a
//! string, the building blocks of every pattern matcher in this crate.

use vstd::prelude::*;

verus! {

/// An ASCII decimal digit, `0` through `9`.
pub open spec fn is_digit(c: char) -> bool {
    48 <= c as u32 && c as u32 <= 57
}

/// An ASCII letter, `a-z` or `A-Z`.
pub open spec fn is_alpha(c: char) -> bool {
    (65 <= c as u32 && c as u32 <= 90) || (97 <= c as u32 && c as u32 <= 122)
}

/// The whitespace characters that field trimming removes.
pub open spec fn is_ws(c: char) -> bool {
    c == ' ' || c == '\t' || c == '\r' || c == '\n'
}

/// End of the maximal run of decimal digits that starts at `i`.
pub open spec fn digit_run_end(s: Seq<char>, i: int) -> int
    decreases s.len() - i when 0 <= i <= s.len()
{
    if i >= s.len() {
        i
    } else if is_digit(s[i]) {
        digit_run_end(s, i + 1)
    } else {
        i
    }
}

/// End of the maximal run of ASCII letters that starts at `i`.
pub open spec fn alpha_run_end(s: Seq<char>, i: int) -> int
    decreases s.len() - i when 0 <= i <= s.len()
{
    if i >= s.len() {
        i
    } else if is_alpha(s[i]) {
        alpha_run_end(s, i + 1)
    } else {
        i
    }
}

/// End of the maximal run of space characters (`' '` only) starting at `i`.
pub open spec fn space_run_end(s: Seq<char>, i: int) -> int
    decreases s.len() - i when 0 <= i <= s.len()
{
    if i >= s.len() {
        i
    } else if s[i] == ' ' {
        space_run_end(s, i + 1)
    } else {
        i
    }
}

pub proof fn lemma_space_run_end(s: Seq<char>, i: int)
    requires
        0 <= i <= s.len(),
    ensures
        i <= space_run_end(s, i) <= s.len(),
        forall|k: int| i <= k < space_run_end(s, i) ==> #[trigger] s[k] == ' ',
        space_run_end(s, i) < s.len() ==> s[space_run_end(s, i)] != ' ',
    decreases s.len() - i,
{
    if i < s.len() && s[i] == ' ' {
        lemma_space_run_end(s, i + 1);
    }
}

/// Executable check for [`is_digit`].
pub fn digit(c: char) -> (b: bool)
    ensures
        b == is_digit(c),
{
    let u = c as u32;
    48 <= u && u <= 57
}

/// Executable check for [`is_alpha`].
pub fn alpha(c: char) -> (b: bool)
    ensures
        b == is_alpha(c),
{
    let u = c as u32;
    (65 <= u && u <= 90) || (97 <= u && u <= 122)
}

/// Executable check for [`is_ws`].
pub fn ws(c: char) -> (b: bool)
    ensures
        b == is_ws(c),
{
    c == ' ' || c == '\t' || c == '\r' || c == '\n'
}

/// Executable twin of [`digit_run_end`].
pub fn digit_run_end_exec(s: &str, i: usize) -> (r: usize)
    requires
        i <= s@.len(),
    ensures
        r == digit_run_end(s@, i as int),
        i <= r <= s@.len(),
{
    let n = s.unicode_len();
    let mut j = i;
    while j < n
        invariant
            i <= j <= n,
            n == s@.len(),
            digit_run_end(s@, i as int) == digit_run_end(s@, j as int),
        ensures
            j == digit_run_end(s@, i as int),
        decreases n - j,
    {
        let c = s.get_char(j);
        if digit(c) {
            assert(digit_run_end(s@, j as int) == digit_run_end(s@, j + 1));
            j += 1;
        } else {
            assert(digit_run_end(s@, j as int) == j as int);
            break;
        }
    }
    j
}

/// Executable twin of [`alpha_run_end`].
pub fn alpha_run_end_exec(s: &str, i: usize) -> (r: usize)
    requires
        i <= s@.len(),
    ensures
        r == alpha_run_end(s@, i as int),
        i <= r <= s@.len(),
{
    let n = s.unicode_len();
    let mut j = i;
    while j < n
        invariant
            i <= j <= n,
            n == s@.len(),
            alpha_run_end(s@, i as int) == alpha_run_end(s@, j as int),
        ensures
            j == alpha_run_end(s@, i as int),
        decreases n - j,
    {
        let c = s.get_char(j);
        if alpha(c) {
            assert(alpha_run_end(s@, j as int) == alpha_run_end(s@, j + 1));
            j += 1;
        } else {
            assert(alpha_run_end(s@, j as int) == j as int);
            break;
        }
    }
    j
}

/// Executable twin of [`space_run_end`].
pub fn space_run_end_exec(s: &str, i: usize) -> (r: usize)
    requires
        i <= s@.len(),
    ensures
        r == space_run_end(s@, i as int),
        i <= r <= s@.len(),
{
    let n = s.unicode_len();
    let mut j = i;
    while j < n
        invariant
            i <= j <= n,
            n == s@.len(),
            space_run_end(s@, i as int) == space_run_end(s@, j as int),
        ensures
            j == space_run_end(s@, i as int),
        decreases n - j,
    {
        let c = s.get_char(j);
        if c == ' ' {
            assert(space_run_end(s@, j as int) == space_run_end(s@, j + 1));
            j += 1;
        } else {
            assert(space_run_end(s@, j as int) == j as int);
            break;
        }
    }
    j
}

/// First index at or after `i` holding a non-whitespace character.
pub open spec fn trim_start_idx(s: Seq<char>, i: int) -> int
    decreases s.len() - i when 0 <= i <= s.len()
{
    if i >= s.len() {
        i
    } else if is_ws(s[i]) {
        trim_start_idx(s, i + 1)
    } else {
        i
    }
}

/// One past the last non-whitespace character strictly before `i`.
pub open spec fn trim_end_idx(s: Seq<char>, i: int) -> int
    decreases i when 0 <= i <= s.len()
{
    if i <= 0 {
        0
    } else if is_ws(s[i - 1]) {
        trim_end_idx(s, i - 1)
    } else {
        i
    }
}

/// `s` with leading and trailing whitespace removed.
pub open spec fn trim_seq(s: Seq<char>) -> Seq<char> {
    let a = trim_start_idx(s, 0);
    let b = trim_end_idx(s, s.len() as int);
    if a < b {
        s.subrange(a, b)
    } else {
        Seq::empty()
    }
}

/// Executable twin of [`trim_seq`].
pub fn trim_exec<'a>(s: &'a str) -> (r: &'a str)
    ensures
        r@ == trim_seq(s@),
{
    let n = s.unicode_len();
    let mut a: usize = 0;
    while a < n
        invariant
            a <= n,
            n == s@.len(),
            trim_start_idx(s@, 0) == trim_start_idx(s@, a as int),
        ensures
            a == trim_start_idx(s@, 0),
        decreases n - a,
    {
        let c = s.get_char(a);
        if ws(c) {
            assert(trim_start_idx(s@, a as int) == trim_start_idx(s@, a + 1));
            a += 1;
        } else {
            assert(trim_start_idx(s@, a as int) == a as int);
            break;
        }
    }
    let mut b: usize = n;
    while b > 0
        invariant
            b <= n,
            n == s@.len(),
            trim_end_idx(s@, n as int) == trim_end_idx(s@, b as int),
        ensures
            b == trim_end_idx(s@, n as int),
        decreases b,
    {
        let c = s.get_char(b - 1);
        if ws(c) {
            assert(trim_end_idx(s@, b as int) == trim_end_idx(s@, b - 1));
            b -= 1;
        } else {
            assert(trim_end_idx(s@, b as int) == b as int);
            break;
        }
    }
    if a < b {
        s.substring_char(a, b)
    } else {
        let e = "";
        proof {
            reveal_strlit("");
            assert(e@ =~= trim_seq(s@));
        }
        e
    }
}

} // verus!
