//! Character-level helpers on note text: whitespace, line splitting and
//! trimming, stated over `Seq<char>`.

use vstd::prelude::*;

verus! {

broadcast use vstd::string::group_string_axioms;

/// The Unicode `White_Space` property, which is what `char::is_whitespace`
/// (and so `str::trim`) tests.
pub open spec fn is_space(c: char) -> bool {
    let u = c as u32;
    ||| 0x09 <= u <= 0x0d
    ||| u == 0x20
    ||| u == 0x85
    ||| u == 0xa0
    ||| u == 0x1680
    ||| 0x2000 <= u <= 0x200a
    ||| u == 0x2028
    ||| u == 0x2029
    ||| u == 0x202f
    ||| u == 0x205f
    ||| u == 0x3000
}

/// Executable test for `is_space`.
pub fn char_is_space(c: char) -> (r: bool)
    ensures
        r == is_space(c),
{
    let u = c as u32;
    (0x09 <= u && u <= 0x0d) || u == 0x20 || u == 0x85 || u == 0xa0 || u == 0x1680 || (0x2000
        <= u && u <= 0x200a) || u == 0x2028 || u == 0x2029 || u == 0x202f || u == 0x205f || u
        == 0x3000
}

/// The characters of a string, in order.
pub fn chars_of(s: &str) -> (r: Vec<char>)
    ensures
        r@ == s@,
{
    let mut r: Vec<char> = Vec::new();
    for c in it: s.chars()
        invariant
            r@ == it.seq().take(it.index()),
    {
        r.push(c);
    }
    r
}


/// Whether a string is empty or all whitespace (what `str::trim` leaves empty).
pub fn is_blank(s: &str) -> (r: bool)
    ensures
        r == all_space(s@, 0, s@.len() as int),
{
    let v = chars_of(s);
    let n = v.len();
    let mut i: usize = 0;
    while i < n
        invariant
            n == v@.len(),
            v@ == s@,
            i <= n,
            all_space(s@, 0, i as int),
        decreases n - i,
    {
        if !char_is_space(v[i]) {
            return false;
        }
        i = i + 1;
    }
    true
}

/// Index of the first `'\n'` at or after `start`, or the length when there is none:
/// the end of the line that begins at `start`.
pub open spec fn line_end(s: Seq<char>, start: int) -> int
    decreases s.len() - start,
{
    if start >= s.len() {
        s.len() as int
    } else if s[start] == '\n' {
        start
    } else {
        line_end(s, start + 1)
    }
}

/// First index in `[a, b)` that is not whitespace, or `b`.
pub open spec fn skip_space_fwd(s: Seq<char>, a: int, b: int) -> int
    decreases b - a,
{
    if a >= b {
        b
    } else if is_space(s[a]) {
        skip_space_fwd(s, a + 1, b)
    } else {
        a
    }
}

/// One past the last index in `[a, b)` that is not whitespace, or `a`.
pub open spec fn skip_space_back(s: Seq<char>, a: int, b: int) -> int
    decreases b - a,
{
    if b <= a {
        a
    } else if is_space(s[b - 1]) {
        skip_space_back(s, a, b - 1)
    } else {
        b
    }
}

/// Every character of `s[a..b]` is whitespace.
pub open spec fn all_space(s: Seq<char>, a: int, b: int) -> bool {
    forall|k: int| a <= k < b ==> #[trigger] is_space(s[k])
}

/// The bounds of the trimmed first non-blank line at or after `start`, lines
/// being split at `'\n'`.
pub open spec fn first_text_line(s: Seq<char>, start: int) -> Option<(int, int)>
    decreases s.len() + 1 - start,
{
    if start < 0 || start >= s.len() {
        None
    } else {
        let e = line_end(s, start);
        proof {
            lemma_line_end_bounds(s, start);
        }
        let lo = skip_space_fwd(s, start, e);
        if lo < e {
            Some((lo, skip_space_back(s, lo, e)))
        } else {
            first_text_line(s, e + 1)
        }
    }
}

pub proof fn lemma_line_end_bounds(s: Seq<char>, start: int)
    requires
        0 <= start <= s.len(),
    ensures
        start <= line_end(s, start) <= s.len(),
        line_end(s, start) < s.len() ==> s[line_end(s, start)] == '\n',
        forall|k: int| start <= k < line_end(s, start) ==> s[k] != '\n',
    decreases s.len() - start,
{
    if start < s.len() && s[start] != '\n' {
        lemma_line_end_bounds(s, start + 1);
    }
}

/// The bounds of the first text line lie inside `s`, at or after `start`,
/// and enclose a non-empty run that starts and ends with a non-space.
pub proof fn lemma_first_text_line_bounds(s: Seq<char>, start: int)
    requires
        0 <= start,
    ensures
        first_text_line(s, start) matches Some((lo, hi)) ==> {
            &&& start <= lo < hi <= s.len()
            &&& !is_space(s[lo])
            &&& !is_space(s[hi - 1])
            &&& forall|k: int| lo <= k < hi ==> s[k] != '\n'
        },
    decreases s.len() + 1 - start,
{
    if start < s.len() {
        let e = line_end(s, start);
        lemma_line_end_bounds(s, start);
        lemma_skip_fwd_bounds(s, start, e);
        let lo = skip_space_fwd(s, start, e);
        if lo < e {
            lemma_skip_back_bounds(s, lo, e);
        } else {
            lemma_first_text_line_bounds(s, e + 1);
        }
    }
}

/// When everything from `start` on is whitespace, no line there has text.
pub proof fn lemma_blank_has_no_text_line(s: Seq<char>, start: int)
    requires
        0 <= start,
        all_space(s, start, s.len() as int),
    ensures
        first_text_line(s, start) is None,
    decreases s.len() + 1 - start,
{
    if start < s.len() {
        let e = line_end(s, start);
        lemma_line_end_bounds(s, start);
        lemma_skip_fwd_at(s, start, e, e);
        lemma_blank_has_no_text_line(s, e + 1);
    }
}

/// When some character at or after `start` is not whitespace, some line
/// there has text.
pub proof fn lemma_text_has_text_line(s: Seq<char>, start: int, k: int)
    requires
        0 <= start <= k < s.len(),
        !is_space(s[k]),
    ensures
        first_text_line(s, start) is Some,
    decreases s.len() + 1 - start,
{
    let e = line_end(s, start);
    lemma_line_end_bounds(s, start);
    lemma_skip_fwd_bounds(s, start, e);
    let lo = skip_space_fwd(s, start, e);
    if k < e {
        if lo >= e {
            assert(is_space(s[k]));
        }
    } else {
        if lo >= e {
            assert(k != e);
            lemma_text_has_text_line(s, e + 1, k);
        }
    }
}

pub proof fn lemma_skip_fwd_bounds(s: Seq<char>, a: int, b: int)
    requires
        a <= b,
    ensures
        a <= skip_space_fwd(s, a, b) <= b,
        skip_space_fwd(s, a, b) < b ==> !is_space(s[skip_space_fwd(s, a, b)]),
        all_space(s, a, skip_space_fwd(s, a, b)),
    decreases b - a,
{
    if a < b && is_space(s[a]) {
        lemma_skip_fwd_bounds(s, a + 1, b);
    }
}

pub proof fn lemma_skip_back_bounds(s: Seq<char>, a: int, b: int)
    requires
        a < b,
        !is_space(s[a]),
    ensures
        a < skip_space_back(s, a, b) <= b,
        !is_space(s[skip_space_back(s, a, b) - 1]),
        all_space(s, skip_space_back(s, a, b), b),
    decreases b - a,
{
    if is_space(s[b - 1]) {
        lemma_skip_back_bounds(s, a, b - 1);
    }
}

pub proof fn lemma_line_end_at(s: Seq<char>, start: int, e: int)
    requires
        0 <= start <= e <= s.len(),
        e == s.len() || s[e] == '\n',
        forall|k: int| start <= k < e ==> s[k] != '\n',
    ensures
        line_end(s, start) == e,
    decreases e - start,
{
    if start < e {
        lemma_line_end_at(s, start + 1, e);
    }
}

pub proof fn lemma_skip_fwd_at(s: Seq<char>, a: int, lo: int, b: int)
    requires
        a <= lo <= b,
        lo == b || !is_space(s[lo]),
        all_space(s, a, lo),
    ensures
        skip_space_fwd(s, a, b) == lo,
    decreases lo - a,
{
    if a < lo {
        lemma_skip_fwd_at(s, a + 1, lo, b);
    }
}

pub proof fn lemma_skip_back_at(s: Seq<char>, a: int, hi: int, b: int)
    requires
        a <= hi <= b,
        hi == a || !is_space(s[hi - 1]),
        all_space(s, hi, b),
    ensures
        skip_space_back(s, a, b) == hi,
    decreases b - hi,
{
    if hi < b {
        lemma_skip_back_at(s, a, hi, b - 1);
    }
}

/// `line_end` sees the first `'\n'` at or after `start`.
pub proof fn lemma_line_end_at_most(s: Seq<char>, start: int, j: int)
    requires
        0 <= start <= j < s.len(),
        s[j] == '\n',
    ensures
        line_end(s, start) <= j,
    decreases j - start,
{
    if start < j && s[start] != '\n' {
        lemma_line_end_at_most(s, start + 1, j);
    }
}

/// Line ends in `c` are found at the same places in `a + c`, shifted by `a.len()`.
pub proof fn lemma_line_end_shift(a: Seq<char>, c: Seq<char>, k: int)
    requires
        0 <= k <= c.len(),
    ensures
        line_end(a + c, a.len() + k) == a.len() + line_end(c, k),
    decreases c.len() - k,
{
    if k < c.len() {
        assert((a + c)[a.len() + k] == c[k]);
        lemma_line_end_shift(a, c, k + 1);
    }
}

pub proof fn lemma_skip_fwd_shift(a: Seq<char>, c: Seq<char>, x: int, y: int)
    requires
        0 <= x <= y <= c.len(),
    ensures
        skip_space_fwd(a + c, a.len() + x, a.len() + y) == a.len() + skip_space_fwd(c, x, y),
    decreases y - x,
{
    if x < y {
        assert((a + c)[a.len() + x] == c[x]);
        lemma_skip_fwd_shift(a, c, x + 1, y);
    }
}

pub proof fn lemma_skip_back_shift(a: Seq<char>, c: Seq<char>, x: int, y: int)
    requires
        0 <= x <= y <= c.len(),
    ensures
        skip_space_back(a + c, a.len() + x, a.len() + y) == a.len() + skip_space_back(c, x, y),
    decreases y - x,
{
    if x < y {
        assert((a + c)[a.len() + y - 1] == c[y - 1]);
        lemma_skip_back_shift(a, c, x, y - 1);
    }
}

/// The first text line of `c` from `k` is that of `a + c` from
/// `a.len() + k`, shifted by `a.len()`.
pub proof fn lemma_first_text_line_shift(a: Seq<char>, c: Seq<char>, k: int)
    requires
        0 <= k <= c.len(),
    ensures
        first_text_line(a + c, a.len() + k) == match first_text_line(c, k) {
            Some((lo, hi)) => Some((a.len() + lo, a.len() + hi)),
            None => None::<(int, int)>,
        },
    decreases c.len() + 1 - k,
{
    let s = a + c;
    let d = a.len() as int;
    if k < c.len() {
        lemma_line_end_shift(a, c, k);
        lemma_line_end_bounds(c, k);
        let e = line_end(c, k);
        lemma_skip_fwd_shift(a, c, k, e);
        lemma_skip_fwd_bounds(c, k, e);
        let lo = skip_space_fwd(c, k, e);
        if lo < e {
            lemma_skip_back_shift(a, c, lo, e);
        } else {
            if e < c.len() {
                lemma_first_text_line_shift(a, c, e + 1);
            } else {
                assert(first_text_line(s, d + e + 1) is None);
            }
        }
    }
}

/// Blank lines in front of the first text line are skipped.
pub proof fn lemma_first_text_line_after_blank(s: Seq<char>, start: int, d: int)
    requires
        0 <= start <= d <= s.len(),
        all_space(s, start, d),
        start < d ==> s[d - 1] == '\n',
    ensures
        first_text_line(s, start) == first_text_line(s, d),
    decreases d - start,
{
    if start < d {
        lemma_line_end_at_most(s, start, d - 1);
        lemma_line_end_bounds(s, start);
        let e = line_end(s, start);
        lemma_skip_fwd_at(s, start, e, e);
        lemma_first_text_line_after_blank(s, e + 1, d);
    }
}

/// The trimmed first non-blank line of `s`, as char bounds into `s`, or
/// `None` when every line is blank.
pub fn find_first_text_line(s: &Vec<char>) -> (r: Option<(usize, usize)>)
    ensures
        match r {
            Some((lo, hi)) => first_text_line(s@, 0) == Some((lo as int, hi as int)),
            None => first_text_line(s@, 0) is None,
        },
{
    let n = s.len();
    let mut start: usize = 0;
    while start < n
        invariant
            n == s@.len(),
            start <= n,
            first_text_line(s@, 0) == first_text_line(s@, start as int),
        decreases n - start,
    {
        let mut e: usize = start;
        while e < n && s[e] != '\n'
            invariant
                n == s@.len(),
                start <= e <= n,
                forall|k: int| start <= k < e ==> s@[k] != '\n',
            decreases n - e,
        {
            e = e + 1;
        }
        proof {
            lemma_line_end_at(s@, start as int, e as int);
        }
        let mut lo: usize = start;
        while lo < e && char_is_space(s[lo])
            invariant
                n == s@.len(),
                start <= lo <= e <= n,
                all_space(s@, start as int, lo as int),
            decreases e - lo,
        {
            lo = lo + 1;
        }
        proof {
            lemma_skip_fwd_at(s@, start as int, lo as int, e as int);
        }
        if lo < e {
            let mut hi: usize = e;
            while hi > lo && char_is_space(s[hi - 1])
                invariant
                    n == s@.len(),
                    lo < e <= n,
                    lo <= hi <= e,
                    all_space(s@, hi as int, e as int),
                decreases hi - lo,
            {
                hi = hi - 1;
            }
            proof {
                lemma_skip_back_at(s@, lo as int, hi as int, e as int);
            }
            return Some((lo, hi));
        }
        assert(first_text_line(s@, start as int) == first_text_line(s@, e + 1));
        if e == n {
            assert(first_text_line(s@, e + 1) is None);
            return None;
        }
        start = e + 1;
    }
    None
}

} // verus!
