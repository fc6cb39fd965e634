//! Finding URLs inside field values.
//!
//! A URL is a token that starts with `http://`, `https://` or `ftp://` and runs
//! on through every following non-whitespace character; at least one such
//! character must follow the scheme. Tokens are found left to right and never
//! overlap, so a value splits into alternating plain and URL spans.
use vstd::prelude::*;

use crate::text::char_vec;

verus! {

/// `c` has the Unicode `White_Space` property.
pub open spec fn is_space(c: char) -> bool {
    let u = c as u32;
    (0x09 <= u && u <= 0x0d) || u == 0x20 || u == 0x85 || u == 0xa0 || u == 0x1680
        || (0x2000 <= u && u <= 0x200a) || u == 0x2028 || u == 0x2029 || u == 0x202f
        || u == 0x205f || u == 0x3000
}

/// `s` holds the character `c` at position `i`.
pub open spec fn char_at(s: Seq<char>, i: int, c: char) -> bool {
    0 <= i < s.len() && s[i] == c
}

/// `s` holds `http` at position `i`.
pub open spec fn http_at(s: Seq<char>, i: int) -> bool {
    char_at(s, i, 'h') && char_at(s, i + 1, 't') && char_at(s, i + 2, 't') && char_at(s, i + 3, 'p')
}

/// `s` holds `://` at position `i`.
pub open spec fn separator_at(s: Seq<char>, i: int) -> bool {
    char_at(s, i, ':') && char_at(s, i + 1, '/') && char_at(s, i + 2, '/')
}

/// Length of the scheme (`https://`, `http://` or `ftp://`) that starts at
/// position `i` of `s`, or 0 where none does.
pub open spec fn scheme_len(s: Seq<char>, i: int) -> nat {
    if http_at(s, i) && char_at(s, i + 4, 's') && separator_at(s, i + 5) {
        8
    } else if http_at(s, i) && separator_at(s, i + 4) {
        7
    } else if char_at(s, i, 'f') && char_at(s, i + 1, 't') && char_at(s, i + 2, 'p')
        && separator_at(s, i + 3) {
        6
    } else {
        0
    }
}

/// Number of non-whitespace characters of `s` in a row from position `j`.
pub open spec fn run_len(s: Seq<char>, j: int) -> nat
    decreases s.len() - j,
{
    if 0 <= j < s.len() && !is_space(s[j]) {
        1 + run_len(s, j + 1)
    } else {
        0
    }
}

/// Length of the URL that starts at position `i` of `s`, or 0 where none does.
pub open spec fn url_len(s: Seq<char>, i: int) -> nat {
    let p = scheme_len(s, i);
    if p > 0 && run_len(s, i + p) > 0 {
        p + run_len(s, i + p)
    } else {
        0
    }
}

/// Some position of `s` starts a URL.
pub open spec fn has_url(s: Seq<char>) -> bool {
    exists|i: int| 0 <= i < s.len() && #[trigger] url_len(s, i) > 0
}

/// A run of a value: characters `start..end`, a URL or plain text.
#[derive(Clone, Copy, Debug, PartialEq, Eq, Structural)]
pub struct Span {
    pub is_url: bool,
    pub start: usize,
    pub end: usize,
}

impl View for Span {
    type V = (bool, int, int);

    open spec fn view(&self) -> (bool, int, int) {
        (self.is_url, self.start as int, self.end as int)
    }
}

pub proof fn lemma_run_len_bound(s: Seq<char>, j: int)
    requires
        0 <= j,
    ensures
        j + run_len(s, j) <= if j <= s.len() { s.len() as int } else { j },
    decreases s.len() - j,
{
    if 0 <= j < s.len() && !is_space(s[j]) {
        lemma_run_len_bound(s, j + 1);
    }
}

pub proof fn lemma_url_len_bound(s: Seq<char>, i: int)
    requires
        0 <= i,
    ensures
        url_len(s, i) > 0 ==> i + url_len(s, i) <= s.len(),
{
    lemma_run_len_bound(s, i + scheme_len(s, i));
}

/// The spans of `s` from position `i` on, where plain text began at `t`.
pub open spec fn spans_from(s: Seq<char>, t: int, i: int) -> Seq<(bool, int, int)>
    decreases s.len() - i,
{
    if i < 0 || i >= s.len() {
        if 0 <= t < s.len() {
            seq![(false, t, s.len() as int)]
        } else {
            seq![]
        }
    } else if url_len(s, i) > 0 {
        let e = i + url_len(s, i);
        proof {
            lemma_url_len_bound(s, i);
        }
        let before: Seq<(bool, int, int)> = if t < i {
            seq![(false, t, i)]
        } else {
            seq![]
        };
        before + seq![(true, i, e)] + spans_from(s, e, e)
    } else {
        spans_from(s, t, i + 1)
    }
}

/// The plain and URL spans of `s`, left to right, covering all of it.
pub open spec fn url_spans(s: Seq<char>) -> Seq<(bool, int, int)> {
    spans_from(s, 0, 0)
}

/// `c` has the Unicode `White_Space` property.
pub fn is_space_char(c: char) -> (r: bool)
    ensures
        r == is_space(c),
{
    let u = c as u32;
    (0x09 <= u && u <= 0x0d) || u == 0x20 || u == 0x85 || u == 0xa0 || u == 0x1680
        || (0x2000 <= u && u <= 0x200a) || u == 0x2028 || u == 0x2029 || u == 0x202f
        || u == 0x205f || u == 0x3000
}

fn char_is(chars: &Vec<char>, i: usize, c: char) -> (r: bool)
    ensures
        r == char_at(chars@, i as int, c),
{
    i < chars.len() && chars[i] == c
}

fn scheme_len_at(chars: &Vec<char>, i: usize) -> (r: usize)
    requires
        i < chars.len(),
    ensures
        r == scheme_len(chars@, i as int),
{
    let http = char_is(chars, i, 'h') && char_is(chars, i + 1, 't') && char_is(chars, i + 2, 't')
        && char_is(chars, i + 3, 'p');
    if http && char_is(chars, i + 4, 's') && char_is(chars, i + 5, ':') && char_is(
        chars,
        i + 6,
        '/',
    ) && char_is(chars, i + 7, '/') {
        8
    } else if http && char_is(chars, i + 4, ':') && char_is(chars, i + 5, '/') && char_is(
        chars,
        i + 6,
        '/',
    ) {
        7
    } else if char_is(chars, i, 'f') && char_is(chars, i + 1, 't') && char_is(chars, i + 2, 'p')
        && char_is(chars, i + 3, ':') && char_is(chars, i + 4, '/') && char_is(chars, i + 5, '/') {
        6
    } else {
        0
    }
}

/// Length of the URL that starts at position `i`, or 0 where none does.
fn url_len_at(chars: &Vec<char>, i: usize) -> (r: usize)
    requires
        i < chars.len(),
    ensures
        r == url_len(chars@, i as int),
        r > 0 ==> i + r <= chars.len(),
{
    proof {
        lemma_url_len_bound(chars@, i as int);
    }
    let p = scheme_len_at(chars, i);
    if p == 0 {
        return 0;
    }
    let start = i + p;
    let mut j = start;
    while j < chars.len() && !is_space_char(chars[j])
        invariant
            start <= j <= chars.len(),
            run_len(chars@, start as int) == (j - start) + run_len(chars@, j as int),
        decreases chars.len() - j,
    {
        j = j + 1;
    }
    if j == start {
        0
    } else {
        j - i
    }
}

/// Some position of `value` starts a URL.
pub fn contains_url(value: &str) -> (r: bool)
    ensures
        r == has_url(value@),
{
    let chars = char_vec(value);
    let mut i: usize = 0;
    while i < chars.len()
        invariant
            chars@ == value@,
            i <= chars.len(),
            forall|k: int| 0 <= k < i ==> url_len(value@, k) == 0,
        decreases chars.len() - i,
    {
        if url_len_at(&chars, i) > 0 {
            return true;
        }
        i = i + 1;
    }
    false
}

/// Splits `value` into its plain and URL spans, left to right.
pub fn split_urls(value: &str) -> (r: Vec<Span>)
    ensures
        r@.map_values(|sp: Span| sp@) == url_spans(value@),
{
    let chars = char_vec(value);
    let ghost s = value@;
    let mut out: Vec<Span> = Vec::new();
    let mut t: usize = 0;
    let mut i: usize = 0;
    while i < chars.len()
        invariant
            chars@ == s,
            t <= i <= chars.len(),
            out@.map_values(|sp: Span| sp@) + spans_from(s, t as int, i as int) == url_spans(s),
        decreases chars.len() - i,
    {
        let n = url_len_at(&chars, i);
        if n > 0 {
            let ghost before = out@.map_values(|sp: Span| sp@);
            if t < i {
                out.push(Span { is_url: false, start: t, end: i });
            }
            out.push(Span { is_url: true, start: i, end: i + n });
            proof {
                assert(out@.map_values(|sp: Span| sp@) + spans_from(s, (i + n) as int, (i + n) as int)
                    =~= before + spans_from(s, t as int, i as int));
            }
            i = i + n;
            t = i;
        } else {
            i = i + 1;
        }
    }
    if t < chars.len() {
        let ghost before = out@.map_values(|sp: Span| sp@);
        out.push(Span { is_url: false, start: t, end: chars.len() });
        assert(out@.map_values(|sp: Span| sp@) =~= before + spans_from(s, t as int, i as int));
    } else {
        assert(out@.map_values(|sp: Span| sp@) =~= out@.map_values(|sp: Span| sp@) + spans_from(s, t as int, i as int));
    }
    out
}

} // verus!
