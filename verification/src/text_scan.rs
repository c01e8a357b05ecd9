//! Scanning text by characters: Unicode whitespace, trimming, and finding a
//! character or a word from a position on.
use vstd::prelude::*;
use crate::text::{chars_of, is_substring};

verus! {

/// The characters `char::is_whitespace` holds of: those with the Unicode
/// White_Space property.
pub open spec fn is_ws(c: char) -> bool {
    let v = c as u32;
    (0x09 <= v <= 0x0D) || v == 0x20 || v == 0x85 || v == 0xA0 || v == 0x1680 || (0x2000 <= v <= 0x200A) || v
        == 0x2028 || v == 0x2029 || v == 0x202F || v == 0x205F || v == 0x3000
}

pub fn char_is_ws(c: char) -> (b: bool)
    ensures
        b == is_ws(c),
{
    let v = c as u32;
    (0x09 <= v && v <= 0x0D) || v == 0x20 || v == 0x85 || v == 0xA0 || v == 0x1680 || (0x2000 <= v && v <= 0x200A)
        || v == 0x2028 || v == 0x2029 || v == 0x202F || v == 0x205F || v == 0x3000
}

/// The index of the first character at or after `i` that is not whitespace,
/// or the length.
pub open spec fn skip_ws(s: Seq<char>, i: int) -> int
    decreases s.len() - i,
{
    if i >= s.len() || i < 0 {
        s.len() as int
    } else if is_ws(s[i]) {
        skip_ws(s, i + 1)
    } else {
        i
    }
}

/// One past the last character before `j` (and at or after `lo`) that is not
/// whitespace, or `lo`.
pub open spec fn trim_end_at(s: Seq<char>, lo: int, j: int) -> int
    decreases j - lo,
{
    if j <= lo {
        lo
    } else if is_ws(s[j - 1]) {
        trim_end_at(s, lo, j - 1)
    } else {
        j
    }
}

/// `s` without leading and trailing whitespace, as `str::trim` gives it.
pub open spec fn trim(s: Seq<char>) -> Seq<char> {
    let a = skip_ws(s, 0);
    s.subrange(a, trim_end_at(s, a, s.len() as int))
}

pub proof fn lemma_skip_ws(s: Seq<char>, i: int)
    requires
        0 <= i <= s.len(),
    ensures
        i <= skip_ws(s, i) <= s.len(),
        skip_ws(s, i) < s.len() ==> !is_ws(s[skip_ws(s, i)]),
    decreases s.len() - i,
{
    if i < s.len() && is_ws(s[i]) {
        lemma_skip_ws(s, i + 1);
    }
}

pub proof fn lemma_trim_end(s: Seq<char>, lo: int, j: int)
    requires
        0 <= lo <= j <= s.len(),
    ensures
        lo <= trim_end_at(s, lo, j) <= j,
    decreases j - lo,
{
    if j > lo && is_ws(s[j - 1]) {
        lemma_trim_end(s, lo, j - 1);
    }
}

/// The bounds of `s[lo..hi]` trimmed: `trim(s.subrange(lo, hi))` is
/// `s.subrange(a, b)`.
pub fn trim_bounds(s: &Vec<char>, lo: usize, hi: usize) -> (r: (usize, usize))
    requires
        lo <= hi <= s@.len(),
    ensures
        lo <= r.0 <= r.1 <= hi,
        s@.subrange(r.0 as int, r.1 as int) == trim(s@.subrange(lo as int, hi as int)),
{
    let ghost t = s@.subrange(lo as int, hi as int);
    let mut a = lo;
    while a < hi && char_is_ws(s[a])
        invariant
            lo <= a <= hi <= s@.len(),
            t == s@.subrange(lo as int, hi as int),
            skip_ws(t, 0) == skip_ws(t, a - lo),
        decreases hi - a,
    {
        a += 1;
    }
    proof {
        assert(skip_ws(t, a - lo) == a - lo);
    }
    let mut b = hi;
    while b > a && char_is_ws(s[b - 1])
        invariant
            lo <= a <= b <= hi <= s@.len(),
            t == s@.subrange(lo as int, hi as int),
            trim_end_at(t, a - lo, t.len() as int) == trim_end_at(t, a - lo, b - lo),
        decreases b - a,
    {
        b -= 1;
    }
    proof {
        assert(trim_end_at(t, a - lo, b - lo) == b - lo);
        assert(t.subrange(a - lo, b - lo) =~= s@.subrange(a as int, b as int));
    }
    (a, b)
}

/// The index of the first `c` at or after `i`, if any.
pub open spec fn find_char(s: Seq<char>, c: char, i: int) -> Option<int>
    decreases s.len() - i,
{
    if i >= s.len() || i < 0 {
        None
    } else if s[i] == c {
        Some(i)
    } else {
        find_char(s, c, i + 1)
    }
}

pub proof fn lemma_find_char(s: Seq<char>, c: char, i: int)
    requires
        0 <= i,
    ensures
        find_char(s, c, i) matches Some(k) ==> i <= k < s.len() && s[k] == c,
    decreases s.len() - i,
{
    if i < s.len() && s[i] != c {
        lemma_find_char(s, c, i + 1);
    }
}

pub fn find_char_from(s: &Vec<char>, c: char, i: usize) -> (r: Option<usize>)
    ensures
        match find_char(s@, c, i as int) {
            Some(k) => r == Some(k as usize),
            None => r is None,
        },
{
    let mut k = i;
    while k < s.len()
        invariant
            i <= k,
            find_char(s@, c, i as int) == find_char(s@, c, k as int),
        decreases s@.len() - k,
    {
        if s[k] == c {
            return Some(k);
        }
        k += 1;
    }
    None
}

/// `w` starts at index `i` of `s`.
pub open spec fn word_at(s: Seq<char>, w: Seq<char>, i: int) -> bool {
    0 <= i && i + w.len() <= s.len() && s.subrange(i, i + w.len()) == w
}

/// The index of the first `w` at or after `i`, if any.
pub open spec fn find_word(s: Seq<char>, w: Seq<char>, i: int) -> Option<int>
    decreases s.len() + 1 - i,
{
    if i + w.len() > s.len() || i < 0 {
        None
    } else if word_at(s, w, i) {
        Some(i)
    } else {
        find_word(s, w, i + 1)
    }
}

pub proof fn lemma_find_word(s: Seq<char>, w: Seq<char>, i: int)
    requires
        0 <= i,
    ensures
        find_word(s, w, i) matches Some(k) ==> i <= k && word_at(s, w, k),
    decreases s.len() + 1 - i,
{
    if i + w.len() <= s.len() && !word_at(s, w, i) {
        lemma_find_word(s, w, i + 1);
    }
}

fn word_matches(s: &Vec<char>, w: &Vec<char>, i: usize) -> (b: bool)
    requires
        i + w@.len() <= s@.len(),
    ensures
        b == word_at(s@, w@, i as int),
{
    let sl = s.len();
    let mut k: usize = 0;
    while k < w.len()
        invariant
            k <= w@.len(),
            sl == s@.len(),
            i + w@.len() <= s@.len(),
            forall|j: int| 0 <= j < k ==> s@[i + j] == w@[j],
        decreases w@.len() - k,
    {
        if s[i + k] != w[k] {
            proof {
                assert(s@.subrange(i as int, i + w@.len())[k as int] != w@[k as int]);
            }
            return false;
        }
        k += 1;
    }
    proof {
        assert(s@.subrange(i as int, i + w@.len()) =~= w@);
    }
    true
}

pub fn find_word_from(s: &Vec<char>, w: &Vec<char>, i: usize) -> (r: Option<usize>)
    ensures
        match find_word(s@, w@, i as int) {
            Some(k) => r == Some(k as usize),
            None => r is None,
        },
{
    let mut k = i;
    let n = s.len();
    while k <= n && n - k >= w.len()
        invariant
            i <= k,
            n == s@.len(),
            find_word(s@, w@, i as int) == find_word(s@, w@, k as int),
        decreases n + 1 - k,
    {
        if word_matches(s, w, k) {
            return Some(k);
        }
        proof {
            if k == n {
                assert(s@.subrange(k as int, k as int) =~= w@);
            }
        }
        k += 1;
    }
    None
}

proof fn lemma_find_word_none(s: Seq<char>, w: Seq<char>, i: int, j: int)
    requires
        0 <= i <= j,
        find_word(s, w, i) is None,
    ensures
        !word_at(s, w, j),
    decreases j - i,
{
    if i + w.len() <= s.len() && i < j {
        lemma_find_word_none(s, w, i + 1, j);
    }
}

/// Whether `pat` occurs in `s` as a run of consecutive characters (what
/// `str::contains` answers for a string pattern).
pub fn str_contains(s: &str, pat: &str) -> (b: bool)
    ensures
        b == is_substring(pat@, s@),
{
    let sc = chars_of(s);
    let pc = chars_of(pat);
    let r = find_word_from(&sc, &pc, 0);
    proof {
        lemma_find_word(s@, pat@, 0);
        assert(sc@ == s@ && pc@ == pat@);
        if r is Some {
            let k = find_word(s@, pat@, 0)->0;
            assert(word_at(s@, pat@, k));
            assert(s@.subrange(k, k + pat@.len()) == pat@);
        } else {
            assert forall|i: int| 0 <= i && i + pat@.len() <= s@.len() implies #[trigger] s@.subrange(i, i + pat@.len())
                != pat@ by {
                lemma_find_word_none(s@, pat@, 0, i);
            }
        }
    }
    r.is_some()
}

} // verus!
