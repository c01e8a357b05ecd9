//! The text of the Ghost's dialogue boxes: words wrapped to a width, the
//! progress bar, and reading a yes/no answer.
use vstd::prelude::*;
use crate::text::{chars_of, lowercase_of, string_push, string_push_str, to_lowercase};
use crate::text_scan::{char_is_ws, find_char, find_char_from, is_ws, lemma_find_char, lemma_skip_ws, skip_ws, trim, trim_bounds};

verus! {

/// The number of bytes `c` takes in UTF-8.
pub open spec fn utf8_len(c: char) -> nat {
    if (c as u32) < 0x80 {
        1
    } else if (c as u32) < 0x800 {
        2
    } else if (c as u32) < 0x10000 {
        3
    } else {
        4
    }
}

/// The number of bytes `s` takes in UTF-8, as `str::len` counts them.
pub open spec fn byte_len(s: Seq<char>) -> nat
    decreases s.len(),
{
    if s.len() == 0 {
        0
    } else {
        byte_len(s.drop_last()) + utf8_len(s.last())
    }
}

proof fn lemma_byte_len_bound(s: Seq<char>)
    ensures
        byte_len(s) <= 4 * s.len(),
    decreases s.len(),
{
    if s.len() > 0 {
        lemma_byte_len_bound(s.drop_last());
    }
}

proof fn lemma_byte_len_concat(a: Seq<char>, b: Seq<char>)
    ensures
        byte_len(a + b) == byte_len(a) + byte_len(b),
    decreases b.len(),
{
    if b.len() == 0 {
        assert(a + b =~= a);
    } else {
        lemma_byte_len_concat(a, b.drop_last());
        assert((a + b).drop_last() =~= a + b.drop_last());
    }
}

/// The index of the first whitespace character at or after `i`, or the length.
pub open spec fn word_end(s: Seq<char>, i: int) -> int
    decreases s.len() - i,
{
    if i >= s.len() || i < 0 {
        s.len() as int
    } else if is_ws(s[i]) {
        i
    } else {
        word_end(s, i + 1)
    }
}

pub proof fn lemma_word_end(s: Seq<char>, i: int)
    requires
        0 <= i <= s.len(),
    ensures
        i <= word_end(s, i) <= s.len(),
        i < s.len() && !is_ws(s[i]) ==> i < word_end(s, i),
    decreases s.len() - i,
{
    if i < s.len() && !is_ws(s[i]) {
        lemma_word_end(s, i + 1);
    }
}

/// The words of `s` from index `i` on: the runs of non-whitespace characters,
/// as `str::split_whitespace` gives them.
pub open spec fn words_from(s: Seq<char>, i: int) -> Seq<Seq<char>>
    decreases s.len() - i,
{
    if i < 0 || i > s.len() {
        Seq::empty()
    } else {
        let a = skip_ws(s, i);
        proof {
            lemma_skip_ws(s, i);
        }
        if a >= s.len() {
            Seq::empty()
        } else {
            let b = word_end(s, a);
            proof {
                lemma_word_end(s, a);
            }
            seq![s.subrange(a, b)] + words_from(s, b)
        }
    }
}

/// Greedy filling of `words[k..]` into lines of at most `width` bytes,
/// continuing the line `current`: a word goes on the current line, after a
/// space, while the line stays within the width; a word longer than the
/// width gets a line of its own.
pub open spec fn fill(words: Seq<Seq<char>>, k: int, current: Seq<char>, width: nat) -> Seq<Seq<char>>
    decreases words.len() - k,
{
    if k < 0 || k >= words.len() {
        if current.len() == 0 {
            Seq::empty()
        } else {
            seq![current]
        }
    } else if current.len() == 0 {
        fill(words, k + 1, words[k], width)
    } else if byte_len(current) + 1 + byte_len(words[k]) <= width {
        fill(words, k + 1, current + seq![' '] + words[k], width)
    } else {
        seq![current] + fill(words, k + 1, words[k], width)
    }
}

/// The wrapped form of one line of text: an empty line when it holds
/// nothing but whitespace, else its words filled to `width`.
pub open spec fn wrap_line(line: Seq<char>, width: nat) -> Seq<Seq<char>> {
    let t = trim(line);
    if t.len() == 0 {
        seq![Seq::empty()]
    } else {
        fill(words_from(t, 0), 0, Seq::empty(), width)
    }
}

/// The wrapped lines of `s` from the line starting at `start` on. Lines end
/// at `\n`; a last line that is empty does not count, as with `str::lines`.
pub open spec fn wrap_from(s: Seq<char>, start: int, width: nat) -> Seq<Seq<char>>
    decreases s.len() - start,
{
    if start < 0 || start >= s.len() {
        Seq::empty()
    } else {
        let e = match find_char(s, '\n', start) {
            Some(k) => k,
            None => s.len() as int,
        };
        proof {
            lemma_find_char(s, '\n', start);
        }
        if e >= s.len() {
            wrap_line(s.subrange(start, e), width)
        } else {
            wrap_line(s.subrange(start, e), width) + wrap_from(s, e + 1, width)
        }
    }
}

/// The texts of a list of strings.
pub open spec fn texts_of(v: Seq<String>) -> Seq<Seq<char>> {
    v.map_values(|x: String| x@)
}

fn byte_len_of(c: &Vec<char>, from: usize, to: usize) -> (n: u128)
    requires
        from <= to <= c@.len(),
    ensures
        n == byte_len(c@.subrange(from as int, to as int)),
{
    let mut n: u128 = 0;
    let cl = c.len();
    let mut i = from;
    while i < to
        invariant
            from <= i <= to <= c@.len(),
            n == byte_len(c@.subrange(from as int, i as int)),
            cl == c@.len(),
        decreases to - i,
    {
        proof {
            lemma_byte_len_bound(c@.subrange(from as int, i as int));
            assert(c@.subrange(from as int, i + 1).drop_last() =~= c@.subrange(from as int, i as int));
        }
        let v = c[i] as u32;
        let w: u128 = if v < 0x80 {
            1
        } else if v < 0x800 {
            2
        } else if v < 0x10000 {
            3
        } else {
            4
        };
        n = n + w;
        i += 1;
    }
    n
}

fn text_of(c: &Vec<char>, from: usize, to: usize) -> (s: String)
    requires
        from <= to <= c@.len(),
    ensures
        s@ == c@.subrange(from as int, to as int),
{
    let mut s = String::new();
    let mut i = from;
    while i < to
        invariant
            from <= i <= to <= c@.len(),
            s@ == c@.subrange(from as int, i as int),
        decreases to - i,
    {
        string_push(&mut s, c[i]);
        i += 1;
        proof {
            assert(s@ =~= c@.subrange(from as int, i as int));
        }
    }
    s
}

/// Wraps the words of one non-blank line, appending the lines to `out`.
fn wrap_words(t: &Vec<char>, width: usize, out: &mut Vec<String>)
    requires
        trim(t@) == t@,
        t@.len() > 0,
    ensures
        texts_of(final(out)@) == texts_of(old(out)@) + fill(words_from(t@, 0), 0, Seq::empty(), width as nat),
{
    let n = t.len();
    let ghost words = words_from(t@, 0);
    let mut current = String::new();
    let mut cur_empty = true;
    let mut cur_bytes: u128 = 0;
    let mut i: usize = 0;
    let ghost mut k: int = 0;
    proof {
        assert(texts_of(out@) =~= texts_of(old(out)@));
    }
    while i < n
        invariant
            n == t@.len(),
            i <= n,
            0 <= k <= words.len(),
            words == words_from(t@, 0),
            words_from(t@, i as int) == words.skip(k),
            cur_bytes == byte_len(current@),
            cur_empty == (current@.len() == 0),
            byte_len(current@) <= 4 * (usize::MAX as int),
            texts_of(old(out)@) + fill(words, 0, Seq::empty(), width as nat) == texts_of(out@) + fill(
                words,
                k,
                current@,
                width as nat,
            ),
        decreases n - i,
    {
        let mut a = i;
        while a < n && char_is_ws(t[a])
            invariant
                i <= a <= n,
                n == t@.len(),
                skip_ws(t@, i as int) == skip_ws(t@, a as int),
            decreases n - a,
        {
            a += 1;
        }
        if a >= n {
            proof {
                assert(words_from(t@, i as int).len() == 0);
            }
            i = n;
        } else {
            let mut b = a;
            while b < n && !char_is_ws(t[b])
                invariant
                    a <= b <= n,
                    n == t@.len(),
                    word_end(t@, a as int) == word_end(t@, b as int),
                decreases n - b,
            {
                b += 1;
            }
            let ghost w = t@.subrange(a as int, b as int);
            proof {
                assert(words_from(t@, i as int) == seq![w] + words_from(t@, b as int));
                assert(words.skip(k).len() > 0);
                assert(words.skip(k)[0] == w);
                assert(words[k] == w);
                assert(words.skip(k + 1) =~= words.skip(k).skip(1));
                assert((seq![w] + words_from(t@, b as int)).skip(1) =~= words_from(t@, b as int));
                assert(words_from(t@, b as int) =~= words.skip(k + 1));
                lemma_byte_len_bound(w);
            }
            let wb = byte_len_of(t, a, b);
            let word = text_of(t, a, b);
            if cur_empty {
                current = word;
                cur_bytes = wb;
                cur_empty = false;
            } else if cur_bytes + 1 + wb <= width as u128 {
                let ghost prev = current@;
                proof {
                    lemma_byte_len_concat(prev, seq![' ']);
                    lemma_byte_len_concat(prev + seq![' '], w);
                    assert(seq![' '].drop_last() =~= Seq::<char>::empty());
                    assert(byte_len(Seq::<char>::empty()) == 0);
                    assert(seq![' '].last() == ' ');
                    assert((' ' as u32) == 32);
                    assert(utf8_len(' ') == 1);
                    assert(byte_len(seq![' ']) == 1);
                }
                string_push(&mut current, ' ');
                string_push_str(&mut current, word.as_str());
                proof {
                    assert(current@ =~= prev + seq![' '] + w);
                }
                cur_bytes = cur_bytes + 1 + wb;
            } else {
                let ghost before = out@;
                out.push(current);
                proof {
                    assert(texts_of(out@) =~= texts_of(before) + seq![current@]);
                }
                current = word;
                cur_bytes = wb;
                cur_empty = false;
            }
            proof {
                k = k + 1;
            }
            i = b;
        }
    }
    proof {
        assert(words.skip(k).len() == 0);
    }
    if !cur_empty {
        let ghost before = out@;
        out.push(current);
        proof {
            assert(texts_of(out@) =~= texts_of(before) + seq![current@]);
        }
    }
}

/// Wraps `text` to lines of at most `max_width` bytes (a longer word keeps a
/// line of its own): each line of the text is trimmed, an empty one stays an
/// empty line, and the words of the others are filled greedily.
pub fn wrap_text(text: &str, max_width: usize) -> (lines: Vec<String>)
    ensures
        texts_of(lines@) == wrap_from(text@, 0, max_width as nat),
{
    let c = chars_of(text);
    let n = c.len();
    let mut out: Vec<String> = Vec::new();
    let mut start: usize = 0;
    while start < n
        invariant
            n == c@.len(),
            c@ == text@,
            start <= n,
            wrap_from(text@, 0, max_width as nat) == texts_of(out@) + wrap_from(text@, start as int, max_width as nat),
        decreases n - start,
    {
        let e = match find_char_from(&c, '\n', start) {
            Some(k) => k,
            None => n,
        };
        proof {
            lemma_find_char(c@, '\n', start as int);
        }
        let ghost before = out@;
        let (a, b) = trim_bounds(&c, start, e);
        if a == b {
            out.push(String::new());
            proof {
                assert(texts_of(out@) =~= texts_of(before) + wrap_line(c@.subrange(start as int, e as int), max_width as nat));
            }
        } else {
            let t = text_of(&c, a, b);
            let tc = chars_of(t.as_str());
            proof {
                let tt = c@.subrange(a as int, b as int);
                assert(tc@ == trim(c@.subrange(start as int, e as int)));
                assert(trim(tc@) == tc@) by {
                    trim_idempotent(c@.subrange(start as int, e as int));
                }
            }
            wrap_words(&tc, max_width, &mut out);
        }
        if e >= n {
            proof {
                assert(wrap_from(text@, 0, max_width as nat) =~= texts_of(out@));
            }
            return out;
        }
        proof {
            assert(wrap_from(text@, 0, max_width as nat) =~= texts_of(out@) + wrap_from(text@, e + 1, max_width as nat));
        }
        start = e + 1;
    }
    proof {
        assert(wrap_from(text@, 0, max_width as nat) =~= texts_of(out@));
    }
    out
}

proof fn trim_idempotent(s: Seq<char>)
    ensures
        trim(trim(s)) == trim(s),
{
    let a = skip_ws(s, 0);
    lemma_skip_ws(s, 0);
    crate::text_scan::lemma_trim_end(s, a, s.len() as int);
    let b = crate::text_scan::trim_end_at(s, a, s.len() as int);
    let t = s.subrange(a, b);
    if t.len() > 0 {
        assert(t[0] == s[a]);
        assert(skip_ws(t, 0) == 0);
        lemma_trim_end_last(s, a, s.len() as int);
        assert(t[t.len() - 1] == s[b - 1]);
        assert(crate::text_scan::trim_end_at(t, 0, t.len() as int) == t.len());
        assert(t.subrange(0, t.len() as int) =~= t);
    } else {
        assert(skip_ws(t, 0) == 0);
        assert(t.subrange(0, 0) =~= t);
    }
}

proof fn lemma_trim_end_last(s: Seq<char>, lo: int, j: int)
    requires
        0 <= lo <= j <= s.len(),
    ensures
        crate::text_scan::trim_end_at(s, lo, j) > lo ==> !is_ws(s[crate::text_scan::trim_end_at(s, lo, j) - 1]),
    decreases j - lo,
{
    if j > lo && is_ws(s[j - 1]) {
        lemma_trim_end_last(s, lo, j - 1);
    }
}

/// A twenty-cell bar: one filled cell for every full five percent.
pub open spec fn progress_bar_text(pct: nat) -> Seq<char> {
    Seq::new(pct / 5, |i: int| '█') + Seq::new((20 - pct / 5) as nat, |i: int| '░')
}

/// The progress bar shown at `pct` percent.
pub fn progress_bar(pct: usize) -> (bar: String)
    requires
        pct <= 104,
    ensures
        bar@ == progress_bar_text(pct as nat),
{
    let filled = pct / 5;
    let empty = 20 - filled;
    let mut bar = String::new();
    let mut i: usize = 0;
    while i < filled
        invariant
            i <= filled,
            bar@ == Seq::new(i as nat, |k: int| '█'),
        decreases filled - i,
    {
        string_push(&mut bar, '█');
        i += 1;
        proof {
            assert(bar@ =~= Seq::new(i as nat, |k: int| '█'));
        }
    }
    let ghost head = bar@;
    let mut j: usize = 0;
    while j < empty
        invariant
            j <= empty,
            bar@ == head + Seq::new(j as nat, |k: int| '░'),
        decreases empty - j,
    {
        string_push(&mut bar, '░');
        j += 1;
        proof {
            assert(bar@ =~= head + Seq::new(j as nat, |k: int| '░'));
        }
    }
    bar
}

/// The answer read from a confirmation prompt: the default when nothing
/// could be read or nothing but whitespace was typed, else whether the
/// answer, trimmed and in lower case, is "y" or "yes".
pub fn confirm_answer(input: Option<&str>, default_yes: bool) -> (yes: bool)
    ensures
        match input {
            None => yes == default_yes,
            Some(s) => {
                let t = lowercase_of(trim(s@));
                if t.len() == 0 {
                    yes == default_yes
                } else {
                    yes == (t == "y"@ || t == "yes"@)
                }
            },
        },
{
    match input {
        None => default_yes,
        Some(s) => {
            let c = chars_of(s);
            let (a, b) = trim_bounds(&c, 0, c.len());
            let t = text_of(&c, a, b);
            proof {
                assert(c@.subrange(0, c@.len() as int) =~= c@);
            }
            let lower = to_lowercase(t.as_str());
            let lc = chars_of(lower.as_str());
            if lc.len() == 0 {
                default_yes
            } else {
                let yes_y = lc.len() == 1 && lc[0] == 'y';
                let yes_yes = lc.len() == 3 && lc[0] == 'y' && lc[1] == 'e' && lc[2] == 's';
                proof {
                    reveal_strlit("y");
                    reveal_strlit("yes");
                    if yes_y {
                        assert(lc@ =~= "y"@);
                    }
                    if yes_yes {
                        assert(lc@ =~= "yes"@);
                    }
                }
                yes_y || yes_yes
            }
        },
    }
}

} // verus!
