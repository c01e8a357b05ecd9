//! Text helpers: building strings a character at a time, and hexadecimal digits.
use vstd::prelude::*;
use vstd::std_specs::iter::IteratorSpec;

verus! {

/// `String::push`: appends one character.
#[verifier::external_body]
pub(crate) fn string_push(s: &mut String, c: char)
    ensures
        final(s)@ == old(s)@.push(c),
{
    s.push(c);
}

/// `String::push_str`: appends a string slice.
#[verifier::external_body]
pub(crate) fn string_push_str(s: &mut String, t: &str)
    ensures
        final(s)@ == old(s)@ + t@,
{
    s.push_str(t);
}

/// The characters of `s`, in order.
pub fn chars_of(s: &str) -> (v: Vec<char>)
    ensures
        v@ == s@,
{
    let mut v: Vec<char> = Vec::new();
    let ghost expected = s@;
    for c in it: s.chars()
        invariant
            expected == s@,
            it.seq() == expected,
            v@ == expected.take(it.index() as int),
    {
        v.push(c);
        proof {
            assert(v@ =~= expected.take(it.index() + 1));
        }
    }
    proof {
        assert(v@ =~= expected);
    }
    v
}

/// Whether two texts are the same, character for character.
pub fn same_text(a: &str, b: &str) -> (r: bool)
    ensures
        r == (a@ == b@),
{
    let x = chars_of(a);
    let y = chars_of(b);
    if x.len() != y.len() {
        return false;
    }
    let mut i: usize = 0;
    while i < x.len()
        invariant
            x@ == a@,
            y@ == b@,
            x@.len() == y@.len(),
            i <= x@.len(),
            forall|k: int| 0 <= k < i ==> x@[k] == y@[k],
        decreases x@.len() - i,
    {
        if x[i] != y[i] {
            return false;
        }
        i = i + 1;
    }
    proof {
        assert(a@ =~= b@);
    }
    true
}

/// What `str::to_lowercase` makes of a text: its Unicode lower-case form
/// (a character may map to several, and a final sigma depends on what
/// surrounds it).
pub uninterp spec fn lowercase_of(s: Seq<char>) -> Seq<char>;

/// `str::to_lowercase`: the lower-case form of `s`, `lowercase_of(s)`.
#[verifier::external_body]
pub(crate) fn to_lowercase(s: &str) -> (r: String)
    ensures
        r@ == lowercase_of(s@),
{
    s.to_lowercase()
}

/// `p` occurs in `s` as a run of consecutive characters.
pub open spec fn is_substring(p: Seq<char>, s: Seq<char>) -> bool {
    exists|i: int| 0 <= i && i + p.len() <= s.len() && #[trigger] s.subrange(i, i + p.len()) == p
}

/// The digits of `v` in base 10, most significant first, without leading zeros
/// (but one digit for zero).
pub open spec fn dec_digits(v: nat) -> Seq<char>
    decreases v,
{
    if v < 10 {
        seq![(v + 48) as char]
    } else {
        dec_digits(v / 10).push(((v % 10) + 48) as char)
    }
}

/// Appends the base-10 digits of `v` to `out`.
pub fn push_decimal(out: &mut String, v: u64)
    ensures
        final(out)@ == old(out)@ + dec_digits(v as nat),
    decreases v,
{
    if v >= 10 {
        push_decimal(out, v / 10);
    }
    let d = (v % 10) as u8;
    string_push(out, (d + 48) as char);
    proof {
        if v < 10 {
            assert(dec_digits(v as nat) =~= seq![(v + 48) as char]);
        }
    }
}

/// The hexadecimal digit for `d` (below 16), lower or upper case.
pub open spec fn hex_char(d: nat, upper: bool) -> char {
    if d < 10 {
        (d + 48) as char
    } else if upper {
        (d - 10 + 65) as char
    } else {
        (d - 10 + 97) as char
    }
}

/// The digits of `v` in base 16, most significant first, without leading zeros
/// (but one digit for zero).
pub open spec fn hex_digits(v: nat, upper: bool) -> Seq<char>
    decreases v,
{
    if v < 16 {
        seq![hex_char(v, upper)]
    } else {
        hex_digits(v / 16, upper).push(hex_char(v % 16, upper))
    }
}

/// `hex_digits` padded with leading zeros to at least `width` digits.
pub open spec fn hex_padded(v: nat, width: nat, upper: bool) -> Seq<char> {
    let d = hex_digits(v, upper);
    if d.len() >= width {
        d
    } else {
        Seq::new((width - d.len()) as nat, |i: int| '0') + d
    }
}

pub fn hex_digit_char(d: u8, upper: bool) -> (c: char)
    requires
        d < 16,
    ensures
        c == hex_char(d as nat, upper),
{
    if d < 10 {
        (d + 48) as char
    } else if upper {
        (d - 10 + 65) as char
    } else {
        (d - 10 + 97) as char
    }
}

/// `16` raised to `k`.
pub open spec fn pow16(k: nat) -> nat
    decreases k,
{
    if k == 0 {
        1
    } else {
        16 * pow16((k - 1) as nat)
    }
}

/// The number of base-16 digits of `v`.
pub fn hex_len(v: u64) -> (n: usize)
    ensures
        n == hex_digits(v as nat, false).len(),
        forall|u: bool| #[trigger] hex_digits(v as nat, u).len() == n,
        forall|k: nat| 1 <= k && v < #[trigger] pow16(k) ==> n <= k,
        1 <= n,
    decreases v,
{
    if v < 16 {
        1
    } else {
        let n = hex_len(v / 16);
        proof {
            assert(forall|u: bool| #[trigger] hex_digits(v as nat, u) == hex_digits((v / 16) as nat, u).push(
                hex_char((v % 16) as nat, u),
            ));
            assert forall|k: nat| 1 <= k && v < #[trigger] pow16(k) implies n + 1 <= k by {
                if k == 1 {
                    assert(pow16(1) == 16 * pow16(0));
                } else {
                    assert(pow16(k) == 16 * pow16((k - 1) as nat));
                    assert(v / 16 < pow16((k - 1) as nat));
                }
            }
            reveal_with_fuel(pow16, 17);
            assert(v < pow16(16));
        }
        n + 1
    }
}

/// Appends the base-16 digits of `v` to `out`.
fn push_hex_digits(out: &mut String, v: u64, upper: bool)
    ensures
        final(out)@ == old(out)@ + hex_digits(v as nat, upper),
    decreases v,
{
    if v >= 16 {
        push_hex_digits(out, v / 16, upper);
    }
    string_push(out, hex_digit_char((v % 16) as u8, upper));
    proof {
        if v < 16 {
            assert(hex_digits(v as nat, upper) =~= seq![hex_char(v as nat, upper)]);
        }
    }
}

/// Appends the base-16 digits of `v` to `out`, with leading zeros up to `width`.
pub fn push_hex(out: &mut String, v: u64, width: usize, upper: bool)
    ensures
        final(out)@ == old(out)@ + hex_padded(v as nat, width as nat, upper),
{
    let n = hex_len(v);
    let ghost start = out@;
    let mut k: usize = n;
    while k < width
        invariant
            n <= k,
            k == n || k <= width,
            n == hex_digits(v as nat, upper).len(),
            out@ == start + Seq::new((k - n) as nat, |i: int| '0'),
        decreases width - k,
    {
        string_push(out, '0');
        k += 1;
        proof {
            assert(out@ =~= start + Seq::new((k - n) as nat, |i: int| '0'));
        }
    }
    let ghost mid = out@;
    push_hex_digits(out, v, upper);
    proof {
        let d = hex_digits(v as nat, upper);
        assert(out@ == mid + d);
        if d.len() >= width {
            assert(out@ =~= start + d);
        } else {
            assert(out@ =~= start + (Seq::new((width - d.len()) as nat, |i: int| '0') + d));
        }
    }
}

} // verus!
