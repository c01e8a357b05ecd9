//! Game package metadata: the package id in a file name, the entry count in a
//! package header, and the totals of an index.
use vstd::prelude::*;
use crate::text::{dec_digits, push_decimal, string_push_str};
use vstd::string::StringSliceAdditionalSpecFns;

verus! {

#[derive(Debug, Clone, PartialEq, Eq)]
pub struct PackageMetadata {
    pub package_id: u16,
    pub filename: String,
    pub file_size: u64,
    pub entry_count: u32,
}

#[derive(Debug, Clone)]
pub struct PackageIndex {
    pub total_packages: usize,
    pub total_bytes: u64,
    pub packages: Vec<PackageMetadata>,
}

impl Default for PackageIndex {
    fn default() -> (d: Self)
        ensures
            d.total_packages == 0,
            d.total_bytes == 0,
            d.packages@.len() == 0,
    {
        PackageIndex { total_packages: 0, total_bytes: 0, packages: Vec::new() }
    }
}

/// The value of a hexadecimal digit character, if `c` is one.
pub open spec fn hex_digit_value(c: u8) -> Option<int> {
    if 48 <= c <= 57 {
        Some(c - 48)
    } else if 97 <= c <= 102 {
        Some(c - 87)
    } else if 65 <= c <= 70 {
        Some(c - 55)
    } else {
        None
    }
}

/// The number written by the hexadecimal digits `d`.
pub open spec fn hex_value(d: Seq<u8>) -> int
    decreases d.len(),
{
    if d.len() == 0 {
        0
    } else {
        hex_value(d.drop_last()) * 16 + hex_digit_value(d.last()).unwrap_or(0)
    }
}

/// What parsing a four-byte name part in base 16 gives: its digits, after an
/// optional leading `+`, must all be hexadecimal.
pub open spec fn hex_part_value(p: Seq<u8>) -> Option<u16> {
    if p.len() != 4 {
        None
    } else if all_hex(unsigned_digits(p)) {
        Some(hex_value(unsigned_digits(p)) as u16)
    } else {
        None
    }
}

/// The digits of a number text: all of it but a leading `+`.
pub open spec fn unsigned_digits(p: Seq<u8>) -> Seq<u8> {
    if p.len() > 0 && p[0] == 43 {
        p.subrange(1, p.len() as int)
    } else {
        p
    }
}

/// Every byte of `d` is a hexadecimal digit.
pub open spec fn all_hex(d: Seq<u8>) -> bool {
    forall|i: int| 0 <= i < d.len() ==> (#[trigger] hex_digit_value(d[i])) is Some
}

/// The index of the first `_` at or after `i`, or the length when none follows.
pub open spec fn next_separator(b: Seq<u8>, i: int) -> int
    decreases b.len() - i,
{
    if i >= b.len() {
        b.len() as int
    } else if b[i] == 95 {
        i
    } else {
        next_separator(b, i + 1)
    }
}

pub proof fn lemma_next_separator(b: Seq<u8>, i: int)
    requires
        0 <= i <= b.len(),
    ensures
        i <= next_separator(b, i) <= b.len(),
        next_separator(b, i) < b.len() ==> b[next_separator(b, i)] == 95,
        forall|k: int| i <= k < next_separator(b, i) ==> b[k] != 95,
    decreases b.len() - i,
{
    if i < b.len() && b[i] != 95 {
        lemma_next_separator(b, i + 1);
    }
}

/// The package id found in the `_`-separated parts of a name from the part
/// starting at `start` on: the first part of four bytes that parses as
/// hexadecimal, or 0.
pub open spec fn package_id_from(b: Seq<u8>, start: int) -> u16
    decreases b.len() - start,
{
    if start < 0 || start > b.len() {
        0
    } else {
        let e = next_separator(b, start);
        proof {
            lemma_next_separator(b, start);
        }
        match hex_part_value(b.subrange(start, e)) {
            Some(v) => v,
            None => if e >= b.len() {
                0
            } else {
                package_id_from(b, e + 1)
            },
        }
    }
}

/// The package id of a file name, for example 0x01a3 for `w64_bootflow_01a3_0.pkg`.
pub open spec fn package_id_of(name: Seq<u8>) -> u16 {
    package_id_from(name, 0)
}

fn hex_digit(c: u8) -> (r: Option<u16>)
    ensures
        match hex_digit_value(c) {
            Some(v) => r == Some(v as u16),
            None => r is None,
        },
{
    if 48 <= c && c <= 57 {
        Some((c - 48) as u16)
    } else if 97 <= c && c <= 102 {
        Some((c - 87) as u16)
    } else if 65 <= c && c <= 70 {
        Some((c - 55) as u16)
    } else {
        None
    }
}

proof fn lemma_hex_value_bound(d: Seq<u8>)
    requires
        forall|i: int| 0 <= i < d.len() ==> (#[trigger] hex_digit_value(d[i])) is Some,
    ensures
        0 <= hex_value(d),
        d.len() <= 4 ==> hex_value(d) < vstd::arithmetic::power::pow(16, d.len()),
    decreases d.len(),
{
    vstd::arithmetic::power::lemma_pow0(16);
    if d.len() > 0 {
        let r = d.drop_last();
        assert forall|i: int| 0 <= i < r.len() implies (#[trigger] hex_digit_value(r[i])) is Some by {
            assert(r[i] == d[i]);
        }
        lemma_hex_value_bound(r);
        assert(hex_digit_value(d[d.len() - 1]) is Some);
        vstd::arithmetic::power::lemma_pow_adds(16, r.len(), 1);
        vstd::arithmetic::power::lemma_pow1(16);
        if d.len() <= 4 {
            let p = vstd::arithmetic::power::pow(16, r.len());
            assert(hex_value(r) * 16 + 15 < p * 16) by (nonlinear_arith)
                requires
                    hex_value(r) < p,
            ;
        }
    }
}

/// The value of `b[start..end]` as a name part, see `hex_part_value`.
fn parse_hex_part(b: &[u8], start: usize, end: usize) -> (r: Option<u16>)
    requires
        start <= end <= b@.len(),
    ensures
        r == hex_part_value(b@.subrange(start as int, end as int)),
{
    let ghost p = b@.subrange(start as int, end as int);
    if end - start != 4 {
        return None;
    }
    let first = if b[start] == 43 { start + 1 } else { start };
    let ghost d = unsigned_digits(p);
    assert(p[0] == b@[start as int]);
    assert(d =~= b@.subrange(first as int, end as int));
    let mut v: u16 = 0;
    let mut i: usize = first;
    while i < end
        invariant
            start <= first <= i <= end == start + 4 <= b@.len(),
            d == b@.subrange(first as int, end as int),
            p == b@.subrange(start as int, end as int),
            d == unsigned_digits(p),
            forall|k: int| 0 <= k < i - first ==> (#[trigger] hex_digit_value(d[k])) is Some,
            v == hex_value(d.subrange(0, i - first)),
        decreases end - i,
    {
        match hex_digit(b[i]) {
            Some(x) => {
                proof {
                    let t = d.subrange(0, i - first + 1);
                    assert(t.drop_last() =~= d.subrange(0, i - first));
                    assert(d[i - first] == b@[i as int]);
                    assert forall|k: int| 0 <= k < t.len() implies (#[trigger] hex_digit_value(t[k])) is Some by {
                        assert(t[k] == d[k]);
                    }
                    lemma_hex_value_bound(t);
                    assert(t.len() <= 4);
                    vstd::arithmetic::power::lemma_pow_increases(16, t.len(), 4);
                    assert(vstd::arithmetic::power::pow(16, 4) == 65536) by {
                        reveal_with_fuel(vstd::arithmetic::power::pow, 5);
                    }
                }
                v = v * 16 + x;
            },
            None => {
                proof {
                    assert(d[i - first] == b@[i as int]);
                    assert(!(hex_digit_value(d[i - first]) is Some));
                    assert(!(forall|k: int| 0 <= k < d.len() ==> (#[trigger] hex_digit_value(d[k])) is Some));
                }
                return None;
            },
        }
        i += 1;
    }
    proof {
        assert(d.subrange(0, i - first) =~= d);
    }
    Some(v)
}

/// The end of the name part that starts at `start`.
fn next_part_end(b: &[u8], start: usize) -> (e: usize)
    requires
        start <= b@.len(),
    ensures
        e == next_separator(b@, start as int),
{
    let mut i = start;
    while i < b.len() && b[i] != 95
        invariant
            start <= i <= b@.len(),
            next_separator(b@, start as int) == next_separator(b@, i as int),
        decreases b@.len() - i,
    {
        i += 1;
    }
    i
}

/// The little-endian entry count at offset 4 of a package header.
pub open spec fn header_entry_count(header: Seq<u8>) -> u32 {
    (header[7] * 0x1000000 + header[6] * 0x10000 + header[5] * 0x100 + header[4]) as u32
}

/// The JSON summary of an index, as cached on disk.
pub open spec fn cache_json(total_packages: nat, total_bytes: nat) -> Seq<char> {
    "{\n  \"total_packages\": "@ + dec_digits(total_packages) + ",\n  \"total_bytes\": "@ + dec_digits(total_bytes)
        + ",\n  \"indexed_at\": \"offline\"\n}"@
}

/// A file name whose extension (the part after its last dot, when that dot
/// is not its first character) is `pkg`.
pub open spec fn is_package_name_spec(name: Seq<char>) -> bool {
    name.len() > 4 && name.subrange(name.len() - 4, name.len() as int) == ".pkg"@
}

impl PackageIndex {
    /// Whether a directory entry named `name` is a game package.
    pub fn is_package_name(name: &str) -> (r: bool)
        ensures
            r == is_package_name_spec(name@),
    {
        let c = crate::text::chars_of(name);
        let n = c.len();
        proof {
            reveal_strlit(".pkg");
        }
        if n <= 4 {
            return false;
        }
        let r = c[n - 4] == '.' && c[n - 3] == 'p' && c[n - 2] == 'k' && c[n - 1] == 'g';
        proof {
            let t = name@.subrange(n - 4, n as int);
            if r {
                assert(t =~= ".pkg"@);
            } else {
                assert(t[0] != ".pkg"@[0] || t[1] != ".pkg"@[1] || t[2] != ".pkg"@[2] || t[3] != ".pkg"@[3]);
            }
        }
        r
    }

    /// The package id in a file name: the first `_`-separated part of four
    /// bytes that parses as hexadecimal, or 0.
    pub fn parse_package_id_from_name(name: &str) -> (id: u16)
        ensures
            id == package_id_of(name.spec_bytes()),
    {
        let b = name.as_bytes();
        let n = b.len();
        let mut start: usize = 0;
        while start <= n
            invariant
                n == b@.len(),
                b@ == name.spec_bytes(),
                start <= n,
                package_id_of(b@) == package_id_from(b@, start as int),
            decreases n + 1 - start,
        {
            let e = next_part_end(b, start);
            proof {
                lemma_next_separator(b@, start as int);
            }
            match parse_hex_part(b, start, e) {
                Some(v) => {
                    return v;
                },
                None => {},
            }
            if e == n {
                return 0;
            }
            start = e + 1;
        }
        0
    }

    /// The metadata of a package from its file name, its size, and its first
    /// sixteen bytes when the file had that many.
    pub fn metadata_from_header(filename: &str, file_size: u64, header: Option<[u8; 16]>) -> (m: PackageMetadata)
        ensures
            m.package_id == package_id_of(filename.spec_bytes()),
            m.filename@ == filename@,
            m.file_size == file_size,
            m.entry_count == match header {
                Some(h) => header_entry_count(h@),
                None => 0,
            },
    {
        let package_id = Self::parse_package_id_from_name(filename);
        let entry_count = match header {
            Some(h) => (h[7] as u32) * 0x1000000 + (h[6] as u32) * 0x10000 + (h[5] as u32) * 0x100 + h[4] as u32,
            None => 0,
        };
        PackageMetadata { package_id, filename: filename.to_owned(), file_size, entry_count }
    }

    /// Counts one more package into the totals.
    pub fn add_package(&mut self, meta: PackageMetadata)
        requires
            old(self).total_bytes + meta.file_size <= u64::MAX,
            old(self).total_packages + 1 <= usize::MAX,
        ensures
            final(self).total_bytes == old(self).total_bytes + meta.file_size,
            final(self).total_packages == old(self).total_packages + 1,
            final(self).packages@ == old(self).packages@.push(meta),
    {
        self.total_bytes = self.total_bytes + meta.file_size;
        self.total_packages = self.total_packages + 1;
        self.packages.push(meta);
    }

    /// The JSON text that `save_to_cache` writes.
    pub fn cache_contents(&self) -> (s: String)
        ensures
            s@ == cache_json(self.total_packages as nat, self.total_bytes as nat),
    {
        let mut s = String::new();
        string_push_str(&mut s, "{\n  \"total_packages\": ");
        push_decimal(&mut s, self.total_packages as u64);
        string_push_str(&mut s, ",\n  \"total_bytes\": ");
        push_decimal(&mut s, self.total_bytes);
        string_push_str(&mut s, ",\n  \"indexed_at\": \"offline\"\n}");
        s
    }
}

} // verus!
