//! Which storage paths the library agrees to read and write: no `..`
//! component, no symbolic link, and a place under an allowed base directory.
use vstd::prelude::*;
use vstd::string::StringSliceAdditionalSpecFns;
use crate::error::{Result, SunriseError};
use crate::installer::steam_locator::{join_path, path_join};
use crate::text::{chars_of, string_push_str};

verus! {

/// A `..` component starts at byte `i` of the path `b`.
pub open spec fn parent_component_at(b: Seq<u8>, i: int) -> bool {
    &&& 0 <= i
    &&& i + 2 <= b.len()
    &&& b[i] == 46
    &&& b[i + 1] == 46
    &&& (i == 0 || b[i - 1] == 47)
    &&& (i + 2 == b.len() || b[i + 2] == 47)
}

/// The path `b` has a `..` component.
pub open spec fn has_parent_component(b: Seq<u8>) -> bool {
    exists|i: int| parent_component_at(b, i)
}

/// Whether the path has a `..` component.
pub fn path_has_parent_component(path: &str) -> (r: bool)
    ensures
        r == has_parent_component(path.spec_bytes()),
{
    let b = path.as_bytes();
    let n = b.len();
    let mut i: usize = 0;
    while i < n && n - i >= 2
        invariant
            i <= n,
            n == b@.len(),
            b@ == path.spec_bytes(),
            forall|j: int| 0 <= j < i ==> !parent_component_at(b@, j),
        decreases n - i,
    {
        if b[i] == 46 && b[i + 1] == 46 && (i == 0 || b[i - 1] == 47) && (i + 2 == n || b[i + 2] == 47) {
            proof {
                assert(parent_component_at(b@, i as int));
            }
            return true;
        }
        i += 1;
    }
    false
}

/// The pieces of a path read so far: those a slash has closed, and the one
/// being read.
pub open spec fn split_state(p: Seq<char>) -> (Seq<Seq<char>>, Seq<char>)
    decreases p.len(),
{
    if p.len() == 0 {
        (seq![], seq![])
    } else {
        let (done, cur) = split_state(p.drop_last());
        if p.last() == '/' {
            (done.push(cur), seq![])
        } else {
            (done, cur.push(p.last()))
        }
    }
}

/// The pieces of `p` between slashes, in order (a path with no slash is one
/// piece).
pub open spec fn split_parts(p: Seq<char>) -> Seq<Seq<char>> {
    split_state(p).0.push(split_state(p).1)
}

/// A piece that names something: not empty and not `.`.
pub open spec fn is_normal(s: Seq<char>) -> bool {
    s.len() > 0 && s != seq!['.']
}

/// The pieces that name something, in order.
pub open spec fn keep_normal(parts: Seq<Seq<char>>) -> Seq<Seq<char>>
    decreases parts.len(),
{
    if parts.len() == 0 {
        seq![]
    } else if is_normal(parts.last()) {
        keep_normal(parts.drop_last()).push(parts.last())
    } else {
        keep_normal(parts.drop_last())
    }
}

/// The components of a path as `std::path::Path::components` gives them on
/// Unix: the root `/` for an absolute path, `.` for a relative path that
/// starts with it, then each piece that names something; repeated slashes,
/// a trailing slash and inner `.` pieces add nothing.
pub open spec fn components(p: Seq<char>) -> Seq<Seq<char>> {
    let lead: Seq<Seq<char>> = if p.len() > 0 && p[0] == '/' {
        seq![seq!['/']]
    } else if p.len() > 0 && p[0] == '.' && (p.len() == 1 || p[1] == '/') {
        seq![seq!['.']]
    } else {
        seq![]
    };
    lead + keep_normal(split_parts(p))
}

/// `path` starts with `base`, component by component (`Path::starts_with`).
pub open spec fn starts_with_path(path: Seq<char>, base: Seq<char>) -> bool {
    let a = components(path);
    let b = components(base);
    b.len() <= a.len() && a.subrange(0, b.len() as int) == b
}

/// The texts of a list of character vectors.
pub open spec fn char_texts(v: Seq<Vec<char>>) -> Seq<Seq<char>> {
    v.map_values(|x: Vec<char>| x@)
}

fn is_normal_piece(s: &Vec<char>) -> (r: bool)
    ensures
        r == is_normal(s@),
{
    if s.len() == 0 {
        return false;
    }
    if s.len() == 1 && s[0] == '.' {
        proof {
            assert(s@ =~= seq!['.']);
        }
        return false;
    }
    proof {
        if s@.len() == 1 {
            assert(s@[0] != seq!['.'][0]);
        }
    }
    true
}

fn path_components(path: &str) -> (v: Vec<Vec<char>>)
    ensures
        char_texts(v@) == components(path@),
{
    let c = chars_of(path);
    let n = c.len();
    let mut out: Vec<Vec<char>> = Vec::new();
    let mut cur: Vec<char> = Vec::new();
    let ghost mut done: Seq<Seq<char>> = seq![];
    let mut i: usize = 0;
    proof {
        assert(c@.take(0) =~= Seq::<char>::empty());
    }
    while i < n
        invariant
            n == c@.len(),
            c@ == path@,
            i <= n,
            split_state(c@.take(i as int)) == (done, cur@),
            char_texts(out@) == keep_normal(done),
        decreases n - i,
    {
        let ch = c[i];
        proof {
            assert(c@.take(i + 1).drop_last() =~= c@.take(i as int));
            assert(c@.take(i + 1).last() == ch);
        }
        if ch == '/' {
            let ghost before = out@;
            if is_normal_piece(&cur) {
                out.push(cur);
                proof {
                    assert(char_texts(out@) =~= char_texts(before).push(cur@));
                }
            }
            proof {
                assert(done.push(cur@).drop_last() =~= done);
                done = done.push(cur@);
            }
            cur = Vec::new();
            proof {
                assert(cur@ =~= Seq::<char>::empty());
            }
        } else {
            cur.push(ch);
        }
        i = i + 1;
    }
    proof {
        assert(c@.take(n as int) =~= c@);
        assert(split_parts(path@) == done.push(cur@));
        assert(done.push(cur@).drop_last() =~= done);
    }
    let ghost before = out@;
    if is_normal_piece(&cur) {
        out.push(cur);
        proof {
            assert(char_texts(out@) =~= char_texts(before).push(cur@));
        }
    }
    let mut v: Vec<Vec<char>> = Vec::new();
    if n > 0 && c[0] == '/' {
        let root = vec!['/'];
        proof {
            assert(root@ =~= seq!['/']);
        }
        v.push(root);
        proof {
            assert(char_texts(v@) =~= seq![seq!['/']]);
        }
    } else if n > 0 && c[0] == '.' && (n == 1 || c[1] == '/') {
        let cur_dir = vec!['.'];
        proof {
            assert(cur_dir@ =~= seq!['.']);
        }
        v.push(cur_dir);
        proof {
            assert(char_texts(v@) =~= seq![seq!['.']]);
        }
    } else {
        proof {
            assert(char_texts(v@) =~= Seq::<Seq<char>>::empty());
        }
    }
    let ghost lead = char_texts(v@);
    proof {
        assert(lead + keep_normal(split_parts(path@)) =~= components(path@));
    }
    let mut j: usize = 0;
    while j < out.len()
        invariant
            j <= out@.len(),
            char_texts(v@) == lead + char_texts(out@).take(j as int),
        decreases out@.len() - j,
    {
        let ghost mid = v@;
        v.push(out[j].clone());
        proof {
            assert(char_texts(v@) =~= char_texts(mid).push(out@[j as int]@));
            assert(char_texts(out@).take(j + 1) =~= char_texts(out@).take(j as int).push(out@[j as int]@));
        }
        j = j + 1;
    }
    proof {
        assert(char_texts(out@).take(out@.len() as int) =~= char_texts(out@));
    }
    v
}

fn same_chars(a: &Vec<char>, b: &Vec<char>) -> (r: bool)
    ensures
        r == (a@ == b@),
{
    if a.len() != b.len() {
        return false;
    }
    let mut i: usize = 0;
    while i < a.len()
        invariant
            a@.len() == b@.len(),
            i <= a@.len(),
            forall|k: int| 0 <= k < i ==> a@[k] == b@[k],
        decreases a@.len() - i,
    {
        if a[i] != b[i] {
            return false;
        }
        i = i + 1;
    }
    proof {
        assert(a@ =~= b@);
    }
    true
}

/// Whether `path` starts with `base`, component by component.
pub fn path_starts_with(path: &str, base: &str) -> (r: bool)
    ensures
        r == starts_with_path(path@, base@),
{
    let a = path_components(path);
    let b = path_components(base);
    if b.len() > a.len() {
        return false;
    }
    let mut i: usize = 0;
    while i < b.len()
        invariant
            b@.len() <= a@.len(),
            i <= b@.len(),
            char_texts(a@) == components(path@),
            char_texts(b@) == components(base@),
            forall|k: int| 0 <= k < i ==> a@[k]@ == b@[k]@,
        decreases b@.len() - i,
    {
        if !same_chars(&a[i], &b[i]) {
            proof {
                assert(char_texts(a@).subrange(0, b@.len() as int)[i as int] != char_texts(b@)[i as int]);
            }
            return false;
        }
        i = i + 1;
    }
    proof {
        assert(char_texts(a@).subrange(0, b@.len() as int) =~= char_texts(b@));
    }
    true
}

/// A directory the stores may use, and its canonical form when it has one.
#[derive(Debug, Clone)]
pub struct AllowedBase {
    pub path: String,
    pub canonical: Option<String>,
}

/// A base as plain texts.
pub open spec fn base_texts(b: AllowedBase) -> (Seq<char>, Option<Seq<char>>) {
    (b.path@, opt_text(b.canonical))
}

/// The text of an optional string.
pub open spec fn opt_text(o: Option<String>) -> Option<Seq<char>> {
    match o {
        Some(s) => Some(s@),
        None => None,
    }
}

/// The directories a store may use: `/data`, and the application's folder
/// under `~/.config`.
pub fn allowed_bases(home: &str, app_dir: &str) -> (v: Vec<String>)
    ensures
        v@.len() == 2,
        v@[0]@ == "/data"@,
        v@[1]@ == path_join(path_join(home@, ".config"@), app_dir@),
{
    let mut v: Vec<String> = Vec::new();
    v.push("/data".to_owned());
    let config = join_path(home, ".config");
    v.push(join_path(config.as_str(), app_dir));
    v
}

/// `path` lies under the base `b`: by its text, or, when the base has a
/// canonical form, by the canonical form of the path or of its parent
/// (`canonical`, `parent_canonical`).
pub open spec fn base_admits(
    path: Seq<char>,
    canonical: Option<Seq<char>>,
    parent_canonical: Option<Seq<char>>,
    b: (Seq<char>, Option<Seq<char>>),
) -> bool {
    ||| starts_with_path(path, b.0)
    ||| (b.1 matches Some(cb) && ((canonical matches Some(cp) && starts_with_path(cp, cb)) || (
    parent_canonical matches Some(pp) && starts_with_path(pp, cb))))
}

/// `path` lies under `/tmp` or under one of the allowed bases.
pub open spec fn within_allowed(
    path: Seq<char>,
    canonical: Option<Seq<char>>,
    parent_canonical: Option<Seq<char>>,
    bases: Seq<(Seq<char>, Option<Seq<char>>)>,
) -> bool {
    ||| starts_with_path(path, "/tmp"@)
    ||| exists|i: int| 0 <= i < bases.len() && base_admits(path, canonical, parent_canonical, #[trigger] bases[i])
}

/// The bases as plain texts.
pub open spec fn bases_texts(bases: Seq<AllowedBase>) -> Seq<(Seq<char>, Option<Seq<char>>)> {
    bases.map_values(|b: AllowedBase| base_texts(b))
}

fn opt_starts_with(p: &Option<String>, base: &str) -> (r: bool)
    ensures
        r == (opt_text(*p) matches Some(t) && starts_with_path(t, base@)),
{
    match p {
        Some(t) => path_starts_with(t.as_str(), base),
        None => false,
    }
}

/// Whether `path` lies under `/tmp` or under one of `bases`, judged by its
/// text or by the canonical forms of the path and of its parent.
pub fn is_within_allowed(
    path: &str,
    canonical: &Option<String>,
    parent_canonical: &Option<String>,
    bases: &[AllowedBase],
) -> (r: bool)
    ensures
        r == within_allowed(path@, opt_text(*canonical), opt_text(*parent_canonical), bases_texts(bases@)),
{
    let ghost bt = bases_texts(bases@);
    if path_starts_with(path, "/tmp") {
        return true;
    }
    let mut i: usize = 0;
    while i < bases.len()
        invariant
            i <= bases@.len(),
            bt == bases_texts(bases@),
            forall|k: int|
                0 <= k < i ==> !base_admits(path@, opt_text(*canonical), opt_text(*parent_canonical), #[trigger] bt[k]),
        decreases bases@.len() - i,
    {
        let b = &bases[i];
        let mut ok = path_starts_with(path, b.path.as_str());
        if !ok {
            match &b.canonical {
                Some(cb) => {
                    ok = opt_starts_with(canonical, cb.as_str()) || opt_starts_with(parent_canonical, cb.as_str());
                },
                None => {},
            }
        }
        assert(bt[i as int] == base_texts(*b));
        if ok {
            return true;
        }
        i = i + 1;
    }
    false
}

/// The canonical form `p` of an existing parent directory lies under `/tmp`
/// or under one of the bases, each judged by its canonical form when it has
/// one and by its text otherwise.
pub open spec fn canonical_allowed(p: Seq<char>, bases: Seq<(Seq<char>, Option<Seq<char>>)>) -> bool {
    ||| starts_with_path(p, "/tmp"@)
    ||| exists|i: int|
        0 <= i < bases.len() && match #[trigger] bases[i].1 {
            Some(cb) => starts_with_path(p, cb),
            None => starts_with_path(p, bases[i].0),
        }
}

fn is_canonical_allowed(p: &str, bases: &[AllowedBase]) -> (r: bool)
    ensures
        r == canonical_allowed(p@, bases_texts(bases@)),
{
    let ghost bt = bases_texts(bases@);
    let mut i: usize = 0;
    while i < bases.len()
        invariant
            i <= bases@.len(),
            bt == bases_texts(bases@),
            forall|k: int|
                0 <= k < i ==> !(match #[trigger] bt[k].1 {
                    Some(cb) => starts_with_path(p@, cb),
                    None => starts_with_path(p@, bt[k].0),
                }),
        decreases bases@.len() - i,
    {
        let b = &bases[i];
        assert(bt[i as int] == base_texts(*b));
        let ok = match &b.canonical {
            Some(cb) => path_starts_with(p, cb.as_str()),
            None => path_starts_with(p, b.path.as_str()),
        };
        if ok {
            proof {
                assert(0 <= i < bt.len() && match bt[i as int].1 {
                    Some(cb) => starts_with_path(p@, cb),
                    None => starts_with_path(p@, bt[i as int].0),
                });
            }
            return true;
        }
        i = i + 1;
    }
    path_starts_with(p, "/tmp")
}

/// What the file system shows of the parent directory of a path.
#[derive(Debug, Clone)]
pub struct ParentFacts {
    /// The parent directory, as `Path::parent` gives it.
    pub path: String,
    /// It is a symbolic link.
    pub is_symlink: bool,
    /// It exists.
    pub exists: bool,
    /// Its canonical form, when it has one.
    pub canonical: Option<String>,
    /// The canonical form of its own parent, when it has one.
    pub parent_canonical: Option<String>,
}

/// What the file system shows of a path.
#[derive(Debug, Clone)]
pub struct PathFacts {
    /// The path is a symbolic link.
    pub is_symlink: bool,
    /// Its canonical form, when it has one.
    pub canonical: Option<String>,
    /// Its parent directory, when it has one.
    pub parent: Option<ParentFacts>,
}

/// Why a path is refused, if it is: the first check that fails, in order.
pub open spec fn path_rejection(
    path: Seq<char>,
    b: Seq<u8>,
    facts: PathFacts,
    bases: Seq<(Seq<char>, Option<Seq<char>>)>,
) -> Option<Seq<char>> {
    if has_parent_component(b) {
        Some("path traversal rejected: "@)
    } else if facts.is_symlink {
        Some("symlink traversal rejected: "@)
    } else {
        match facts.parent {
            None => None,
            Some(p) => if p.is_symlink {
                Some("symlink traversal rejected: "@)
            } else if !within_allowed(p.path@, opt_text(p.canonical), opt_text(p.parent_canonical), bases)
                && !within_allowed(path, opt_text(facts.canonical), opt_text(p.canonical), bases) {
                Some("path outside allowed base: "@)
            } else if p.exists && (p.canonical matches Some(cp) && !canonical_allowed(cp@, bases)) {
                Some("canonical path outside allowed base: "@)
            } else {
                None
            },
        }
    }
}

fn rejected(reason: &str, path: &str) -> (r: Result<()>)
    ensures
        r matches Err(SunriseError::IoError(m)) && m@ == reason@ + path@,
{
    let mut m = reason.to_owned();
    string_push_str(&mut m, path);
    Err(SunriseError::IoError(m))
}

/// Accepts the path, or refuses it with an I/O error whose message is the
/// reason followed by the path.
pub fn validate_path(path: &str, facts: &PathFacts, bases: &[AllowedBase]) -> (r: Result<()>)
    ensures
        match path_rejection(path@, path.spec_bytes(), *facts, bases_texts(bases@)) {
            None => r is Ok,
            Some(reason) => r matches Err(SunriseError::IoError(m)) && m@ == reason + path@,
        },
{
    if path_has_parent_component(path) {
        return rejected("path traversal rejected: ", path);
    }
    if facts.is_symlink {
        return rejected("symlink traversal rejected: ", path);
    }
    match &facts.parent {
        None => Ok(()),
        Some(p) => {
            if p.is_symlink {
                return rejected("symlink traversal rejected: ", path);
            }
            if !is_within_allowed(p.path.as_str(), &p.canonical, &p.parent_canonical, bases) && !is_within_allowed(
                path,
                &facts.canonical,
                &p.canonical,
                bases,
            ) {
                return rejected("path outside allowed base: ", path);
            }
            if p.exists {
                match &p.canonical {
                    Some(cp) => {
                        if !is_canonical_allowed(cp.as_str(), bases) {
                            return rejected("canonical path outside allowed base: ", path);
                        }
                    },
                    None => {},
                }
            }
            Ok(())
        },
    }
}

} // verus!
