//! Where Steam and Destiny 2 live on disk: the paths of a game installation,
//! the Steam roots to look in, and the library folders a Steam
//! `libraryfolders.vdf` lists.
use vstd::prelude::*;
use crate::text::{chars_of, same_text, string_push, string_push_str};
use crate::text_scan::{
    find_char, find_char_from, find_word, find_word_from, lemma_find_char, lemma_find_word, trim, trim_bounds,
};

verus! {

pub const DESTINY_2_APP_ID: u32 = 1085660;

/// `base` joined with the relative path `rel`, as `Path::join` does: a `/`
/// goes between them unless `base` is empty or already ends with one.
pub open spec fn path_join(base: Seq<char>, rel: Seq<char>) -> Seq<char> {
    if base.len() == 0 || base.last() == '/' {
        base + rel
    } else {
        base + seq!['/'] + rel
    }
}

/// Joins the relative path `rel` to `base`.
pub fn join_path(base: &str, rel: &str) -> (p: String)
    ensures
        p@ == path_join(base@, rel@),
{
    let b = chars_of(base);
    let mut p = base.to_owned();
    if b.len() > 0 && b[b.len() - 1] != '/' {
        string_push(&mut p, '/');
    }
    string_push_str(&mut p, rel);
    p
}

/// The paths of one Destiny 2 installation.
#[derive(Debug, Clone, PartialEq, Eq)]
pub struct Destiny2Paths {
    pub game_root: String,
    pub packages_dir: String,
    pub bin_x64_dir: String,
    pub steam_api_dll: String,
}

/// The game executable under an installation root.
pub open spec fn game_exe_path(root: Seq<char>) -> Seq<char> {
    path_join(root, "destiny2.exe"@)
}

/// The paths of an installation rooted at `root`: its packages, its
/// 64-bit binaries and the steam_api64.dll among them.
pub open spec fn is_install_at(p: Destiny2Paths, root: Seq<char>) -> bool {
    &&& p.game_root@ == root
    &&& p.packages_dir@ == path_join(root, "packages"@)
    &&& p.bin_x64_dir@ == path_join(path_join(root, "bin"@), "x64"@)
    &&& p.steam_api_dll@ == path_join(path_join(path_join(root, "bin"@), "x64"@), "steam_api64.dll"@)
}

impl Destiny2Paths {
    /// The path of the game executable whose presence marks an installation.
    pub fn exe_path(root: &str) -> (p: String)
        ensures
            p@ == game_exe_path(root@),
    {
        join_path(root, "destiny2.exe")
    }

    /// The paths of the installation at `root`, when its game executable
    /// exists (`exe_exists`).
    pub fn from_root(root: &str, exe_exists: bool) -> (r: Option<Self>)
        ensures
            !exe_exists ==> r is None,
            exe_exists ==> (r matches Some(p) && is_install_at(p, root@)),
    {
        if !exe_exists {
            return None;
        }
        let packages_dir = join_path(root, "packages");
        let bin = join_path(root, "bin");
        let bin_x64_dir = join_path(bin.as_str(), "x64");
        let steam_api_dll = join_path(bin_x64_dir.as_str(), "steam_api64.dll");
        Some(Destiny2Paths { game_root: root.to_owned(), packages_dir, bin_x64_dir, steam_api_dll })
    }
}

/// The home directory: `$HOME` when it is set, non-empty and absolute, else
/// /tmp.
pub fn home_dir_from(home_var: Option<&str>) -> (h: String)
    ensures
        match home_var {
            Some(v) => if v@.len() > 0 && v@[0] == '/' {
                h@ == v@
            } else {
                h@ == "/tmp"@
            },
            None => h@ == "/tmp"@,
        },
{
    match home_var {
        Some(v) => {
            let c = chars_of(v);
            if c.len() > 0 && c[0] == '/' {
                v.to_owned()
            } else {
                "/tmp".to_owned()
            }
        },
        None => "/tmp".to_owned(),
    }
}

/// Where Steam may be installed under a home directory, in the order they
/// are searched.
pub open spec fn steam_root_suffixes() -> Seq<Seq<char>> {
    seq![
        ".local/share/Steam"@,
        ".steam/steam"@,
        ".steam/root"@,
        ".var/app/com.valvesoftware.Steam/.local/share/Steam"@,
        ".var/app/com.valvesoftware.Steam/data/Steam"@,
        "snap/steam/common/.steam"@,
        ".steam/debian-installation"@,
    ]
}

/// The Steam roots to search under `home`.
pub fn candidate_steam_roots(home: &str) -> (v: Vec<String>)
    ensures
        v@.len() == 7,
        forall|i: int| 0 <= i < 7 ==> #[trigger] v@[i]@ == path_join(home@, steam_root_suffixes()[i]),
{
    let mut v: Vec<String> = Vec::new();
    v.push(join_path(home, ".local/share/Steam"));
    v.push(join_path(home, ".steam/steam"));
    v.push(join_path(home, ".steam/root"));
    v.push(join_path(home, ".var/app/com.valvesoftware.Steam/.local/share/Steam"));
    v.push(join_path(home, ".var/app/com.valvesoftware.Steam/data/Steam"));
    v.push(join_path(home, "snap/steam/common/.steam"));
    v.push(join_path(home, ".steam/debian-installation"));
    v
}

/// Where a Steam library keeps Destiny 2.
pub open spec fn destiny_dir(library: Seq<char>) -> Seq<char> {
    path_join(path_join(path_join(library, "steamapps"@), "common"@), "Destiny 2"@)
}

pub fn destiny_dir_in(library: &str) -> (p: String)
    ensures
        p@ == destiny_dir(library@),
{
    let a = join_path(library, "steamapps");
    let b = join_path(a.as_str(), "common");
    join_path(b.as_str(), "Destiny 2")
}

/// The library list of a Steam root.
pub fn library_folders_file(steam_root: &str) -> (p: String)
    ensures
        p@ == path_join(path_join(steam_root@, "steamapps"@), "libraryfolders.vdf"@),
{
    let a = join_path(steam_root, "steamapps");
    join_path(a.as_str(), "libraryfolders.vdf")
}

/// The `"path"` key of a library entry.
pub open spec fn path_key() -> Seq<char> {
    seq!['"', 'p', 'a', 't', 'h', '"']
}

/// The library path a trimmed line of a VDF file gives, if any: after the
/// first `"path"` key, the first quoted string, trimmed, when that is not
/// empty.
pub open spec fn vdf_line_path(t: Seq<char>) -> Option<Seq<char>> {
    match find_word(t, path_key(), 0) {
        None => None,
        Some(p) => {
            let rest = t.skip(p + 6);
            match find_char(rest, '"', 0) {
                None => None,
                Some(a) => match find_char(rest, '"', a + 1) {
                    None => None,
                    Some(b) => {
                        let value = trim(rest.subrange(a + 1, b));
                        if value.len() == 0 {
                            None
                        } else {
                            Some(value)
                        }
                    },
                },
            }
        },
    }
}

/// The library paths of the lines of `s` from the one starting at `start`
/// on, in order. Lines end at `\n`; each is trimmed before it is read.
pub open spec fn vdf_paths_from(s: Seq<char>, start: int) -> Seq<Seq<char>>
    decreases s.len() - start,
{
    if start < 0 || start > s.len() {
        Seq::empty()
    } else {
        let e = match find_char(s, '\n', start) {
            Some(k) => k,
            None => s.len() as int,
        };
        let here = match vdf_line_path(trim(s.subrange(start, e))) {
            Some(p) => seq![p],
            None => Seq::empty(),
        };
        proof {
            lemma_find_char(s, '\n', start);
        }
        if e >= s.len() {
            here
        } else {
            here + vdf_paths_from(s, e + 1)
        }
    }
}

/// The texts of a list of strings.
pub open spec fn string_texts(v: Seq<String>) -> Seq<Seq<char>> {
    v.map_values(|x: String| x@)
}

fn text_of(c: &Vec<char>, from: usize, to: usize) -> (s: String)
    requires
        from <= to <= c@.len(),
    ensures
        s@ == c@.subrange(from as int, to as int),
{
    let mut s = String::new();
    let mut i = from;
    while i < to
        invariant
            from <= i <= to <= c@.len(),
            s@ == c@.subrange(from as int, i as int),
        decreases to - i,
    {
        string_push(&mut s, c[i]);
        i += 1;
        proof {
            assert(s@ =~= c@.subrange(from as int, i as int));
        }
    }
    s
}

/// The library path of line `c[from..to]`, see `vdf_line_path`.
fn line_path(c: &Vec<char>, from: usize, to: usize, key: &Vec<char>) -> (r: Option<String>)
    requires
        from <= to <= c@.len(),
        key@ == path_key(),
    ensures
        match vdf_line_path(trim(c@.subrange(from as int, to as int))) {
            Some(p) => r matches Some(x) && x@ == p,
            None => r is None,
        },
{
    let (a0, b0) = trim_bounds(c, from, to);
    let t = text_of(c, a0, b0);
    let tc = chars_of(t.as_str());
    let p = match find_word_from(&tc, key, 0) {
        Some(p) => p,
        None => {
            return None;
        },
    };
    proof {
        lemma_find_word(tc@, key@, 0);
    }
    let rest_start = p + 6;
    let rest = text_of(&tc, rest_start, tc.len());
    let rc = chars_of(rest.as_str());
    proof {
        assert(rc@ =~= tc@.skip(rest_start as int));
    }
    let qa = match find_char_from(&rc, '"', 0) {
        Some(k) => k,
        None => {
            return None;
        },
    };
    proof {
        lemma_find_char(rc@, '"', 0);
    }
    let qb = match find_char_from(&rc, '"', qa + 1) {
        Some(k) => k,
        None => {
            return None;
        },
    };
    proof {
        lemma_find_char(rc@, '"', qa + 1);
    }
    let (va, vb) = trim_bounds(&rc, qa + 1, qb);
    if va == vb {
        return None;
    }
    Some(text_of(&rc, va, vb))
}

/// The library folders listed in the text of a `libraryfolders.vdf`, in the
/// order they appear (whether they exist is for the caller to check).
pub fn parse_libraryfolders_vdf(content: &str) -> (v: Vec<String>)
    ensures
        string_texts(v@) == vdf_paths_from(content@, 0),
{
    let c = chars_of(content);
    let key = chars_of("\"path\"");
    proof {
        reveal_strlit("\"path\"");
        assert(key@ =~= path_key());
    }
    let n = c.len();
    let mut out: Vec<String> = Vec::new();
    let mut start: usize = 0;
    loop
        invariant
            n == c@.len(),
            c@ == content@,
            key@ == path_key(),
            start <= n,
            vdf_paths_from(content@, 0) == string_texts(out@) + vdf_paths_from(content@, start as int),
        decreases n - start,
    {
        let e = match find_char_from(&c, '\n', start) {
            Some(k) => k,
            None => n,
        };
        proof {
            lemma_find_char(c@, '\n', start as int);
        }
        let ghost before = out@;
        match line_path(&c, start, e, &key) {
            Some(p) => {
                out.push(p);
            },
            None => {},
        }
        proof {
            assert(string_texts(out@) =~= string_texts(before) + match vdf_line_path(
                trim(c@.subrange(start as int, e as int)),
            ) {
                Some(p) => seq![p],
                None => Seq::<Seq<char>>::empty(),
            });
        }
        if e >= n {
            proof {
                assert(vdf_paths_from(content@, 0) =~= string_texts(out@));
            }
            return out;
        }
        proof {
            assert(vdf_paths_from(content@, 0) =~= string_texts(out@) + vdf_paths_from(content@, e + 1));
        }
        start = e + 1;
    }
}

/// The first `n` of `items` that are `present`, each text kept once, at
/// its first place.
pub open spec fn kept_unique(items: Seq<Seq<char>>, present: Seq<bool>, n: int) -> Seq<Seq<char>>
    decreases n,
{
    if n <= 0 {
        seq![]
    } else {
        let prev = kept_unique(items, present, n - 1);
        if present[n - 1] && !prev.contains(items[n - 1]) {
            prev.push(items[n - 1])
        } else {
            prev
        }
    }
}

/// What `kept_unique` keeps holds nothing twice, and each text it holds is
/// one of the first `n` items and is present.
pub proof fn lemma_kept_unique(items: Seq<Seq<char>>, present: Seq<bool>, n: int)
    requires
        0 <= n <= items.len(),
        n <= present.len(),
    ensures
        kept_unique(items, present, n).no_duplicates(),
        forall|t: Seq<char>| #[trigger]
            kept_unique(items, present, n).contains(t) ==> exists|i: int|
                0 <= i < n && present[i] && items[i] == t,
    decreases n,
{
    if n > 0 {
        lemma_kept_unique(items, present, n - 1);
        let prev = kept_unique(items, present, n - 1);
        if present[n - 1] && !prev.contains(items[n - 1]) {
            let cur = prev.push(items[n - 1]);
            assert forall|a: int, b: int| 0 <= a < cur.len() && 0 <= b < cur.len() && a != b implies cur[a]
                != cur[b] by {
                if a == cur.len() - 1 {
                    assert(prev.contains(cur[b]) || b == a);
                } else if b == cur.len() - 1 {
                    assert(prev.contains(cur[a]));
                }
            }
            assert forall|t: Seq<char>| #[trigger] cur.contains(t) implies exists|i: int|
                0 <= i < n && present[i] && items[i] == t by {
                if t == items[n - 1] {
                    assert(0 <= n - 1 < n && present[n - 1] && items[n - 1] == t);
                } else {
                    let j = choose|j: int| 0 <= j < cur.len() && cur[j] == t;
                    assert(prev.contains(t)) by {
                        assert(prev[j] == t);
                    }
                }
            }
        }
    }
}

fn contains_text(v: &Vec<String>, t: &str) -> (r: bool)
    ensures
        r == string_texts(v@).contains(t@),
{
    let mut i: usize = 0;
    while i < v.len()
        invariant
            i <= v@.len(),
            forall|k: int| 0 <= k < i ==> v@[k]@ != t@,
        decreases v@.len() - i,
    {
        if same_text(v[i].as_str(), t) {
            proof {
                assert(string_texts(v@)[i as int] == t@);
            }
            return true;
        }
        i = i + 1;
    }
    proof {
        if string_texts(v@).contains(t@) {
            let k = choose|k: int| 0 <= k < string_texts(v@).len() && string_texts(v@)[k] == t@;
            assert(v@[k]@ == t@);
        }
    }
    false
}

/// Those of `items` that are `present`, each text once, in the order they
/// first appear (the library folders that exist, with repeats dropped).
pub fn keep_unique_present(items: &Vec<String>, present: &[bool]) -> (v: Vec<String>)
    requires
        items@.len() == present@.len(),
    ensures
        string_texts(v@) == kept_unique(string_texts(items@), present@, items@.len() as int),
        string_texts(v@).no_duplicates(),
{
    let mut out: Vec<String> = Vec::new();
    let mut i: usize = 0;
    while i < items.len()
        invariant
            i <= items@.len() == present@.len(),
            string_texts(out@) == kept_unique(string_texts(items@), present@, i as int),
        decreases items@.len() - i,
    {
        if present[i] && !contains_text(&out, items[i].as_str()) {
            let ghost before = out@;
            out.push(items[i].clone());
            proof {
                assert(string_texts(out@) =~= string_texts(before).push(items@[i as int]@));
            }
        }
        i = i + 1;
    }
    proof {
        lemma_kept_unique(string_texts(items@), present@, items@.len() as int);
    }
    out
}

/// What the file system showed of one Steam root: whether it exists, and
/// the library folders its `libraryfolders.vdf` lists that exist (see
/// `keep_unique_present`).
#[derive(Debug, Clone)]
pub struct SteamRootFacts {
    pub exists: bool,
    pub libraries: Vec<String>,
}

/// Where Destiny 2 may be under the `i`-th Steam root of `home`: the
/// root's own library, then each of its listed libraries; nothing when the
/// root does not exist.
pub open spec fn root_candidates(home: Seq<char>, i: int, f: SteamRootFacts) -> Seq<Seq<char>> {
    if f.exists {
        seq![destiny_dir(path_join(home, steam_root_suffixes()[i]))] + string_texts(f.libraries@).map_values(
            |l: Seq<char>| destiny_dir(l),
        )
    } else {
        seq![]
    }
}

/// The candidates of the first `n` Steam roots, in search order.
pub open spec fn candidates_upto(home: Seq<char>, facts: Seq<SteamRootFacts>, n: int) -> Seq<Seq<char>>
    decreases n,
{
    if n <= 0 {
        seq![]
    } else {
        candidates_upto(home, facts, n - 1) + root_candidates(home, n - 1, facts[n - 1])
    }
}

/// Every directory where a Destiny 2 installation may be, in search order,
/// given what the file system showed of each of `candidate_steam_roots(home)`.
pub fn installation_candidates(home: &str, roots: &[SteamRootFacts]) -> (v: Vec<String>)
    requires
        roots@.len() == 7,
    ensures
        string_texts(v@) == candidates_upto(home@, roots@, 7),
{
    let steam_roots = candidate_steam_roots(home);
    let mut out: Vec<String> = Vec::new();
    let mut i: usize = 0;
    while i < 7
        invariant
            i <= 7,
            roots@.len() == 7,
            steam_roots@.len() == 7,
            forall|k: int| 0 <= k < 7 ==> #[trigger] steam_roots@[k]@ == path_join(home@, steam_root_suffixes()[k]),
            string_texts(out@) == candidates_upto(home@, roots@, i as int),
        decreases 7 - i,
    {
        let f = &roots[i];
        if f.exists {
            let ghost before = string_texts(out@);
            let ghost libs = string_texts(f.libraries@);
            out.push(destiny_dir_in(steam_roots[i].as_str()));
            let mut j: usize = 0;
            while j < f.libraries.len()
                invariant
                    j <= f.libraries@.len(),
                    libs == string_texts(f.libraries@),
                    string_texts(out@) == before + seq![destiny_dir(path_join(home@, steam_root_suffixes()[i as int]))]
                        + libs.take(j as int).map_values(|l: Seq<char>| destiny_dir(l)),
                decreases f.libraries@.len() - j,
            {
                let ghost mid = out@;
                out.push(destiny_dir_in(f.libraries[j].as_str()));
                proof {
                    assert(libs.take(j + 1) =~= libs.take(j as int).push(libs[j as int]));
                    assert(string_texts(out@) =~= string_texts(mid).push(destiny_dir(libs[j as int])));
                    assert(libs.take(j + 1).map_values(|l: Seq<char>| destiny_dir(l)) =~= libs.take(
                        j as int,
                    ).map_values(|l: Seq<char>| destiny_dir(l)).push(destiny_dir(libs[j as int])));
                }
                j = j + 1;
            }
            proof {
                assert(libs.take(libs.len() as int) =~= libs);
                assert(string_texts(out@) =~= candidates_upto(home@, roots@, i + 1));
            }
        } else {
            proof {
                assert(candidates_upto(home@, roots@, i + 1) =~= candidates_upto(home@, roots@, i as int));
            }
        }
        i = i + 1;
    }
    out
}

/// The installation roots of a list of installations.
pub open spec fn install_roots(v: Seq<Destiny2Paths>) -> Seq<Seq<char>> {
    v.map_values(|p: Destiny2Paths| p.game_root@)
}

/// The Destiny 2 installations among `candidates`, given which have their
/// game executable (`exe_exists`): one per directory, in the order they were
/// first found.
pub fn search_destiny2_installations(candidates: &Vec<String>, exe_exists: &[bool]) -> (v: Vec<Destiny2Paths>)
    requires
        candidates@.len() == exe_exists@.len(),
    ensures
        install_roots(v@) == kept_unique(string_texts(candidates@), exe_exists@, candidates@.len() as int),
        install_roots(v@).no_duplicates(),
        forall|k: int| 0 <= k < v@.len() ==> is_install_at(#[trigger] v@[k], v@[k].game_root@),
{
    let roots = keep_unique_present(candidates, exe_exists);
    let mut out: Vec<Destiny2Paths> = Vec::new();
    let mut i: usize = 0;
    while i < roots.len()
        invariant
            i <= roots@.len(),
            install_roots(out@) == string_texts(roots@).take(i as int),
            forall|k: int| 0 <= k < out@.len() ==> is_install_at(#[trigger] out@[k], out@[k].game_root@),
        decreases roots@.len() - i,
    {
        match Destiny2Paths::from_root(roots[i].as_str(), true) {
            Some(p) => {
                let ghost before = out@;
                out.push(p);
                proof {
                    assert(out@ == before.push(p));
                    assert(install_roots(out@) =~= install_roots(before).push(roots@[i as int]@));
                    assert(string_texts(roots@).take(i + 1) =~= string_texts(roots@).take(i as int).push(
                        roots@[i as int]@,
                    ));
                }
            },
            None => {},
        }
        i = i + 1;
    }
    proof {
        assert(string_texts(roots@).take(roots@.len() as int) =~= string_texts(roots@));
    }
    out
}

} // verus!
