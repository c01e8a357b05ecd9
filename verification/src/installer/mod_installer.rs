//! The files the proxy hook installer works with.
use vstd::prelude::*;
use crate::error::SunriseError;
use crate::installer::steam_locator::{join_path, path_join, Destiny2Paths};

verus! {

pub const DEFAULT_HOOK_URL: &'static str = "https://github.com/stanuwu/Sunrise/releases/latest/download/steam_api64.dll";

pub struct ModInstaller;

/// One file copy the installer is to make, from `from` to `to`.
#[derive(Debug, Clone)]
pub struct FileCopy {
    pub from: String,
    pub to: String,
}

/// Where the hook library comes from: a file already on disk, or a download
/// from `url` into `dest`.
#[derive(Debug, Clone)]
pub enum HookSource {
    Local(String),
    Download { url: String, dest: String },
}

/// The backup of the game's own steam_api64.dll under an installation.
pub open spec fn backup_path(paths: Destiny2Paths) -> Seq<char> {
    path_join(paths.bin_x64_dir@, "steam_api64_original.dll"@)
}

/// The download cache of the hook under a home directory.
pub open spec fn cache_path(home: Seq<char>) -> Seq<char> {
    path_join(path_join(path_join(home, ".config"@), "thanatonaut"@), "steam_api64.dll"@)
}

/// Where a hook library is looked for under a home directory, in order.
pub open spec fn hook_candidate_paths(home: Seq<char>) -> Seq<Seq<char>> {
    seq!["build-win/Sunrise.dll"@, "../build-win/Sunrise.dll"@, "Sunrise.dll"@, cache_path(home)]
}

/// The index of the first `true` in `s` from `i` on, or `s.len()` when
/// there is none.
pub open spec fn first_present(s: Seq<bool>, i: int) -> int
    decreases s.len() - i,
{
    if i >= s.len() || i < 0 {
        s.len() as int
    } else if s[i] {
        i
    } else {
        first_present(s, i + 1)
    }
}

/// The copy that saves the game's own library, when there is no backup yet.
pub open spec fn backup_copies(paths: Destiny2Paths, backup_exists: bool) -> Seq<(Seq<char>, Seq<char>)> {
    if backup_exists {
        seq![]
    } else {
        seq![(paths.steam_api_dll@, backup_path(paths))]
    }
}

/// The copies as plain (from, to) pairs.
pub open spec fn copy_pairs(v: Seq<FileCopy>) -> Seq<(Seq<char>, Seq<char>)> {
    v.map_values(|c: FileCopy| (c.from@, c.to@))
}

impl ModInstaller {
    /// Where the game's own steam_api64.dll is kept once the hook replaces it.
    pub fn original_backup_path(paths: &Destiny2Paths) -> (p: String)
        ensures
            p@ == backup_path(*paths),
    {
        join_path(paths.bin_x64_dir.as_str(), "steam_api64_original.dll")
    }

    /// Where a downloaded hook is cached.
    pub fn hook_cache_path(home: &str) -> (p: String)
        ensures
            p@ == cache_path(home@),
    {
        let a = join_path(home, ".config");
        let b = join_path(a.as_str(), "thanatonaut");
        join_path(b.as_str(), "steam_api64.dll")
    }

    /// Where a hook library is looked for, in order: the local builds, then
    /// the download cache.
    pub fn hook_candidates(home: &str) -> (v: Vec<String>)
        ensures
            v@.len() == 4,
            v@[0]@ == "build-win/Sunrise.dll"@,
            v@[1]@ == "../build-win/Sunrise.dll"@,
            v@[2]@ == "Sunrise.dll"@,
            v@[3]@ == cache_path(home@),
    {
        let mut v: Vec<String> = Vec::new();
        v.push("build-win/Sunrise.dll".to_owned());
        v.push("../build-win/Sunrise.dll".to_owned());
        v.push("Sunrise.dll".to_owned());
        v.push(Self::hook_cache_path(home));
        v
    }

    /// Where the hook is downloaded from: the configured address, else the
    /// official release.
    pub fn hook_download_url(configured: Option<&str>) -> (u: String)
        ensures
            match configured {
                Some(c) => u@ == c@,
                None => u@ == DEFAULT_HOOK_URL@,
            },
    {
        match configured {
            Some(c) => c.to_owned(),
            None => DEFAULT_HOOK_URL.to_owned(),
        }
    }

    /// The launcher, its backup, and the game executable of an installation.
    pub fn launcher_paths(paths: &Destiny2Paths) -> (r: (String, String, String))
        ensures
            r.0@ == path_join(paths.game_root@, "destiny2launcher.exe"@),
            r.1@ == path_join(paths.game_root@, "destiny2launcher_original.exe"@),
            r.2@ == path_join(paths.game_root@, "destiny2.exe"@),
    {
        (
            join_path(paths.game_root.as_str(), "destiny2launcher.exe"),
            join_path(paths.game_root.as_str(), "destiny2launcher_original.exe"),
            join_path(paths.game_root.as_str(), "destiny2.exe"),
        )
    }

    /// Decides how to back up the game's own steam_api64.dll, given whether
    /// it exists (`dll_exists`) and whether a backup already does
    /// (`backup_exists`): a missing library is `FileNotFound` with its path;
    /// otherwise the backup path, and the copy to make when there is no
    /// backup yet (an existing backup is never overwritten).
    pub fn backup_original_dll(paths: &Destiny2Paths, dll_exists: bool, backup_exists: bool) -> (r: Result<
        (String, Vec<FileCopy>),
        SunriseError,
    >)
        ensures
            !dll_exists ==> (r matches Err(SunriseError::FileNotFound(p)) && p@ == paths.steam_api_dll@),
            dll_exists ==> (r matches Ok((b, copies)) && b@ == backup_path(*paths) && copy_pairs(copies@)
                == backup_copies(*paths, backup_exists)),
    {
        if !dll_exists {
            return Err(SunriseError::FileNotFound(paths.steam_api_dll.clone()));
        }
        let backup = Self::original_backup_path(paths);
        let mut copies: Vec<FileCopy> = Vec::new();
        if !backup_exists {
            copies.push(FileCopy { from: paths.steam_api_dll.clone(), to: backup.clone() });
        }
        proof {
            assert(copy_pairs(copies@) =~= backup_copies(*paths, backup_exists));
        }
        Ok((backup, copies))
    }

    /// Decides where the hook library comes from, given which of
    /// `hook_candidates(home)` exist (`present`): the first that exists, else
    /// a download from `hook_download_url(configured)` into the cache.
    pub fn resolve_hook_dll(home: &str, present: &[bool], configured: Option<&str>) -> (r: HookSource)
        requires
            present@.len() == 4,
        ensures
            first_present(present@, 0) < 4 ==> (r matches HookSource::Local(p) && p@ == hook_candidate_paths(
                home@,
            )[first_present(present@, 0)]),
            first_present(present@, 0) == 4 ==> (r matches HookSource::Download { url, dest } && dest@
                == cache_path(home@) && match configured {
                Some(c) => url@ == c@,
                None => url@ == DEFAULT_HOOK_URL@,
            }),
    {
        let candidates = Self::hook_candidates(home);
        let ghost names = hook_candidate_paths(home@);
        let mut i: usize = 0;
        while i < 4
            invariant
                0 <= i <= 4,
                present@.len() == 4,
                candidates@.len() == 4,
                names == hook_candidate_paths(home@),
                forall|k: int| 0 <= k < 4 ==> candidates@[k]@ == names[k],
                first_present(present@, 0) == first_present(present@, i as int),
            decreases 4 - i,
        {
            if present[i] {
                let p = candidates[i].clone();
                assert(p@ == names[i as int]);
                assert(first_present(present@, i as int) == i as int);
                return HookSource::Local(p);
            }
            i = i + 1;
        }
        HookSource::Download { url: Self::hook_download_url(configured), dest: Self::hook_cache_path(home) }
    }

    /// Decides how to put the hook at `hook` in place: a missing hook is
    /// `FileNotFound` with its path; then the game's library is backed up as
    /// `backup_original_dll` decides, and the hook is copied over it.
    pub fn install_hook_dll(
        paths: &Destiny2Paths,
        hook: &str,
        hook_exists: bool,
        dll_exists: bool,
        backup_exists: bool,
    ) -> (r: Result<Vec<FileCopy>, SunriseError>)
        ensures
            !hook_exists ==> (r matches Err(SunriseError::FileNotFound(p)) && p@ == hook@),
            hook_exists && !dll_exists ==> (r matches Err(SunriseError::FileNotFound(p)) && p@
                == paths.steam_api_dll@),
            hook_exists && dll_exists ==> (r matches Ok(copies) && copy_pairs(copies@) == backup_copies(
                *paths,
                backup_exists,
            ).push((hook@, paths.steam_api_dll@))),
    {
        if !hook_exists {
            return Err(SunriseError::FileNotFound(hook.to_owned()));
        }
        match Self::backup_original_dll(paths, dll_exists, backup_exists) {
            Err(e) => Err(e),
            Ok((_, copies)) => {
                let mut copies = copies;
                let ghost before = copies@;
                copies.push(FileCopy { from: hook.to_owned(), to: paths.steam_api_dll.clone() });
                proof {
                    assert(copies@ == before.push(copies@[before.len() as int]));
                    assert(copy_pairs(copies@) =~= copy_pairs(before).push((hook@, paths.steam_api_dll@)));
                }
                Ok(copies)
            },
        }
    }

    /// Decides how to send the launcher straight to the game: a missing game
    /// executable is `FileNotFound` with its path; otherwise the launcher is
    /// first saved (when it exists and has no backup yet) and then replaced by
    /// the game executable.
    pub fn backup_and_bypass_launcher(
        paths: &Destiny2Paths,
        game_exists: bool,
        launcher_exists: bool,
        backup_exists: bool,
    ) -> (r: Result<Vec<FileCopy>, SunriseError>)
        ensures
            !game_exists ==> (r matches Err(SunriseError::FileNotFound(p)) && p@ == path_join(
                paths.game_root@,
                "destiny2.exe"@,
            )),
            game_exists ==> (r matches Ok(copies) && copy_pairs(copies@) == (if launcher_exists
                && !backup_exists {
                seq![
                    (path_join(paths.game_root@, "destiny2launcher.exe"@), path_join(paths.game_root@, "destiny2launcher_original.exe"@)),
                    (path_join(paths.game_root@, "destiny2.exe"@), path_join(paths.game_root@, "destiny2launcher.exe"@)),
                ]
            } else {
                seq![(path_join(paths.game_root@, "destiny2.exe"@), path_join(paths.game_root@, "destiny2launcher.exe"@))]
            })),
    {
        let (launcher, backup, game) = Self::launcher_paths(paths);
        if !game_exists {
            return Err(SunriseError::FileNotFound(game));
        }
        let mut copies: Vec<FileCopy> = Vec::new();
        if launcher_exists && !backup_exists {
            copies.push(FileCopy { from: launcher.clone(), to: backup });
        }
        copies.push(FileCopy { from: game, to: launcher });
        proof {
            if launcher_exists && !backup_exists {
                assert(copy_pairs(copies@) =~= seq![
                    (path_join(paths.game_root@, "destiny2launcher.exe"@), path_join(paths.game_root@, "destiny2launcher_original.exe"@)),
                    (path_join(paths.game_root@, "destiny2.exe"@), path_join(paths.game_root@, "destiny2launcher.exe"@)),
                ]);
            } else {
                assert(copy_pairs(copies@) =~= seq![(path_join(paths.game_root@, "destiny2.exe"@), path_join(paths.game_root@, "destiny2launcher.exe"@))]);
            }
        }
        Ok(copies)
    }

    /// Decides how to put the launcher back: the saved launcher is copied
    /// over it when the backup exists; otherwise nothing is done.
    pub fn restore_launcher(paths: &Destiny2Paths, backup_exists: bool) -> (r: Option<FileCopy>)
        ensures
            !backup_exists ==> r is None,
            backup_exists ==> (r matches Some(c) && c.from@ == path_join(
                paths.game_root@,
                "destiny2launcher_original.exe"@,
            ) && c.to@ == path_join(paths.game_root@, "destiny2launcher.exe"@)),
    {
        let (launcher, backup, _) = Self::launcher_paths(paths);
        if backup_exists {
            Some(FileCopy { from: backup, to: launcher })
        } else {
            None
        }
    }

    /// Decides how to put the game's own steam_api64.dll back: a missing
    /// backup is `FileNotFound` with its path; otherwise the backup is copied
    /// over the library.
    pub fn restore_original_dll(paths: &Destiny2Paths, backup_exists: bool) -> (r: Result<FileCopy, SunriseError>)
        ensures
            !backup_exists ==> (r matches Err(SunriseError::FileNotFound(p)) && p@ == backup_path(*paths)),
            backup_exists ==> (r matches Ok(c) && c.from@ == backup_path(*paths) && c.to@
                == paths.steam_api_dll@),
    {
        let backup = Self::original_backup_path(paths);
        if !backup_exists {
            return Err(SunriseError::FileNotFound(backup));
        }
        Ok(FileCopy { from: backup, to: paths.steam_api_dll.clone() })
    }
}

} // verus!
