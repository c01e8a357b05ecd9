//! Choosing the local manifest to start from, and checking a downloaded file.
use vstd::prelude::*;
use crate::crypto::hash::{hex_bytes, sha256_hex, sha256_of};
use crate::error::{Result, SunriseError};
use crate::manifest::manifest_store::ManifestStore;
use crate::text::{lowercase_of, string_push_str, to_lowercase};

verus! {

pub struct ManifestDownloader;

/// A stored manifest worth starting from: one that loaded and is not empty.
pub open spec fn usable(m: Option<ManifestStore>) -> bool {
    m matches Some(s) && s.items@.len() > 0
}

/// The message for a digest that differs from the expected one.
pub open spec fn mismatch_message(path: Seq<char>, expected: Seq<char>, actual: Seq<char>) -> Seq<char> {
    "SHA256 mismatch for "@ + path + ": expected "@ + expected + ", got "@ + actual
}

impl ManifestDownloader {
    pub const BUNGIE_MANIFEST_ENDPOINT: &'static str = "https://www.bungie.net/Platform/Destiny2/Manifest/";

    /// The manifest to start from: the local cache when it loaded and is not
    /// empty, else the copy kept beside the game packages when that loaded
    /// and is not empty, else an empty one.
    pub fn bootstrap_essential_manifest(cache: Option<ManifestStore>, vault: Option<ManifestStore>) -> (m:
        ManifestStore)
        ensures
            usable(cache) ==> Some(m) == cache,
            !usable(cache) && usable(vault) ==> Some(m) == vault,
            !usable(cache) && !usable(vault) ==> m.items@.len() == 0,
    {
        match cache {
            Some(s) => {
                if s.items.len() > 0 {
                    return s;
                }
            },
            None => {},
        }
        match vault {
            Some(s) => {
                if s.items.len() > 0 {
                    return s;
                }
            },
            None => {},
        }
        ManifestStore::new()
    }

    /// Checks a downloaded file from what the file system shows of it: it
    /// must exist, must not be empty, and, when a digest is expected, the
    /// SHA-256 of `contents` in lower-case hexadecimal must equal the
    /// expected digest in lower case.
    pub fn verify_downloaded_file(
        path: &str,
        exists: bool,
        size: u64,
        expected_sha256: Option<&str>,
        contents: &[u8],
    ) -> (r: Result<()>)
        ensures
            !exists ==> (r matches Err(SunriseError::FileNotFound(p)) && p@ == path@),
            exists && size == 0 ==> (r matches Err(SunriseError::IoError(m)) && m@ == "downloaded file empty: "@
                + path@),
            exists && size > 0 && expected_sha256 is None ==> r is Ok,
            exists && size > 0 && expected_sha256 is Some ==> ({
                let e = expected_sha256.unwrap();
                if hex_bytes(sha256_of(contents@)) == lowercase_of(e@) {
                    r is Ok
                } else {
                    r matches Err(SunriseError::IoError(m)) && m@ == mismatch_message(
                        path@,
                        e@,
                        hex_bytes(sha256_of(contents@)),
                    )
                }
            }),
    {
        if !exists {
            return Err(SunriseError::FileNotFound(path.to_owned()));
        }
        if size == 0 {
            let mut m = String::new();
            string_push_str(&mut m, "downloaded file empty: ");
            string_push_str(&mut m, path);
            return Err(SunriseError::IoError(m));
        }
        match expected_sha256 {
            Some(expected) => {
                let actual = sha256_hex(contents);
                let wanted = to_lowercase(expected);
                if actual != wanted {
                    let mut m = String::new();
                    string_push_str(&mut m, "SHA256 mismatch for ");
                    string_push_str(&mut m, path);
                    string_push_str(&mut m, ": expected ");
                    string_push_str(&mut m, expected);
                    string_push_str(&mut m, ", got ");
                    string_push_str(&mut m, actual.as_str());
                    return Err(SunriseError::IoError(m));
                }
                Ok(())
            },
            None => Ok(()),
        }
    }
}

} // verus!
