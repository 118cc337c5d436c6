//! The local toolchain cache: deterministic directory layout, existence
//! probes, first-subdirectory discovery and archive-type classification.
//!
//! For a given tool name and version the cache path is
//! `<base>/<name>-<version>/`; a directory existing there is treated as a
//! complete installation. Extracted archives unpack into a single top-level
//! directory whose exact name varies by vendor, so the installation home is
//! found as the first subdirectory of the cache path.

use vstd::prelude::*;
use vstd::string::*;
use crate::strutil::{concat3, concat5, ends_with_str};

verus! {

/// The deterministic cache directory for a tool name and version.
pub open spec fn spec_cache_dir(base: Seq<char>, name: Seq<char>, version: Seq<char>) -> Seq<
    char,
> {
    base + "/"@ + name + "-"@ + version
}

/// Builds the deterministic cache directory path `<base>/<name>-<version>`.
pub fn cache_dir_path(base: &str, name: &str, version: &str) -> (r: String)
    ensures
        r@ == spec_cache_dir(base@, name@, version@),
{
    concat5(base, "/", name, "-", version)
}

/// Relies on std::path::Path::exists; the result depends on the state of the
/// filesystem at the time of the call.
#[verifier::external_body]
fn path_exists(p: &str) -> bool {
    std::path::Path::new(p).exists()
}

/// Whether `<dir>/<sub_dir>` exists on disk at the time of the call.
pub fn is_path_exists(dir: &str, sub_dir: &str) -> bool {
    let full_path = concat3(dir, "/", sub_dir);
    path_exists(full_path.as_str())
}

/// Relies on dirs::home_dir: the user's home directory as reported by the
/// platform; the result depends on the process environment.
#[verifier::external_body]
fn user_home_path() -> (r: Option<String>)
{
    dirs::home_dir().and_then(|d| d.to_str().map(|s| s.to_string()))
}

/// The user's home directory, if the platform reports one.
pub fn get_user_home() -> (r: Option<String>) {
    user_home_path()
}

/// A path directly under the user's home directory: `<home>/<dir>`, or
/// nothing when no home directory is known.
pub fn get_user_home_dir(dir: &str) -> (r: Option<String>)
    ensures
        r matches Some(p) ==> exists|h: Seq<char>| p@ == h + "/"@ + dir@,
{
    match get_user_home() {
        Some(home) => Some(concat3(home.as_str(), "/", dir)),
        None => None,
    }
}

/// The view of a directory listing: each entry pairs a path with whether it
/// is a directory.
pub open spec fn listing_view(v: Seq<(String, bool)>) -> Seq<(Seq<char>, bool)> {
    Seq::new(v.len(), |i: int| (v[i].0@, v[i].1))
}

/// The first entry of a directory listing that is itself a directory, in
/// listing order.
pub open spec fn spec_first_dir(l: Seq<(Seq<char>, bool)>) -> Option<Seq<char>>
    decreases l.len(),
{
    if l.len() == 0 {
        None
    } else if l[0].1 {
        Some(l[0].0)
    } else {
        spec_first_dir(l.drop_first())
    }
}

/// Finds the first entry of a directory listing that is itself a directory.
pub fn first_dir_entry(entries: &Vec<(String, bool)>) -> (r: Option<String>)
    ensures
        match r {
            Some(p) => spec_first_dir(listing_view(entries@)) == Some(p@),
            None => spec_first_dir(listing_view(entries@)) is None,
        },
{
    let ghost l = listing_view(entries@);
    proof {
        assert(l.skip(0) =~= l);
    }
    let n = entries.len();
    let mut i: usize = 0;
    while i < n
        invariant
            i <= n,
            n == entries@.len(),
            l == listing_view(entries@),
            l.len() == n,
            spec_first_dir(l) == spec_first_dir(l.skip(i as int)),
        decreases n - i,
    {
        if entries[i].1 {
            proof {
                assert(l.skip(i as int)[0] == l[i as int]);
            }
            return Some(entries[i].0.clone());
        }
        proof {
            assert(l.skip(i as int)[0] == l[i as int]);
            assert(l.skip(i as int).drop_first() =~= l.skip(i + 1 as int));
        }
        i += 1;
    }
    proof {
        assert(l.skip(n as int) =~= Seq::<(Seq<char>, bool)>::empty());
    }
    None
}

/// The archive types the engine can have extracted.
#[derive(Clone, Copy, Debug, PartialEq, Eq, Structural)]
pub enum ArchiveKind {
    Zip,
    TarGz,
}

/// How a file name classifies: `.zip` archives, `.tar.gz` archives, anything
/// else is unsupported.
pub open spec fn spec_archive_kind(name: Seq<char>) -> Option<ArchiveKind> {
    if ".zip"@.is_suffix_of(name) {
        Some(ArchiveKind::Zip)
    } else if ".tar.gz"@.is_suffix_of(name) {
        Some(ArchiveKind::TarGz)
    } else {
        None
    }
}

/// Classifies an archive file name by its suffix.
pub fn archive_kind(name: &str) -> (r: Option<ArchiveKind>)
    ensures
        r == spec_archive_kind(name@),
{
    if ends_with_str(name, ".zip") {
        Some(ArchiveKind::Zip)
    } else if ends_with_str(name, ".tar.gz") {
        Some(ArchiveKind::TarGz)
    } else {
        None
    }
}

} // verus!
