//! JDK cache directory matching.
//!
//! Cached JDK installations live in directories whose names start with `jdk`
//! or `jdk-`; a requested version matches a directory when the directory
//! name, stripped of that marker, starts with the requested string. This is a
//! deliberately loose prefix heuristic, not a semantic version comparison.

use vstd::prelude::*;
use vstd::string::*;
use crate::strutil::{rfind_char, starts_with_str, substr};

verus! {

/// The operating systems the engine distinguishes when it picks remote JDK
/// package names.
#[derive(Clone, Copy, Debug, PartialEq, Eq, Structural)]
pub enum OsKind {
    MacOs,
    Linux,
    Other,
}

/// Whether a cache directory name matches a requested JDK version: the name
/// must start with `jdk-` or `jdk`, and what follows the marker must start
/// with the requested version.
pub open spec fn spec_jdk_dir_matches(dir: Seq<char>, version: Seq<char>) -> bool {
    ||| ("jdk-"@.is_prefix_of(dir) && version.is_prefix_of(
        dir.subrange("jdk-"@.len() as int, dir.len() as int),
    ))
    ||| ("jdk"@.is_prefix_of(dir) && version.is_prefix_of(
        dir.subrange("jdk"@.len() as int, dir.len() as int),
    ))
}

/// Decides whether a directory name matches a requested JDK version.
pub fn jdk_dir_matches(dir: &str, version: &str) -> (r: bool)
    ensures
        r == spec_jdk_dir_matches(dir@, version@),
{
    let dir_len = dir.unicode_len();
    if starts_with_str(dir, "jdk-") {
        let n = "jdk-".unicode_len();
        if starts_with_str(substr(dir, n, dir_len), version) {
            return true;
        }
    }
    if starts_with_str(dir, "jdk") {
        let n = "jdk".unicode_len();
        if starts_with_str(substr(dir, n, dir_len), version) {
            return true;
        }
    }
    false
}

/// The last path segment of `p`: a trailing `/` is dropped first, then
/// everything up to and including the last `/` is stripped.
pub open spec fn spec_last_segment(p: Seq<char>) -> Seq<char> {
    let q = if p.len() > 0 && p[p.len() - 1] == '/' {
        p.drop_last()
    } else {
        p
    };
    match q.index_of_last('/') {
        None => q,
        Some(i) => q.subrange(i + 1, q.len() as int),
    }
}

/// Extracts the last path segment of a path string.
pub fn last_path_segment(p: &str) -> (r: String)
    ensures
        r@ == spec_last_segment(p@),
{
    let p_len = p.unicode_len();
    let q: &str = if p_len > 0 && p.get_char(p_len - 1) == '/' {
        substr(p, 0, p_len - 1)
    } else {
        p
    };
    proof {
        assert(q@ == (if p@.len() > 0 && p@[p@.len() - 1] == '/' {
            p@.drop_last()
        } else {
            p@
        }));
        q@.index_of_last_ensures('/');
    }
    let q_len = q.unicode_len();
    match rfind_char(q, '/') {
        None => String::from_str(q),
        Some(i) => {
            proof {
                let found = q@.index_of_last('/');
                assert(found matches Some(k) && k == i as int) by {
                    if let Some(k) = found {
                        assert(!((i as int) < k));
                        assert(!(k < (i as int)));
                    }
                }
            }
            String::from_str(substr(q, i + 1, q_len))
        },
    }
}

/// Whether a full directory path names a cached JDK that matches `version`,
/// judged on its last path segment.
pub open spec fn spec_jdk_path_matches(path: Seq<char>, version: Seq<char>) -> bool {
    spec_jdk_dir_matches(spec_last_segment(path), version)
}

/// The first entry of a cache directory listing whose name matches the
/// requested JDK version, in listing order.
pub open spec fn spec_find_jdk(l: Seq<(Seq<char>, bool)>, version: Seq<char>) -> Option<Seq<char>>
    decreases l.len(),
{
    if l.len() == 0 {
        None
    } else if spec_jdk_path_matches(l[0].0, version) {
        Some(l[0].0)
    } else {
        spec_find_jdk(l.drop_first(), version)
    }
}

/// Finds the first entry of a cache directory listing whose name matches the
/// requested JDK version.
pub fn find_jdk_match(entries: &Vec<(String, bool)>, version: &str) -> (r: Option<String>)
    ensures
        match r {
            Some(p) => spec_find_jdk(crate::cache::listing_view(entries@), version@) == Some(p@),
            None => spec_find_jdk(crate::cache::listing_view(entries@), version@) is None,
        },
{
    let ghost l = crate::cache::listing_view(entries@);
    proof {
        assert(l.skip(0) =~= l);
    }
    let n = entries.len();
    let mut i: usize = 0;
    while i < n
        invariant
            i <= n,
            n == entries@.len(),
            l == crate::cache::listing_view(entries@),
            l.len() == n,
            spec_find_jdk(l, version@) == spec_find_jdk(l.skip(i as int), version@),
        decreases n - i,
    {
        let seg = last_path_segment(entries[i].0.as_str());
        if jdk_dir_matches(seg.as_str(), version) {
            proof {
                assert(l.skip(i as int)[0] == l[i as int]);
            }
            return Some(entries[i].0.clone());
        }
        proof {
            assert(l.skip(i as int)[0] == l[i as int]);
            assert(l.skip(i as int).drop_first() =~= l.skip(i + 1 as int));
        }
        i += 1;
    }
    proof {
        assert(l.skip(n as int) =~= Seq::<(Seq<char>, bool)>::empty());
    }
    None
}

/// The home path inside a matched JDK directory: macOS bundles keep it under
/// `Contents/Home`, elsewhere the directory itself is the home.
pub open spec fn spec_java_home_within(path: Seq<char>, has_contents_home: bool) -> Seq<char> {
    if has_contents_home {
        path + "/Contents/Home"@
    } else {
        path
    }
}

/// Derives the JDK home from a matched directory, given whether that
/// directory holds a `Contents/Home` subdirectory.
pub fn java_home_within(path: &str, has_contents_home: bool) -> (r: String)
    ensures
        r@ == spec_java_home_within(path@, has_contents_home),
{
    if has_contents_home {
        crate::strutil::concat2(path, "/Contents/Home")
    } else {
        String::from_str(path)
    }
}

/// The remote package names tried for a JDK, in order: an explicit override
/// name wins; otherwise the names conventional for the operating system.
pub open spec fn spec_cloud_java_names(os: OsKind, override_name: Option<Seq<char>>) -> Seq<
    Seq<char>,
> {
    match override_name {
        Some(n) => seq![n],
        None => match os {
            OsKind::MacOs => seq!["openjdk-osx"@],
            OsKind::Linux => seq!["jdk-linux"@, "openjdk-linux"@],
            OsKind::Other => Seq::empty(),
        },
    }
}

/// Picks the remote JDK package names to try for this platform.
pub fn cloud_java_names(os: OsKind, override_name: &Option<String>) -> (r: Vec<String>)
    ensures
        r@.len() == spec_cloud_java_names(os, crate::strutil::spec_opt_str(override_name)).len(),
        forall|i: int|
            0 <= i < r@.len() ==> r@[i]@ == spec_cloud_java_names(
                os,
                crate::strutil::spec_opt_str(override_name),
            )[i],
{
    let mut v: Vec<String> = Vec::new();
    match override_name {
        Some(n) => {
            v.push(n.clone());
        },
        None => {
            match os {
                OsKind::MacOs => {
                    v.push(String::from_str("openjdk-osx"));
                },
                OsKind::Linux => {
                    v.push(String::from_str("jdk-linux"));
                    v.push(String::from_str("openjdk-linux"));
                },
                OsKind::Other => {},
            }
        },
    }
    v
}

} // verus!
