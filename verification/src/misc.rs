//! Argument classification and small helpers for the engine's callers.

use vstd::prelude::*;
use vstd::string::*;
use crate::strutil::{names_view, starts_with_str, substr};

verus! {

/// Whether an argument vector invokes a built-in command: its second element
/// starts with `:::` or `...`.
pub open spec fn spec_is_buildin_args(args: Seq<Seq<char>>) -> bool {
    args.len() > 1 && (":::"@.is_prefix_of(args[1]) || "..."@.is_prefix_of(args[1]))
}

/// Decides whether the argument vector invokes a built-in command.
pub fn is_buildin_args(args: &Vec<String>) -> (r: bool)
    ensures
        r == spec_is_buildin_args(names_view(args@)),
{
    if args.len() > 1 {
        starts_with_str(args[1].as_str(), ":::") || starts_with_str(args[1].as_str(), "...")
    } else {
        false
    }
}

/// The full build-time git hash, when one was recorded: an empty string
/// means none.
pub fn get_full_git_hash(hash: &str) -> (r: Option<&str>)
    ensures
        match r {
            Some(h) => hash@.len() > 0 && h@ == hash@,
            None => hash@.len() == 0,
        },
{
    if hash.unicode_len() == 0 {
        None
    } else {
        Some(hash)
    }
}

/// The short form of the recorded git hash: its first seven characters.
pub fn get_short_git_hash(hash: &str) -> (r: Option<String>)
    requires
        hash@.len() == 0 || hash@.len() >= 7,
    ensures
        match r {
            Some(h) => hash@.len() > 0 && h@ == hash@.subrange(0, 7),
            None => hash@.len() == 0,
        },
{
    if hash.unicode_len() == 0 {
        None
    } else {
        Some(String::from_str(substr(hash, 0, 7)))
    }
}

/// How a builder override value splits: `gradle<v>` and `maven<v>` name the
/// builder and its version; anything else is not recognized.
pub open spec fn spec_parse_builder_env(s: Seq<char>) -> Option<(Seq<char>, Seq<char>)> {
    if "gradle"@.is_prefix_of(s) {
        Some(("gradle"@, s.skip("gradle"@.len() as int)))
    } else if "maven"@.is_prefix_of(s) {
        Some(("maven"@, s.skip("maven"@.len() as int)))
    } else {
        None
    }
}

/// Splits a builder override value into the builder's name and version.
pub fn parse_builder_env(s: &str) -> (r: Option<(String, String)>)
    ensures
        match r {
            Some(t) => spec_parse_builder_env(s@) == Some((t.0@, t.1@)),
            None => spec_parse_builder_env(s@) is None,
        },
{
    let s_len = s.unicode_len();
    if starts_with_str(s, "gradle") {
        let n = "gradle".unicode_len();
        Some((String::from_str("gradle"), String::from_str(substr(s, n, s_len))))
    } else if starts_with_str(s, "maven") {
        let n = "maven".unicode_len();
        Some((String::from_str("maven"), String::from_str(substr(s, n, s_len))))
    } else {
        None
    }
}

/// What scanning the creation arguments has gathered so far: a JDK version,
/// a builder name and a builder version.
pub ghost struct CreateArgsModel {
    pub java: Seq<char>,
    pub builder: Seq<char>,
    pub builder_version: Seq<char>,
}

/// How one argument updates the gathered values: `--java<v>` sets the JDK
/// version, `--maven<v>` and `--gradle<v>` set the builder and its version;
/// a later argument overwrites an earlier one.
pub open spec fn spec_apply_create_arg(acc: CreateArgsModel, arg: Seq<char>) -> CreateArgsModel {
    if "--java"@.is_prefix_of(arg) && arg.len() > "--java"@.len() {
        CreateArgsModel {
            java: arg.skip("--java"@.len() as int),
            builder: acc.builder,
            builder_version: acc.builder_version,
        }
    } else if "--maven"@.is_prefix_of(arg) && arg.len() > "--maven"@.len() {
        CreateArgsModel {
            java: acc.java,
            builder: "maven"@,
            builder_version: arg.skip("--maven"@.len() as int),
        }
    } else if "--gradle"@.is_prefix_of(arg) && arg.len() > "--gradle"@.len() {
        CreateArgsModel {
            java: acc.java,
            builder: "gradle"@,
            builder_version: arg.skip("--gradle"@.len() as int),
        }
    } else {
        acc
    }
}

/// The gathered values after scanning all arguments in order.
pub open spec fn spec_scan_create_args(args: Seq<Seq<char>>, acc: CreateArgsModel) -> CreateArgsModel
    decreases args.len(),
{
    if args.len() == 0 {
        acc
    } else {
        spec_scan_create_args(args.drop_first(), spec_apply_create_arg(acc, args[0]))
    }
}

/// What creating a project manifest needs from the arguments: the JDK
/// version, builder name and builder version, all three of which must have
/// been assigned and non-empty.
pub open spec fn spec_create_args(args: Seq<Seq<char>>) -> Option<
    (Seq<char>, Seq<char>, Seq<char>),
> {
    let f = spec_scan_create_args(
        args,
        CreateArgsModel {
            java: Seq::empty(),
            builder: Seq::empty(),
            builder_version: Seq::empty(),
        },
    );
    if f.java.len() == 0 || f.builder.len() == 0 || f.builder_version.len() == 0 {
        None
    } else {
        Some((f.java, f.builder, f.builder_version))
    }
}

/// Scans the creation arguments for the JDK version, builder name and
/// builder version; any of the three missing or empty rejects the whole
/// argument vector.
pub fn parse_create_args(args: &Vec<String>) -> (r: Option<(String, String, String)>)
    ensures
        match r {
            Some(t) => spec_create_args(names_view(args@)) == Some((t.0@, t.1@, t.2@)),
            None => spec_create_args(names_view(args@)) is None,
        },
{
    let ghost full = names_view(args@);
    let mut java = String::new();
    let mut builder = String::new();
    let mut builder_version = String::new();
    proof {
        assert(full.skip(0) =~= full);
    }
    let n = args.len();
    let mut i: usize = 0;
    while i < n
        invariant
            i <= n,
            n == args@.len(),
            full == names_view(args@),
            full.len() == n,
            spec_scan_create_args(
                full,
                CreateArgsModel {
                    java: Seq::empty(),
                    builder: Seq::empty(),
                    builder_version: Seq::empty(),
                },
            ) == spec_scan_create_args(
                full.skip(i as int),
                CreateArgsModel {
                    java: java@,
                    builder: builder@,
                    builder_version: builder_version@,
                },
            ),
        decreases n - i,
    {
        let ghost acc = CreateArgsModel {
            java: java@,
            builder: builder@,
            builder_version: builder_version@,
        };
        let arg = args[i].as_str();
        let arg_len = arg.unicode_len();
        if starts_with_str(arg, "--java") && arg_len > "--java".unicode_len() {
            java = String::from_str(substr(arg, "--java".unicode_len(), arg_len));
        } else if starts_with_str(arg, "--maven") && arg_len > "--maven".unicode_len() {
            builder = String::from_str("maven");
            builder_version = String::from_str(substr(arg, "--maven".unicode_len(), arg_len));
        } else if starts_with_str(arg, "--gradle") && arg_len > "--gradle".unicode_len() {
            builder = String::from_str("gradle");
            builder_version = String::from_str(substr(arg, "--gradle".unicode_len(), arg_len));
        }
        proof {
            assert(full.skip(i as int)[0] == full[i as int]);
            assert(full.skip(i as int).drop_first() =~= full.skip(i + 1 as int));
            assert(CreateArgsModel {
                java: java@,
                builder: builder@,
                builder_version: builder_version@,
            } == spec_apply_create_arg(acc, full[i as int]));
        }
        i += 1;
    }
    proof {
        assert(full.skip(n as int) =~= Seq::<Seq<char>>::empty());
    }
    let java_empty = java.as_str().unicode_len() == 0;
    let builder_empty = builder.as_str().unicode_len() == 0;
    let bv_empty = builder_version.as_str().unicode_len() == 0;
    if java_empty || builder_empty || bv_empty {
        None
    } else {
        Some((java, builder, builder_version))
    }
}

} // verus!
