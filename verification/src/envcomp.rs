//! Environment composition for the child process.
//!
//! An environment is an ordered list of `(key, value)` pairs with distinct
//! keys. Overrides targeting `PATH` are *prepended* to the existing value, so
//! the resolved toolchain's binaries take precedence; home-variable overrides
//! replace any existing value; later overrides win on conflicting keys.

use vstd::prelude::*;
use vstd::string::*;
use crate::strutil::{concat2, concat3, eq_str};
use crate::tool::BuilderDesc;

verus! {

/// The value the environment associates with `key`: the value of the first
/// pair carrying it.
pub open spec fn env_lookup(env: Seq<(String, String)>, key: Seq<char>) -> Option<Seq<char>>
    decreases env.len(),
{
    if env.len() == 0 {
        None
    } else if env[0].0@ == key {
        Some(env[0].1@)
    } else {
        env_lookup(env.drop_first(), key)
    }
}

/// Whether the environment's keys are pairwise distinct.
pub open spec fn env_keys_distinct(env: Seq<(String, String)>) -> bool {
    forall|i: int, j: int| 0 <= i < j < env.len() ==> env[i].0@ != env[j].0@
}

/// A key is absent exactly when the lookup fails.
pub proof fn lemma_env_lookup_none(env: Seq<(String, String)>, key: Seq<char>)
    ensures
        (env_lookup(env, key) is None) <==> (forall|j: int|
            0 <= j < env.len() ==> env[j].0@ != key),
    decreases env.len(),
{
    if env.len() > 0 {
        lemma_env_lookup_none(env.drop_first(), key);
        assert(forall|j: int|
            1 <= j < env.len() ==> env[j] == env.drop_first()[j - 1]);
    }
}

/// Appending a pair only fills keys the environment did not bind yet.
pub proof fn lemma_env_lookup_push(env: Seq<(String, String)>, e: (String, String), key: Seq<char>)
    ensures
        env_lookup(env.push(e), key) == (match env_lookup(env, key) {
            Some(v) => Some(v),
            None => if e.0@ == key {
                Some(e.1@)
            } else {
                None
            },
        }),
    decreases env.len(),
{
    if env.len() == 0 {
        assert(env.push(e)[0] == e);
        assert(env.push(e).drop_first() =~= Seq::<(String, String)>::empty());
        assert(env_lookup(Seq::<(String, String)>::empty(), key) is None);
        assert(env =~= Seq::<(String, String)>::empty());
    } else {
        assert(env.push(e).drop_first() =~= env.drop_first().push(e));
        lemma_env_lookup_push(env.drop_first(), e, key);
    }
}

/// The lookup finds the first pair that carries the key.
pub proof fn lemma_env_lookup_present(env: Seq<(String, String)>, key: Seq<char>, i: int)
    requires
        0 <= i < env.len(),
        env[i].0@ == key,
        forall|j: int| 0 <= j < i ==> env[j].0@ != key,
    ensures
        env_lookup(env, key) == Some(env[i].1@),
    decreases env.len(),
{
    if i > 0 {
        assert(forall|j: int|
            0 <= j < env.drop_first().len() ==> env.drop_first()[j] == env[j + 1]);
        lemma_env_lookup_present(env.drop_first(), key, i - 1);
    }
}

/// Reads a variable from an environment list.
pub fn env_get(env: &Vec<(String, String)>, key: &str) -> (r: Option<String>)
    ensures
        match r {
            Some(v) => env_lookup(env@, key@) == Some(v@),
            None => env_lookup(env@, key@) is None,
        },
{
    let n = env.len();
    let mut i: usize = 0;
    while i < n
        invariant
            i <= n,
            n == env@.len(),
            forall|j: int| 0 <= j < i ==> env@[j].0@ != key@,
        decreases n - i,
    {
        if eq_str(env[i].0.as_str(), key) {
            proof {
                lemma_env_lookup_present(env@, key@, i as int);
            }
            return Some(env[i].1.clone());
        }
        i += 1;
    }
    proof {
        lemma_env_lookup_none(env@, key@);
    }
    None
}

/// Binds `key` to `value`, replacing any existing binding. The pairs that
/// carry other keys are kept in their order; the new binding comes last.
pub fn env_set(env: &Vec<(String, String)>, key: &str, value: &str) -> (r: Vec<(String, String)>)
    requires
        env_keys_distinct(env@),
    ensures
        env_keys_distinct(r@),
        env_lookup(r@, key@) == Some(value@),
        forall|k: Seq<char>| k != key@ ==> env_lookup(r@, k) == env_lookup(env@, k),
{
    let n = env.len();
    let mut out: Vec<(String, String)> = Vec::new();
    let mut i: usize = 0;
    while i < n
        invariant
            i <= n,
            n == env@.len(),
            env_keys_distinct(env@),
            env_keys_distinct(out@),
            forall|j: int| 0 <= j < out@.len() ==> out@[j].0@ != key@,
            forall|j: int|
                0 <= j < out@.len() ==> exists|l: int|
                    0 <= l < i && #[trigger] out@[j].0@ == #[trigger] env@[l].0@,
            forall|k: Seq<char>|
                k != key@ ==> env_lookup(out@, k) == env_lookup(env@.subrange(0, i as int), k),
        decreases n - i,
    {
        let ghost out_old = out@;
        if !eq_str(env[i].0.as_str(), key) {
            out.push((env[i].0.clone(), env[i].1.clone()));
        }
        proof {
            assert(env@.subrange(0, i + 1 as int) =~= env@.subrange(0, i as int).push(
                env@[i as int],
            ));
            assert forall|k: Seq<char>| k != key@ implies env_lookup(out@, k) == env_lookup(
                env@.subrange(0, i + 1 as int),
                k,
            ) by {
                lemma_env_lookup_push(env@.subrange(0, i as int), env@[i as int], k);
                if env@[i as int].0@ != key@ {
                    lemma_env_lookup_push(out_old, (env@[i as int].0, env@[i as int].1), k);
                }
            }
        }
        i += 1;
    }
    proof {
        assert(env@.subrange(0, n as int) =~= env@);
    }
    let ghost out_before = out@;
    out.push((String::from_str(key), String::from_str(value)));
    proof {
        lemma_env_lookup_none(out_before, key@);
        assert forall|k: Seq<char>| true implies env_lookup(out@, k) == (if k == key@ {
            Some(value@)
        } else {
            env_lookup(env@, k)
        }) by {
            lemma_env_lookup_push(out_before, out@.last(), k);
            if k == key@ {
                lemma_env_lookup_none(out_before, k);
            }
        }
    }
    out
}

/// What composing `overrides` over `base` associates with `key`, applying the
/// overrides in order: a `PATH` override prepends `<value>:` to the value so
/// far, any other override replaces it.
pub open spec fn spec_composed_lookup(
    base: Seq<(String, String)>,
    ovr: Seq<(String, String)>,
    key: Seq<char>,
) -> Option<Seq<char>>
    decreases ovr.len(),
{
    if ovr.len() == 0 {
        env_lookup(base, key)
    } else {
        let prev = spec_composed_lookup(base, ovr.drop_last(), key);
        let e = ovr.last();
        if e.0@ == key {
            if key == "PATH"@ {
                match prev {
                    Some(p) => Some(e.1@ + ":"@ + p),
                    None => Some(e.1@),
                }
            } else {
                Some(e.1@)
            }
        } else {
            prev
        }
    }
}

/// Applies an ordered override list to a base environment. `PATH` overrides
/// prepend, every other override replaces, later overrides win.
pub fn compose(base: &Vec<(String, String)>, overrides: &Vec<(String, String)>) -> (r: Vec<
    (String, String),
>)
    requires
        env_keys_distinct(base@),
    ensures
        env_keys_distinct(r@),
        forall|k: Seq<char>| env_lookup(r@, k) == spec_composed_lookup(base@, overrides@, k),
{
    let mut out: Vec<(String, String)> = Vec::new();
    let n0 = base.len();
    let mut i: usize = 0;
    while i < n0
        invariant
            i <= n0,
            n0 == base@.len(),
            env_keys_distinct(base@),
            out@ =~= base@.subrange(0, i as int),
        decreases n0 - i,
    {
        out.push((base[i].0.clone(), base[i].1.clone()));
        i += 1;
    }
    proof {
        assert(out@ =~= base@);
    }
    let n = overrides.len();
    let mut j: usize = 0;
    while j < n
        invariant
            j <= n,
            n == overrides@.len(),
            env_keys_distinct(out@),
            forall|k: Seq<char>|
                env_lookup(out@, k) == spec_composed_lookup(
                    base@,
                    overrides@.subrange(0, j as int),
                    k,
                ),
        decreases n - j,
    {
        let key = &overrides[j].0;
        let value = &overrides[j].1;
        let ghost prev_out = out@;
        if eq_str(key.as_str(), "PATH") {
            match env_get(&out, "PATH") {
                Some(p) => {
                    let new_value = concat3(value.as_str(), ":", p.as_str());
                    out = env_set(&out, key.as_str(), new_value.as_str());
                },
                None => {
                    out = env_set(&out, key.as_str(), value.as_str());
                },
            }
        } else {
            out = env_set(&out, key.as_str(), value.as_str());
        }
        proof {
            assert(overrides@.subrange(0, j + 1 as int).drop_last() =~= overrides@.subrange(
                0,
                j as int,
            ));
            assert(overrides@.subrange(0, j + 1 as int).last() == overrides@[j as int]);
        }
        j += 1;
    }
    proof {
        assert(overrides@.subrange(0, n as int) =~= overrides@);
    }
    out
}

/// What the child-process environment associates with `key` after a resolved
/// JDK home is injected: `JAVA_HOME` is replaced by the home, an existing
/// `PATH` gets `<home>/bin:` prepended, everything else is untouched.
pub open spec fn spec_env_with_java_home(
    base: Seq<(String, String)>,
    java_home: Seq<char>,
    key: Seq<char>,
) -> Option<Seq<char>> {
    if key == "JAVA_HOME"@ {
        Some(java_home)
    } else if key == "PATH"@ {
        match env_lookup(base, "PATH"@) {
            Some(p) => Some(java_home + "/bin:"@ + p),
            None => None,
        }
    } else {
        env_lookup(base, key)
    }
}

/// Builds the child-process environment for a resolved JDK: the toolchain's
/// `bin` directory takes precedence on `PATH`, and `JAVA_HOME` points at the
/// resolved home.
pub fn get_env_with_java_home(base: &Vec<(String, String)>, java_home: &str) -> (r: Vec<
    (String, String),
>)
    requires
        env_keys_distinct(base@),
    ensures
        env_keys_distinct(r@),
        forall|k: Seq<char>| env_lookup(r@, k) == spec_env_with_java_home(base@, java_home@, k),
{
    let bin_prefix = concat2(java_home, "/bin:");
    let without = env_remove(base, "JAVA_HOME");
    let with_path = match env_get(&without, "PATH") {
        Some(p) => {
            let new_path = concat2(bin_prefix.as_str(), p.as_str());
            env_set(&without, "PATH", new_path.as_str())
        },
        None => without,
    };
    env_set(&with_path, "JAVA_HOME", java_home)
}

/// Drops every binding of `key`, keeping all other pairs in order.
pub fn env_remove(env: &Vec<(String, String)>, key: &str) -> (r: Vec<(String, String)>)
    requires
        env_keys_distinct(env@),
    ensures
        env_keys_distinct(r@),
        env_lookup(r@, key@) is None,
        forall|k: Seq<char>| k != key@ ==> env_lookup(r@, k) == env_lookup(env@, k),
{
    let n = env.len();
    let mut out: Vec<(String, String)> = Vec::new();
    let mut i: usize = 0;
    while i < n
        invariant
            i <= n,
            n == env@.len(),
            env_keys_distinct(env@),
            env_keys_distinct(out@),
            forall|j: int| 0 <= j < out@.len() ==> out@[j].0@ != key@,
            forall|j: int|
                0 <= j < out@.len() ==> exists|l: int|
                    0 <= l < i && #[trigger] out@[j].0@ == #[trigger] env@[l].0@,
            forall|k: Seq<char>|
                k != key@ ==> env_lookup(out@, k) == env_lookup(env@.subrange(0, i as int), k),
        decreases n - i,
    {
        let ghost out_old = out@;
        if !eq_str(env[i].0.as_str(), key) {
            out.push((env[i].0.clone(), env[i].1.clone()));
        }
        proof {
            assert(env@.subrange(0, i + 1 as int) =~= env@.subrange(0, i as int).push(
                env@[i as int],
            ));
            assert forall|k: Seq<char>| k != key@ implies env_lookup(out@, k) == env_lookup(
                env@.subrange(0, i + 1 as int),
                k,
            ) by {
                lemma_env_lookup_push(env@.subrange(0, i as int), env@[i as int], k);
                if env@[i as int].0@ != key@ {
                    lemma_env_lookup_push(out_old, (env@[i as int].0, env@[i as int].1), k);
                }
            }
        }
        i += 1;
    }
    proof {
        assert(env@.subrange(0, n as int) =~= env@);
        lemma_env_lookup_none(out@, key@);
    }
    out
}

/// Sets every home-variable alias of a resolved builder to its home
/// directory, leaving other variables untouched.
pub fn env_with_builder_home(env: &Vec<(String, String)>, desc: &BuilderDesc) -> (r: Vec<
    (String, String),
>)
    requires
        env_keys_distinct(env@),
    ensures
        env_keys_distinct(r@),
        forall|k: Seq<char>|
            env_lookup(r@, k) == (if desc.spec_home_names().contains(k) {
                Some(desc.home@)
            } else {
                env_lookup(env@, k)
            }),
{
    let names = desc.get_builder_home_name();
    let n = names.len();
    let mut out: Vec<(String, String)> = Vec::new();
    let n0 = env.len();
    let mut c: usize = 0;
    while c < n0
        invariant
            c <= n0,
            n0 == env@.len(),
            out@ =~= env@.subrange(0, c as int),
        decreases n0 - c,
    {
        out.push((env[c].0.clone(), env[c].1.clone()));
        c += 1;
    }
    proof {
        assert(out@ =~= env@);
    }
    let mut i: usize = 0;
    while i < n
        invariant
            i <= n,
            n == names@.len(),
            names@.len() == desc.spec_home_names().len(),
            forall|l: int| 0 <= l < names@.len() ==> names@[l]@ == desc.spec_home_names()[l],
            env_keys_distinct(env@),
            env_keys_distinct(out@),
            forall|k: Seq<char>|
                env_lookup(out@, k) == (if desc.spec_home_names().subrange(0, i as int).contains(
                    k,
                ) {
                    Some(desc.home@)
                } else {
                    env_lookup(env@, k)
                }),
        decreases n - i,
    {
        out = env_set(&out, names[i].as_str(), desc.home.as_str());
        proof {
            let pre = desc.spec_home_names().subrange(0, i as int);
            let post = desc.spec_home_names().subrange(0, i + 1 as int);
            assert(post =~= pre.push(desc.spec_home_names()[i as int]));
            assert forall|k: Seq<char>| true implies (post.contains(k) <==> (pre.contains(k)
                || k == desc.spec_home_names()[i as int])) by {
                if post.contains(k) {
                    let l = choose|l: int| 0 <= l < post.len() && post[l] == k;
                    if l < pre.len() {
                        assert(pre[l] == k);
                    }
                }
                if pre.contains(k) {
                    let l = choose|l: int| 0 <= l < pre.len() && pre[l] == k;
                    assert(post[l] == k);
                }
                if k == desc.spec_home_names()[i as int] {
                    assert(post[i as int] == k);
                }
            }
        }
        i += 1;
    }
    proof {
        assert(desc.spec_home_names().subrange(0, n as int) =~= desc.spec_home_names());
    }
    out
}

/// The `PATH` round trip: after composing a single `PATH` override, the
/// variable's value starts with the override followed by `:`, and what
/// follows that prefix is the original value, unchanged.
pub proof fn lemma_compose_path_round_trip(
    base: Seq<(String, String)>,
    o: (String, String),
    p: Seq<char>,
)
    requires
        o.0@ == "PATH"@,
        env_lookup(base, "PATH"@) == Some(p),
    ensures
        spec_composed_lookup(base, seq![o], "PATH"@) == Some(o.1@ + ":"@ + p),
        (o.1@ + ":"@).is_prefix_of(o.1@ + ":"@ + p),
        (o.1@ + ":"@ + p).skip((o.1@ + ":"@).len() as int) == p,
{
    let empty = Seq::<(String, String)>::empty();
    assert(seq![o].drop_last() =~= empty);
    assert(seq![o].last() == o);
    assert(spec_composed_lookup(base, empty, "PATH"@) == env_lookup(base, "PATH"@));
    assert((o.1@ + ":"@).is_prefix_of(o.1@ + ":"@ + p)) by {
        assert((o.1@ + ":"@ + p).subrange(0, (o.1@ + ":"@).len() as int) =~= o.1@ + ":"@);
    }
    assert((o.1@ + ":"@ + p).skip((o.1@ + ":"@).len() as int) =~= p);
}

} // verus!
