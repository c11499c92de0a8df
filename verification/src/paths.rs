//! Paths, written as text, and the directories that the tool works in.

use crate::text;
use vstd::prelude::*;
use vstd::string::*;

verus! {

/// The path of `name` as seen from `base`: an absolute name stands for itself,
/// any other is put behind `base`, with one slash between them where `base` does
/// not end in one.
pub open spec fn joined_path(base: Seq<char>, name: Seq<char>) -> Seq<char> {
    if name.len() > 0 && name.first() == '/' {
        name
    } else if base.len() == 0 || base.last() == '/' {
        base + name
    } else {
        base + seq!['/'] + name
    }
}

/// Puts a name behind a path.
pub fn join_path(base: &str, name: &str) -> (r: String)
    ensures
        r@ == joined_path(base@, name@),
{
    if name.unicode_len() > 0 && name.get_char(0) == '/' {
        return name.to_owned();
    }
    let n: usize = base.unicode_len();
    if n == 0 || base.get_char(n - 1) == '/' {
        return base.to_owned().concat(name);
    }
    proof {
        reveal_strlit("/");
    }
    let out = base.to_owned().concat("/").concat(name);
    assert(out@ =~= joined_path(base@, name@));
    out
}

/// The directory of the tool: the one that an override names, else `fhs` in the
/// user's own directory. There is none where neither is known.
pub open spec fn tool_dir(chosen: Option<Seq<char>>, user: Option<Seq<char>>) -> Option<Seq<char>> {
    match chosen {
        Some(path) => Some(path),
        None => match user {
            Some(path) => Some(joined_path(path, "fhs"@)),
            None => None,
        },
    }
}

/// What an optional string says.
pub open spec fn optional(s: Option<String>) -> Option<Seq<char>> {
    match s {
        Some(s) => Some(s@),
        None => None,
    }
}

fn pick_dir(chosen: Option<String>, user: Option<String>) -> (r: Option<String>)
    ensures
        optional(r) == tool_dir(optional(chosen), optional(user)),
{
    match chosen {
        Some(path) => Some(path),
        None => match user {
            Some(path) => Some(join_path(path.as_str(), "fhs")),
            None => None,
        },
    }
}

/// The directory for what can be made again: generated files, build results and
/// the roots of sources. `chosen` is the value of `DEV_CACHE_DIR`, `user` the
/// cache directory of the user.
pub fn cache_dir(chosen: Option<String>, user: Option<String>) -> (r: Option<String>)
    ensures
        optional(r) == tool_dir(optional(chosen), optional(user)),
{
    pick_dir(chosen, user)
}

/// The directory for the lists of packages. `chosen` is the value of
/// `DEV_CONFIG_DIR`, `user` the configuration directory of the user.
pub fn config_dir(chosen: Option<String>, user: Option<String>) -> (r: Option<String>)
    ensures
        optional(r) == tool_dir(optional(chosen), optional(user)),
{
    pick_dir(chosen, user)
}

/// The name of the file that holds an environment's packages.
pub open spec fn env_file_name(env: Seq<char>) -> Seq<char> {
    "env."@ + env
}

/// The path of the file that holds an environment's packages.
pub fn env_file(config_dir: &str, env: &str) -> (r: String)
    ensures
        r@ == joined_path(config_dir@, env_file_name(env@)),
{
    let name = "env.".to_owned().concat(env);
    join_path(config_dir, name.as_str())
}

/// The environment that a file of the configuration directory is for.
pub open spec fn env_of_file(name: Seq<char>) -> Option<Seq<char>> {
    text::without_prefix(name, "env."@)
}

/// The environments that the files of the configuration directory are for, in the
/// order of the files.
pub fn env_names(files: &Vec<String>) -> (r: Vec<String>)
    ensures
        text::texts(r@) == text::texts(files@).filter_map(|name: Seq<char>| env_of_file(name)),
{
    let mut out: Vec<String> = Vec::new();
    let mut i: usize = 0;
    let ghost all = text::texts(files@);
    let ghost f = |name: Seq<char>| env_of_file(name);
    assert(all.take(0).filter_map(f) =~= text::texts(out@));
    while i < files.len()
        invariant
            i <= files@.len(),
            all == text::texts(files@),
            f == (|name: Seq<char>| env_of_file(name)),
            text::texts(out@) == all.take(i as int).filter_map(f),
        decreases files@.len() - i,
    {
        proof {
            all.lemma_filter_map_take_succ(f, i as int);
        }
        let ghost before = text::texts(out@);
        if let Some(env) = text::strip(files[i].as_str(), "env.") {
            out.push(env);
            assert(text::texts(out@) =~= before + seq![env@]);
        }
        i = i + 1;
        assert(text::texts(out@) =~= all.take(i as int).filter_map(f));
    }
    assert(all.take(i as int) =~= all);
    out
}

/// The name of an environment's file tells the environment.
pub proof fn law_env_file_names_env(env: Seq<char>)
    ensures
        env_of_file(env_file_name(env)) == Some(env),
{
    assert("env."@.is_prefix_of(env_file_name(env)));
    assert(env_file_name(env).skip("env."@.len() as int) =~= env);
}

/// Two environments never share a file: their paths are different.
pub proof fn law_env_files_differ(config_dir: Seq<char>, a: Seq<char>, b: Seq<char>)
    ensures
        joined_path(config_dir, env_file_name(a)) == joined_path(config_dir, env_file_name(b))
            <==> a == b,
{
    reveal_strlit("env.");
    let pa = joined_path(config_dir, env_file_name(a));
    let pb = joined_path(config_dir, env_file_name(b));
    assert(env_file_name(a).first() == 'e');
    assert(env_file_name(b).first() == 'e');
    let k = if config_dir.len() == 0 || config_dir.last() == '/' {
        config_dir.len() as int
    } else {
        config_dir.len() as int + 1
    };
    assert(pa.skip(k) =~= env_file_name(a));
    assert(pb.skip(k) =~= env_file_name(b));
    law_env_file_names_env(a);
    law_env_file_names_env(b);
}

/// Two environments never share a directory: their paths are different, where
/// neither is named by an absolute path.
pub proof fn law_env_directories_differ(cache_dir: Seq<char>, a: Seq<char>, b: Seq<char>)
    requires
        a.len() == 0 || a.first() != '/',
        b.len() == 0 || b.first() != '/',
    ensures
        joined_path(cache_dir, a) == joined_path(cache_dir, b) <==> a == b,
{
    let k = if cache_dir.len() == 0 || cache_dir.last() == '/' {
        cache_dir.len() as int
    } else {
        cache_dir.len() as int + 1
    };
    assert(joined_path(cache_dir, a).skip(k) =~= a);
    assert(joined_path(cache_dir, b).skip(k) =~= b);
}

} // verus!
