use nix_fhs::paths::{cache_dir, config_dir, env_file, env_names, join_path};
use nix_fhs::process::{quote_path, SpawnResult};
use nix_fhs::text::{cut, holds, join, less, lines, sort, space, split, strip, trim};
use std::path::Path;

fn owned(list: &[&str]) -> Vec<String> {
    list.iter().map(|s| s.to_string()).collect()
}

#[test]
fn white_space_is_that_of_unicode() {
    for n in 0..=0x10ffffu32 {
        if let Some(c) = char::from_u32(n) {
            assert_eq!(space(c), c.is_whitespace(), "{:?}", c);
        }
    }
}

#[test]
fn trimming_takes_white_space_off_both_ends_only() {
    assert_eq!(trim(" \t/nix/store/a b\r\n\u{3000}"), "/nix/store/a b");
    assert_eq!(trim(" \n"), "");
    assert_eq!(trim(""), "");
}

#[test]
fn lines_end_with_or_without_a_carriage_return() {
    for s in ["", "a", "a\n", "a\r\nb", "a\n\nb\n", "\r\n", "a\r", "a\r\r\nb", "\n\n"] {
        let expected: Vec<String> = s.lines().map(|l| l.to_string()).collect();
        assert_eq!(lines(s), expected, "{:?}", s);
    }
}

#[test]
fn texts_are_cut_at_the_first_place() {
    assert_eq!(cut("a.b.c", '.'), Some(("a".to_string(), "b.c".to_string())));
    assert_eq!(cut("abc", '.'), None);
    assert!(holds("a#b", '#'));
    assert!(!holds("ab", '#'));
}

#[test]
fn texts_are_split_and_joined() {
    assert_eq!(split("a.b..c", '.'), owned(&["a", "b", "", "c"]));
    assert_eq!(split("", '.'), owned(&[""]));
    assert_eq!(join(&owned(&["a", "b", "c"]), ":"), "a:b:c");
    assert_eq!(join(&owned(&[]), ":"), "");
}

#[test]
fn texts_are_ordered_as_strings_are() {
    let words = ["", "a", "ab", "b", "B", "nixpkgs#a", "nixpkgs.a", "é", "z", "\u{ffff}", "\u{10000}"];
    for a in words {
        for b in words {
            assert_eq!(less(a, b), a < b, "{:?} {:?}", a, b);
        }
    }
    let mut list = owned(&["z", "a", "é", "B", "a"]);
    let mut expected = list.clone();
    sort(&mut list);
    expected.sort();
    assert_eq!(list, expected);
}

#[test]
fn names_are_put_behind_paths_as_the_system_does() {
    for base in ["", "/", "/a", "/a/", "a/b"] {
        for name in ["", "c", "/c", "c/d", "env.x"] {
            let expected = Path::new(base).join(name);
            assert_eq!(join_path(base, name), expected.to_str().unwrap(), "{:?} {:?}", base, name);
        }
    }
}

#[test]
fn a_directory_that_is_chosen_comes_before_that_of_the_user() {
    let some = |s: &str| Some(s.to_string());
    assert_eq!(cache_dir(some("/c"), some("/home/u/.cache")), some("/c"));
    assert_eq!(cache_dir(None, some("/home/u/.cache")), some("/home/u/.cache/fhs"));
    assert_eq!(config_dir(some(""), some("/home/u/.config")), some(""));
    assert_eq!(config_dir(None, some("/home/u/.config")), some("/home/u/.config/fhs"));
    assert_eq!(config_dir(None, None), None);
}

#[test]
fn the_files_of_environments_are_told_from_others() {
    assert_eq!(env_file("/config", "test"), "/config/env.test");
    let files = owned(&["env.a", "other", "env.", "envb", "env.c.d"]);
    assert_eq!(env_names(&files), owned(&["a", "", "c.d"]));
    assert_eq!(strip("env.a", "env."), Some("a".to_string()));
    assert_eq!(strip("env", "env."), None);
}

#[test]
fn different_environments_have_different_files_and_directories() {
    assert_ne!(env_file("/config", "a"), env_file("/config", "b"));
    assert_ne!(join_path("/cache", "a"), join_path("/cache", "b"));
}

#[test]
fn the_names_of_an_attribute_path_are_quoted() {
    assert_eq!(quote_path("nixVersions.latest"), "\"nixVersions\".\"latest\"");
    assert_eq!(quote_path("git"), "\"git\"");
    assert_eq!(quote_path(""), "\"\"");
}

#[test]
fn output_that_is_not_utf8_is_replaced() {
    let r = SpawnResult::from_output(b"a\xffb", "gr\u{fc}n".as_bytes(), true);
    assert_eq!(r.stdout, "a\u{fffd}b");
    assert_eq!(r.stderr, "gr\u{fc}n");
    assert!(r.success);
}
