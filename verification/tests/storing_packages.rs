use nix_fhs::package::PackageRef;
use nix_fhs::removals::{remove_package, remove_packages};
use nix_fhs::storage::{EnvFile, Storage};

const CONFIG: &str = "/config";

fn new(env: &str) -> Storage {
    Storage::new(CONFIG, env, EnvFile::Missing)
}

fn read(env: &str, file: &str) -> Storage {
    Storage::new(CONFIG, env, EnvFile::Text(file.to_string()))
}

#[test]
fn test_storage_new_empty() {
    let storage = new("test");
    assert!(storage.is_new);
    assert!(storage.packages.is_empty());
}

#[test]
fn test_storage_add_and_write() {
    let mut storage = new("test");
    storage.add("nixpkgs.git");
    storage.add("nixpkgs.curl");
    let file = storage.write();

    let storage2 = read("test", &file);
    assert!(!storage2.is_new);
    assert_eq!(storage2.packages.len(), 2);
    assert!(storage2.contains("nixpkgs.git"));
    assert!(storage2.contains("nixpkgs.curl"));
}

#[test]
fn test_storage_remove() {
    let mut storage = new("test");
    storage.add("nixpkgs.git");
    storage.add("nixpkgs.curl");
    storage.remove("nixpkgs.git");

    assert!(!storage.contains("nixpkgs.git"));
    assert!(storage.contains("nixpkgs.curl"));
}

#[test]
fn test_storage_migration_unprefixed() {
    let storage = read("migration", "git\ncurl\nvim");
    assert_eq!(storage.disk_path, "/config/env.migration");
    assert_eq!(storage.packages.len(), 3);
    assert!(storage.contains("nixpkgs.git"));
    assert!(storage.contains("nixpkgs.curl"));
    assert!(storage.contains("nixpkgs.vim"));
}

#[test]
fn test_storage_list_channels() {
    let mut storage = new("test");
    storage.add("nixpkgs.git");
    storage.add("nixpkgs.curl");
    storage.add("unstable.firefox");

    let channels = storage.list_channels();
    assert_eq!(channels.len(), 2);
    assert!(channels.contains(&"nixpkgs".to_string()));
    assert!(channels.contains(&"unstable".to_string()));
}

#[test]
fn test_storage_list_flakes() {
    let mut storage = new("test");
    storage.add("nixpkgs#hello");
    storage.add("nixpkgs#cowsay");
    storage.add("home-manager#home-manager");

    let flakes = storage.list_flakes();
    assert_eq!(flakes.len(), 2);
    assert!(flakes.contains(&"nixpkgs".to_string()));
    assert!(flakes.contains(&"home-manager".to_string()));
}

#[test]
fn test_storage_mixed_sources() {
    let mut storage = new("test");
    storage.add("nixpkgs.git");
    storage.add("nixpkgs#hello");

    assert_eq!(storage.list_channels().len(), 1);
    assert_eq!(storage.list_flakes().len(), 1);
}

#[test]
fn test_storage_packages_sorted() {
    let mut storage = new("test");
    storage.add("nixpkgs.zsh");
    storage.add("nixpkgs.git");
    storage.add("nixpkgs.curl");

    assert_eq!(storage.packages[0], "nixpkgs.curl");
    assert_eq!(storage.packages[1], "nixpkgs.git");
    assert_eq!(storage.packages[2], "nixpkgs.zsh");
}

#[test]
fn test_storage_no_duplicates() {
    let mut storage = new("test");
    storage.add("nixpkgs.git");
    storage.add("nixpkgs.git");
    storage.add("nixpkgs.git");

    assert_eq!(storage.packages.len(), 1);
}

#[test]
fn test_storage_get_refs() {
    let mut storage = new("test");
    storage.add("nixpkgs.git");
    storage.add("nixpkgs#hello");

    let refs = storage.get_refs();
    assert_eq!(refs.len(), 2);

    assert!(refs.iter().any(|r| matches!(r, PackageRef::Channel { source, attr } if source == "nixpkgs" && attr == "git")));
    assert!(refs.iter().any(|r| matches!(r, PackageRef::Flake { source, attr } if source == "nixpkgs" && attr == "hello")));
}

#[test]
fn a_file_is_written_with_one_package_a_line() {
    let mut storage = new("test");
    assert_eq!(storage.write(), "");
    storage.add("nixpkgs.git");
    assert_eq!(storage.write(), "nixpkgs.git");
    storage.add("nixpkgs#git");
    assert_eq!(storage.write(), "nixpkgs#git\nnixpkgs.git");
}

#[test]
fn empty_lines_of_a_file_stand_for_no_package() {
    let storage = read("test", "\ngit\r\n\n#b\na.c\n");
    assert_eq!(storage.packages, ["nixpkgs.git", "#b", "a.c"]);
}

#[test]
fn a_file_that_cannot_be_read_is_there_but_empty() {
    let storage = Storage::new(CONFIG, "test", EnvFile::Unreadable);
    assert!(!storage.is_new);
    assert!(storage.packages.is_empty());
}

#[test]
fn the_order_of_a_file_is_kept_until_a_package_comes_in() {
    let mut storage = read("test", "b.x\na.y");
    storage.add("a.y");
    assert_eq!(storage.packages, ["b.x", "a.y"]);
    storage.add("c.z");
    assert_eq!(storage.packages, ["a.y", "b.x", "c.z"]);
}

#[test]
fn a_package_that_comes_in_and_goes_leaves_the_others_in_order() {
    let mut storage = read("test", "b.x\na.y");
    storage.add("c.z");
    storage.remove("c.z");
    assert_eq!(storage.packages, ["a.y", "b.x"]);
    storage.remove("c.z");
    assert_eq!(storage.packages, ["a.y", "b.x"]);
}

#[test]
fn removing_takes_all_entries_of_a_name() {
    let mut storage = read("test", "a.y\nb.x\na.y");
    storage.remove("a.y");
    assert_eq!(storage.packages, ["b.x"]);
}

#[test]
fn a_carriage_return_at_the_end_of_a_package_is_lost() {
    let mut storage = new("test");
    storage.add("a.b\r");
    storage.add("c.d");
    assert_eq!(read("test", &storage.write()).packages, ["a.b", "c.d"]);
}

#[test]
fn packages_are_removed_however_they_are_named() {
    let mut storage = read("test", "nixpkgs.git\nnixpkgs#git\nnixpkgs#hello\nzsh.x");
    assert_eq!(remove_package(&mut storage, "git").text(), "Removing: nixpkgs.git");
    assert_eq!(remove_package(&mut storage, "git").text(), "Removing: nixpkgs#git");
    assert_eq!(remove_package(&mut storage, "git").text(), "git: not installed");
    assert_eq!(remove_package(&mut storage, "zsh.x").text(), "Removing: zsh.x");
    assert_eq!(storage.packages, ["nixpkgs#hello"]);
}

#[test]
fn packages_are_removed_one_behind_the_other() {
    let mut storage = read("test", "nixpkgs.git\nnixpkgs#git");
    let pkgs = vec!["git".to_string(), "git".to_string(), "vim".to_string()];
    let said = remove_packages(&mut storage, &pkgs);
    let texts: Vec<String> = said.iter().map(|n| n.text()).collect();
    assert_eq!(texts, ["Removing: nixpkgs.git", "Removing: nixpkgs#git", "vim: not installed"]);
    let given: Vec<bool> = said.iter().map(|n| n.given(false)).collect();
    assert_eq!(given, [false, false, true]);
    assert!(storage.packages.is_empty());
}

#[test]
fn references_are_those_of_the_packages_that_name_a_source() {
    let mut storage = new("test");
    for pkg in ["b.x", "bare", "a#y", ""] {
        storage.add(pkg);
    }
    let written: Vec<String> = storage.get_refs().iter().map(|r| r.to_string()).collect();
    assert_eq!(written, ["a#y", "b.x"]);
}
