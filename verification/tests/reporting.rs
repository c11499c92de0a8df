use nix_fhs::failure::Failure;
use nix_fhs::notice::{env_not_built, env_not_found, env_not_found_as, Notice};
use nix_fhs::report::{write_info, write_list, info_as, info_document, Json, JsonValue, Listing};
use nix_fhs::storage::{EnvFile, Storage};

fn read(file: &str) -> Storage {
    Storage::new("/config", "test", EnvFile::Text(file.to_string()))
}

fn listing(name: &str, packages: &[&str]) -> Listing {
    Listing {
        name: name.to_string(),
        packages: packages.iter().map(|p| p.to_string()).collect(),
    }
}

#[test]
fn an_environment_is_told_in_text() {
    let storage = read("nixpkgs.git\nnixpkgs.curl\nhome#x");
    assert_eq!(
        write_info("test", &storage, false),
        "Environment \"test\"\n\nChannels:\n - nixpkgs\n\nFlakes:\n - home\n\nPackages:\n - nixpkgs.git\n - nixpkgs.curl\n - home#x\n"
    );
}

#[test]
fn an_empty_environment_is_told_to_be_empty() {
    assert_eq!(
        info_as("<shown>", &read("")),
        "Environment <shown>\n\nChannels:\n - <empty>\n\nFlakes:\n - <empty>\n\nPackages:\n - <empty>\n"
    );
}

#[test]
fn an_environment_is_told_in_json() {
    let storage = read("nixpkgs.git\nhome#x");
    assert_eq!(
        write_info("test", &storage, true),
        "{\n  \"channels\": [\n    \"nixpkgs\"\n  ],\n  \"flakes\": [\n    \"home\"\n  ],\n  \"packages\": [\n    \"nixpkgs.git\",\n    \"home#x\"\n  ]\n}\n"
    );
    assert_eq!(
        write_info("test", &read(""), true),
        "{\n  \"channels\": [],\n  \"flakes\": [],\n  \"packages\": []\n}\n"
    );
}

#[test]
fn the_json_of_an_environment_is_what_serde_json_reads() {
    let storage = read("nixpkgs.\"q\"\u{7f}\nhome#x");
    let text = write_info("test", &storage, true);
    let value: serde_json::Value = serde_json::from_str(&text).unwrap();
    let packages: Vec<&str> =
        value["packages"].as_array().unwrap().iter().map(|p| p.as_str().unwrap()).collect();
    assert_eq!(packages, storage.packages);
}

#[test]
fn the_document_of_an_environment_holds_its_three_lists() {
    match info_document(&read("b.x\na.y\na#z")) {
        Json::Object(members) => {
            let told: Vec<(String, Vec<String>)> = members
                .into_iter()
                .map(|m| match m.value {
                    JsonValue::List(items) => (m.key, items),
                    JsonValue::Text(_) => unreachable!(),
                })
                .collect();
            assert_eq!(told[0], ("channels".to_string(), vec!["a".to_string(), "b".to_string()]));
            assert_eq!(told[1], ("flakes".to_string(), vec!["a".to_string()]));
            assert_eq!(told[2].0, "packages");
            assert_eq!(told[2].1, ["b.x", "a.y", "a#z"]);
        },
        Json::Array(_) => unreachable!(),
    }
}

#[test]
fn environments_are_listed_in_text() {
    let list = vec![listing("a", &["nixpkgs.curl", "nixpkgs.git"]), listing("b", &[])];
    assert_eq!(
        write_list(&list, false),
        "a:\n  - nixpkgs.curl\n  - nixpkgs.git\n\nb:\n  <empty>\n\n"
    );
}

#[test]
fn environments_are_listed_in_json() {
    let list = vec![listing("a", &["nixpkgs.git"]), listing("b", &[])];
    assert_eq!(
        write_list(&list, true),
        "[\n  {\n    \"name\": \"a\",\n    \"packages\": [\n      \"nixpkgs.git\"\n    ]\n  },\n  {\n    \"name\": \"b\",\n    \"packages\": []\n  }\n]\n"
    );
}

#[test]
fn no_environments_are_told_with_a_hint() {
    assert_eq!(
        write_list(&Vec::new(), false),
        "No environments found.\n\nCreate one with:\n  $ fhs add <package>\n"
    );
    assert_eq!(write_list(&Vec::new(), true), "[]\n");
}

#[test]
fn a_missing_environment_is_told_with_a_hint() {
    assert_eq!(
        env_not_found("default"),
        "Environment \"default\" does not exist, please create it by adding packages\n $ fhs add <package>"
    );
    assert_eq!(
        env_not_found("a\"\n"),
        "Environment \"a\\\"\\n\" does not exist, please create it by adding packages\n $ fhs add -e a\"\n <package>"
    );
    assert_eq!(
        env_not_found_as("X", "x"),
        "Environment X does not exist, please create it by adding packages\n $ fhs add -e x <package>"
    );
}

#[test]
fn an_environment_that_was_not_built_is_told_with_a_hint() {
    assert_eq!(
        env_not_built("default"),
        "Environment needs rebuild, auto-rebuild disabled\n $ fhs rebuild"
    );
    assert_eq!(
        env_not_built("x"),
        "Environment needs rebuild, auto-rebuild disabled\n $ fhs rebuild -e x"
    );
}

#[test]
fn every_failure_has_its_text() {
    let s = |s: &str| s.to_string();
    let cases = [
        (Failure::Spawn { program: s("nix") }, "Failed to spawn nix"),
        (Failure::Nix { detail: s("e") }, "nix: e"),
        (Failure::FlakesDisabled, "Flakes are not enabled in your nix installation"),
        (
            Failure::ChannelUpdate { name: s("n"), detail: s("e") },
            "Failed to update channel n: e",
        ),
        (Failure::FlakeUpdate { name: s("n"), detail: s("e") }, "Failed to update flake n: e"),
        (Failure::GlobalUpdate { detail: s("e") }, "Failed to update global nixpkgs: e"),
        (
            Failure::GlobalUnresolved,
            "Failed to resolve nixpkgs from both channel and flake",
        ),
        (
            Failure::GlobalMissing,
            "Global nixpkgs not initialized. Run 'fhs update-global' first.",
        ),
        (Failure::GlobalPath, "Failed to resolve global nixpkgs path"),
        (Failure::StorageWrite, "Failed to write storage"),
        (Failure::Build, "Build failed"),
        (Failure::Exec { detail: s("e") }, "Failed to exec: e"),
        (Failure::System { detail: s("e") }, "e"),
    ];
    for (failure, text) in cases {
        assert_eq!(failure.message(), text);
    }
}

#[test]
fn every_notice_has_its_text() {
    let s = |s: &str| s.to_string();
    let cases = [
        (Notice::UpdatingChannel { name: s("n") }, "Updating channel: n"),
        (Notice::UpdatingFlake { name: s("n") }, "Updating flake: n"),
        (Notice::UpdatingGlobal, "Updating global nixpkgs"),
        (Notice::UsingChannel, "Using nixpkgs channel"),
        (Notice::TryingFlake, "Channel not found, trying nixpkgs flake"),
        (Notice::ChannelCheckFailed { detail: s("e") }, "channel check failed: e"),
        (Notice::FlakeCheckFailed { detail: s("e") }, "flake check failed: e"),
        (Notice::FlakesNotEnabled, "flake check failed: flakes are not enabled"),
        (Notice::GeneratingNix, "Generating nix expression"),
        (Notice::GeneratedNix { content: s("x") }, "Generated nix:\nx"),
        (Notice::Rebuilding { env: s("e") }, "rebuilding e..."),
        (Notice::CollectingChannel { name: s("n") }, "GC channel: n"),
        (Notice::CollectingFlake { name: s("n") }, "GC flake: n"),
        (Notice::NoSourcePrefix { pkg: s("p") }, "p: no source prefix, trying nixpkgs.p"),
        (Notice::FoundInChannel { pkg: s("p") }, "p: found as nixpkgs.p"),
        (Notice::NotInChannel { pkg: s("p") }, "p: not in channel, trying nixpkgs#p"),
        (Notice::FoundInFlake { pkg: s("p") }, "p: found as nixpkgs#p"),
        (Notice::NotFound { pkg: s("p") }, "p: does not exist or fails to evaluate"),
        (Notice::AddingSource { name: s("n") }, "Adding source: n"),
        (
            Notice::SourceFailed { pkg: s("p"), detail: s("e") },
            "p: failed to add source: e",
        ),
        (Notice::Removing { pkg: s("p") }, "Removing: p"),
        (Notice::NotInstalled { pkg: s("p") }, "p: not installed"),
        (Notice::FetchingChannels, "Fetching channels..."),
        (Notice::UpdatingEnv { env: s("e") }, "Updating environment: e"),
        (Notice::GlobalUpdated, "Global nixpkgs updated successfully."),
        (Notice::Aborted { detail: s("e") }, "Error: e"),
    ];
    for (notice, text) in cases {
        assert_eq!(notice.text(), text);
    }
}

#[test]
fn details_are_given_to_those_who_want_to_hear_everything() {
    let detail = Notice::<String>::UpdatingGlobal;
    assert!(!detail.given(false));
    assert!(detail.given(true));
    assert!(!detail.to_output());
    let news = Notice::Rebuilding { env: "e".to_string() };
    assert!(news.given(false));
    assert!(news.to_output());
    let error = Notice::Aborted { detail: "e".to_string() };
    assert!(error.given(false));
    assert!(!error.to_output());
}
