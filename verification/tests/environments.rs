use nix_fhs::effect::{Answer, Effect, Reply, Request};
use nix_fhs::nix::generate_nix;
use nix_fhs::package::PackageRef;
use nix_fhs::process::{Invocation, Output, SpawnResult};
use nix_fhs::session::{Commands, Session};
use nix_fhs::site::Site;
use nix_fhs::sources::{GlobalSources, Sources};
use nix_fhs::storage::{EnvFile, Storage};
use std::collections::{BTreeMap, BTreeSet};

const CACHE: &str = "/cache";
const CONFIG: &str = "/config";

/// A world without a disk and without nix: files, links and directories are kept
/// in memory, and nix knows what it is told.
#[derive(Default)]
struct World {
    files: BTreeMap<String, String>,
    links: BTreeMap<String, String>,
    dirs: BTreeSet<String>,
    /// Paths that cannot be written.
    locked: BTreeSet<String>,
    /// Channels and flakes that nix can resolve.
    channels: BTreeSet<String>,
    flakes: BTreeSet<String>,
    no_flakes: bool,
    /// Expressions that are true.
    facts: BTreeSet<String>,
    /// Programs that cannot be started, and programs that fail.
    absent: BTreeSet<String>,
    failing: BTreeSet<String>,
    /// What was done.
    ran: Vec<Invocation>,
    removed: Vec<String>,
    entered: Option<(String, String, String)>,
    out: Vec<String>,
    err: Vec<String>,
}

fn words(list: &[&str]) -> Vec<String> {
    list.iter().map(|s| s.to_string()).collect()
}

impl World {
    fn new() -> World {
        let mut world = World::default();
        world.channels.insert("nixpkgs".to_string());
        world.flakes.insert("nixpkgs".to_string());
        world
    }

    fn with_env(mut self, env: &str, file: &str) -> World {
        self.files.insert(format!("{}/env.{}", CONFIG, env), file.to_string());
        self
    }

    fn channel_has(mut self, channel: &str, attr: &str) -> World {
        self.facts.insert(format!("(let ch = (import <{}> {{}}); in ch ? {})", channel, attr));
        self
    }

    fn flake_has(mut self, flake: &str, output: &str, attr: &str) -> World {
        self.facts.insert(format!(
            "(let f = builtins.getFlake \"{}\"; in f.{}.${{builtins.currentSystem}} ? {})",
            flake, output, attr
        ));
        self
    }

    fn file(&self, env: &str) -> Option<&String> {
        self.files.get(&format!("{}/env.{}", CONFIG, env))
    }

    fn is_there(&self, path: &str) -> bool {
        self.files.contains_key(path) || self.links.contains_key(path) || self.dirs.contains(path)
    }

    fn names(&self, dir: &str) -> Vec<String> {
        let prefix = format!("{}/", dir);
        let mut out = BTreeSet::new();
        for path in self.files.keys().chain(self.links.keys()) {
            if let Some(name) = path.strip_prefix(&prefix) {
                if !name.contains('/') {
                    out.insert(name.to_string());
                }
            }
        }
        out.into_iter().collect()
    }

    fn nix(&self, args: &[String]) -> (String, String, bool) {
        let good = |s: String| (s, String::new(), true);
        let bad = |s: &str| (String::new(), format!("error: {}\n", s), false);
        if args == ["flake", "--help"] {
            return (String::new(), String::new(), !self.no_flakes);
        }
        let expr = args.last().unwrap();
        if args[1] == "--raw" {
            for name in &self.channels {
                if *expr == format!("(<{}>)", name) {
                    return good(format!("/nix/store/channel-{}\n", name));
                }
            }
            for name in &self.flakes {
                if *expr == format!("(builtins.getFlake \"{}\").outPath", name) {
                    return good(format!("/nix/store/flake-{}\n", name));
                }
            }
            bad("not found")
        } else {
            good(format!("{}\n", self.facts.contains(expr)))
        }
    }

    fn run(&mut self, invocation: Invocation) -> Option<SpawnResult> {
        if self.absent.contains(&invocation.program) {
            return None;
        }
        let args = &invocation.args;
        let (stdout, stderr, success) = if self.failing.contains(&invocation.program) {
            (String::new(), " no luck \n".to_string(), false)
        } else {
            match invocation.program.as_str() {
                "nix" => self.nix(args),
                "nix-store" => {
                    assert_eq!(args[0], "--realise");
                    assert_eq!(args[2..4], ["--indirect", "--add-root"]);
                    self.links.insert(args[4].clone(), args[1].clone());
                    (String::new(), String::new(), true)
                },
                "nix-build" => {
                    let env = args[2].strip_prefix("/cache/").unwrap().strip_suffix("/result").unwrap();
                    let bin = format!("{}/bin/fhs-{}", args[2], env);
                    self.files.insert(bin, "built".to_string());
                    (String::new(), String::new(), true)
                },
                "nix-channel" => (String::new(), String::new(), true),
                other => panic!("{}", other),
            }
        };
        let result = SpawnResult::from_output(stdout.as_bytes(), stderr.as_bytes(), success);
        self.ran.push(invocation);
        Some(result)
    }

    fn store(&mut self, path: &str) -> Option<String> {
        if self.locked.contains(path) {
            Some("Permission denied (os error 13)".to_string())
        } else {
            None
        }
    }

    /// What comes of a request; nothing where the tool has become another program.
    fn perform(&mut self, request: Request) -> Option<Answer> {
        Some(match request {
            Effect::Exists { path } => Reply::Found(self.is_there(&path)),
            Effect::RemoveFile { path } => {
                self.files.remove(&path);
                self.links.remove(&path);
                self.removed.push(path);
                Reply::Removed
            },
            Effect::CreateDir { path } => {
                let complaint = self.store(&path);
                if complaint.is_none() {
                    self.dirs.insert(path);
                }
                Reply::Stored(complaint)
            },
            Effect::WriteFile { path, content } => {
                let complaint = self.store(&path);
                if complaint.is_none() {
                    self.files.insert(path, content);
                }
                Reply::Stored(complaint)
            },
            Effect::ReadLink { path } => Reply::Link(self.links[&path].clone()),
            Effect::Canonicalize { path } => Reply::Canonical(self.links.get(&path).cloned()),
            Effect::ListDir { path } => Reply::Names(self.names(&path)),
            Effect::Run { invocation } => Reply::Ran(self.run(invocation)),
            Effect::ReadEnv { path } => Reply::File(match self.files.get(&path) {
                Some(text) => EnvFile::Text(text.clone()),
                None => EnvFile::Missing,
            }),
            Effect::Print { content } => {
                self.out.push(content);
                Reply::Printed
            },
            Effect::Enter { program, nix_path, nix_dev } => {
                if self.absent.contains(&program) {
                    return Some(Reply::Refused("No such file".to_string()));
                }
                self.entered = Some((program, nix_path, nix_dev));
                return None;
            },
        })
    }

    /// Runs a command to its end; tells the exit code.
    fn command(&mut self, env: &str, command: Option<Commands<Vec<String>, String>>, no_rebuild: bool) -> i32 {
        self.command_aloud(env, command, no_rebuild, false)
    }

    fn command_aloud(
        &mut self,
        env: &str,
        command: Option<Commands<Vec<String>, String>>,
        no_rebuild: bool,
        verbose: bool,
    ) -> i32 {
        let (mut session, mut said) = Session::start(CACHE, CONFIG, env, command, no_rebuild);
        loop {
            for notice in &said {
                if notice.given(verbose) {
                    if notice.to_output() {
                        self.out.push(notice.text());
                    } else {
                        self.err.push(notice.text());
                    }
                }
            }
            match session.request() {
                None => return session.exit_code(),
                Some(request) => match self.perform(request) {
                    None => return 0,
                    Some(answer) => {
                        let (next, more) = session.advance(answer);
                        session = next;
                        said = more;
                    },
                },
            }
        }
    }

    fn programs(&self) -> Vec<&str> {
        self.ran.iter().map(|i| i.program.as_str()).collect()
    }
}

fn add(pkgs: &[&str]) -> Option<Commands<Vec<String>, String>> {
    Some(Commands::Add { pkgs: words(pkgs) })
}

fn rm(pkgs: &[&str]) -> Option<Commands<Vec<String>, String>> {
    Some(Commands::Rm { pkgs: words(pkgs) })
}

fn update(fetch: bool, all: bool) -> Option<Commands<Vec<String>, String>> {
    Some(Commands::Update { fetch, all })
}

fn exists_path(request: Request) -> String {
    match request {
        Effect::Exists { path } => path,
        _ => unreachable!(),
    }
}

#[test]
fn test_sources_new() {
    let mut world = World::new().with_env("test", "");
    assert_eq!(world.command("test", rm(&["x"]), true), 0);
    assert!(world.is_there("/cache/test/channels"));
    assert!(world.is_there("/cache/test/flakes"));
    let sources = Sources::new(CACHE, "test");
    assert_eq!(sources.channels_path, "/cache/test/channels");
    assert_eq!(sources.flakes_path, "/cache/test/flakes");
}

#[test]
fn test_sources_has_channel() {
    let mut world = World::new();
    let sources = Sources::new(CACHE, "test");
    world.files.insert("/cache/test/channels/nixpkgs".to_string(), "fake".to_string());
    assert!(world.is_there(&exists_path(sources.has_channel("nixpkgs"))));
    assert!(!world.is_there(&exists_path(sources.has_channel("unstable"))));
}

#[test]
fn test_sources_has_flake() {
    let mut world = World::new();
    let sources = Sources::new(CACHE, "test");
    world.files.insert("/cache/test/flakes/nixpkgs".to_string(), "fake".to_string());
    assert!(world.is_there(&exists_path(sources.has_flake("nixpkgs"))));
    assert!(!world.is_there(&exists_path(sources.has_flake("home-manager"))));
    let pkg_ref = PackageRef::Flake { source: "nixpkgs".to_string(), attr: "x".to_string() };
    assert!(world.is_there(&exists_path(sources.has(&pkg_ref))));
}

#[test]
fn test_sources_remove_channel() {
    let mut world = World::new();
    let sources = Sources::new(CACHE, "test");
    let channel_path = "/cache/test/channels/nixpkgs";
    world.files.insert(channel_path.to_string(), "fake".to_string());
    assert!(world.is_there(channel_path));

    world.perform(sources.remove_channel("nixpkgs"));
    assert!(!world.is_there(channel_path));
}

#[test]
fn test_sources_remove_flake() {
    let mut world = World::new();
    let sources = Sources::new(CACHE, "test");
    let flake_path = "/cache/test/flakes/nixpkgs";
    world.files.insert(flake_path.to_string(), "fake".to_string());
    assert!(world.is_there(flake_path));

    world.perform(sources.remove_flake("nixpkgs"));
    assert!(!world.is_there(flake_path));
}

#[test]
fn test_sources_list_roots() {
    let mut world = World::new();
    let sources = Sources::new(CACHE, "test");
    for path in ["test/channels/nixpkgs", "test/channels/unstable", "test/flakes/home-manager"] {
        world.files.insert(format!("{}/{}", CACHE, path), "fake".to_string());
    }

    match world.perform(sources.list_channel_roots()) {
        Some(Reply::Names(channel_roots)) => assert_eq!(channel_roots.len(), 2),
        _ => unreachable!(),
    }
    match world.perform(sources.list_flake_roots()) {
        Some(Reply::Names(flake_roots)) => assert_eq!(flake_roots.len(), 1),
        _ => unreachable!(),
    }
}

#[test]
fn test_sources_get_nix_path() {
    let sources = Sources::new(CACHE, "test");

    let mut storage = Storage::new(CONFIG, "test", EnvFile::Missing);
    storage.add("nixpkgs.git");
    storage.add("unstable.firefox");

    let nix_path = sources.get_nix_path(&storage);
    assert!(nix_path.contains("nixpkgs="));
    assert!(nix_path.contains("unstable="));
    assert_eq!(
        nix_path,
        "nixpkgs=/cache/test/channels/nixpkgs:unstable=/cache/test/channels/unstable"
    );
}

#[test]
fn test_generate_nix_channels_only() {
    let mut storage = Storage::new(CONFIG, "test", EnvFile::Missing);
    storage.add("nixpkgs.git");
    storage.add("nixpkgs.curl");

    let nix = generate_nix("test", &storage, &Vec::new(), "/nix/store/fake-nixpkgs");

    assert!(nix.contains("pkgs = import /nix/store/fake-nixpkgs {};"));
    assert!(nix.contains("_channel_nixpkgs = import <nixpkgs> {};"));
    assert!(nix.contains("(_channel_nixpkgs.curl)"));
    assert!(nix.contains("(_channel_nixpkgs.git)"));
    assert!(nix.contains("fhs-test"));
}

#[test]
fn test_generate_nix_with_flakes() {
    let mut storage = Storage::new(CONFIG, "test", EnvFile::Missing);
    storage.add("nixpkgs.git");
    storage.add("myflake#hello");

    let sources = Sources::new(CACHE, "test");
    let mut world = World::new();
    world.links.insert("/cache/test/flakes/myflake".to_string(), "/flake".to_string());
    let links: Vec<String> =
        sources.get_flake_paths(&storage).iter().map(|(_, path)| world.links[path].clone()).collect();

    let nix = generate_nix("test", &storage, &links, "/nix/store/fake-nixpkgs");

    assert!(nix.contains("pkgs = import /nix/store/fake-nixpkgs {};"));
    assert!(nix.contains("_channel_nixpkgs = import <nixpkgs> {};"));
    assert!(nix.contains("_flake_myflake = (let flake "));
    assert!(nix.contains("(_channel_nixpkgs.git)"));
    assert!(nix.contains("(_flake_myflake.hello)"));
}

#[test]
fn the_generated_expression_is_exactly_this() {
    let storage =
        Storage::new(CONFIG, "e", EnvFile::Text("a.x\nb#y.z".to_string()));
    let nix = generate_nix("e", &storage, &words(&["/flake"]), "/g");
    let expected = "let
  pkgs = import /g {};
  _channel_a = import <a> {};
  _flake_b = (let flake = builtins.getFlake(\"/flake\"); in (if flake ? legacyPackages.${builtins.currentSystem} then flake.legacyPackages.${builtins.currentSystem} else flake.packages.${builtins.currentSystem}));
in
(pkgs.buildFHSEnv {
  name = \"fhs-e\";
  extraOutputsToInstall = [\"include\" \"dev\"];

  targetPkgs = pkgs: with pkgs; [
    (_channel_a.x)
    (_flake_b.y.z)
  ];

  multiPkgs = pkgs: with pkgs; [
  ];

  profile = ''
    export IS_FHS=1
    export FHS_ENV=\"e\"
  '';

  runScript = ''$SHELL'';
})";
    assert_eq!(nix, expected);
}

#[test]
fn an_expression_without_packages_has_empty_lines() {
    let storage = Storage::new(CONFIG, "e", EnvFile::Missing);
    let nix = generate_nix("e", &storage, &Vec::new(), "/g");
    assert!(nix.starts_with("let\n  pkgs = import /g {};\n\nin\n(pkgs.buildFHSEnv {\n"));
    assert!(nix.contains("  targetPkgs = pkgs: with pkgs; [\n\n  ];\n"));
}

#[test]
fn an_expression_with_flakes_alone_binds_them_alone() {
    let storage = Storage::new(CONFIG, "e", EnvFile::Text("b#y".to_string()));
    let nix = generate_nix("e", &storage, &words(&["/flake"]), "/g");
    assert!(nix.starts_with("let\n  pkgs = import /g {};\n  _flake_b = (let flake"));
}

#[test]
fn test_env_not_built_detection() {
    let mut world = World::new();
    let mut storage = Storage::new(CONFIG, "unbuilt", EnvFile::Missing);
    storage.add("nixpkgs.git");
    world = world.with_env("unbuilt", &storage.write());

    let site = Site::new(CACHE, CONFIG, "unbuilt", EnvFile::Text(storage.write()));
    let bin_path = exists_path(site.has_binary());
    assert_eq!(bin_path, "/cache/unbuilt/result/bin/fhs-unbuilt");
    assert!(!world.is_there(&bin_path));

    assert_eq!(world.command("unbuilt", None, true), 1);
    assert_eq!(
        world.err,
        ["Environment needs rebuild, auto-rebuild disabled\n $ fhs rebuild -e unbuilt"]
    );
    assert!(world.ran.is_empty());
}

#[test]
fn test_multiple_environments() {
    let mut world = World::new().channel_has("nixpkgs", "\"git\"").channel_has("nixpkgs", "\"curl\"");
    assert_eq!(world.command("env1", add(&["nixpkgs.git"]), true), 0);
    assert_eq!(world.command("env2", add(&["nixpkgs.curl"]), true), 0);

    let reload1 = Storage::new(CONFIG, "env1", EnvFile::Text(world.file("env1").unwrap().clone()));
    let reload2 = Storage::new(CONFIG, "env2", EnvFile::Text(world.file("env2").unwrap().clone()));

    assert!(reload1.contains("nixpkgs.git"));
    assert!(!reload1.contains("nixpkgs.curl"));

    assert!(reload2.contains("nixpkgs.curl"));
    assert!(!reload2.contains("nixpkgs.git"));

    let envs: Vec<String> =
        world.names(CONFIG).into_iter().filter(|name| name.starts_with("env.")).collect();
    assert_eq!(envs.len(), 2);
}

#[test]
fn test_interop_add_mixed() {
    let mut world = World::new()
        .flake_has("nixpkgs", "legacyPackages", "\"hello\"")
        .channel_has("nixpkgs", "\"nixVersions\".\"latest\"")
        .channel_has("nixpkgs", "\"cloud-utils\"");
    let code = world.command_aloud(
        "add-mixed",
        add(&["nixpkgs#hello", "nixpkgs.nixVersions.latest", "cloud-utils"]),
        false,
        true,
    );
    assert_eq!(code, 0);
    assert_eq!(
        world.file("add-mixed").unwrap(),
        "nixpkgs#hello\nnixpkgs.cloud-utils\nnixpkgs.nixVersions.latest"
    );
    assert_eq!(world.links["/cache/add-mixed/flakes/nixpkgs"], "/nix/store/flake-nixpkgs");
    assert_eq!(world.links["/cache/add-mixed/channels/nixpkgs"], "/nix/store/channel-nixpkgs");
    assert_eq!(world.links["/cache/global/nixpkgs"], "/nix/store/channel-nixpkgs");
    let nix = &world.files["/cache/add-mixed/default.nix"];
    assert!(nix.contains("pkgs = import /nix/store/channel-nixpkgs {};"));
    assert!(nix.contains("builtins.getFlake(\"/nix/store/flake-nixpkgs\")"));
    let build = world.ran.last().unwrap();
    assert_eq!(build.program, "nix-build");
    assert_eq!(build.args, ["/cache/add-mixed/default.nix", "-o", "/cache/add-mixed/result"]);
    assert_eq!(build.output, Output::Inherit);
    assert_eq!(build.nix_path.as_deref(), Some("nixpkgs=/cache/add-mixed/channels/nixpkgs"));
    assert_eq!(world.out, ["rebuilding add-mixed..."]);
    assert_eq!(
        world.err[..world.err.len() - 1],
        [
            "Adding source: nixpkgs",
            "Updating flake: nixpkgs",
            "Adding source: nixpkgs",
            "Updating channel: nixpkgs",
            "cloud-utils: no source prefix, trying nixpkgs.cloud-utils",
            "cloud-utils: found as nixpkgs.cloud-utils",
            "Updating global nixpkgs",
            "Using nixpkgs channel",
            "Generating nix expression",
        ]
    );
    assert!(world.err.last().unwrap().starts_with("Generated nix:\nlet\n"));
}

#[test]
fn test_interop_build_mixed() {
    let mut storage = Storage::new(CONFIG, "build-mixed", EnvFile::Missing);
    storage.add("nixpkgs.nixVersions.latest");
    storage.add("nixpkgs#hello");
    let mut world = World::new().with_env("build-mixed", &storage.write());

    assert_eq!(world.command_aloud("build-mixed", Some(Commands::Rebuild), false, true), 0);
    assert!(world.is_there("/cache/build-mixed/result/bin/fhs-build-mixed"));
    assert!(world.files["/cache/build-mixed/default.nix"].contains("(_flake_nixpkgs.hello)"));
}

#[test]
fn test_cmd_list_empty() {
    let mut world = World::new();
    assert_eq!(world.command("default", Some(Commands::List { json: false }), false), 0);
    assert_eq!(world.command("default", Some(Commands::List { json: true }), false), 0);
    assert_eq!(
        world.out,
        ["No environments found.\n\nCreate one with:\n  $ fhs add <package>\n", "[]\n"]
    );
}

#[test]
fn test_cmd_list_with_envs() {
    let mut storage1 = Storage::new(CONFIG, "list-test1", EnvFile::Missing);
    storage1.add("nixpkgs.git");
    storage1.add("nixpkgs.curl");

    let mut storage2 = Storage::new(CONFIG, "list-test2", EnvFile::Missing);
    storage2.add("nixpkgs#hello");

    let mut world = World::new()
        .with_env("list-test1", &storage1.write())
        .with_env("list-test2", &storage2.write());
    assert_eq!(world.command("default", Some(Commands::List { json: false }), false), 0);
    assert_eq!(
        world.out[0],
        "list-test1:\n  - nixpkgs.curl\n  - nixpkgs.git\n\nlist-test2:\n  - nixpkgs#hello\n\n"
    );
    assert_eq!(world.command("default", Some(Commands::List { json: true }), false), 0);
    assert!(world.out[1].contains("\"name\": \"list-test2\""));
}

#[test]
fn a_report_changes_nothing() {
    let mut world = World::new().with_env("a", "nixpkgs.git");
    let files = world.files.clone();
    assert_eq!(world.command("a", Some(Commands::Info { json: false }), false), 0);
    assert_eq!(world.command("a", Some(Commands::List { json: false }), false), 0);
    assert_eq!(world.files, files);
    assert!(world.dirs.is_empty() && world.ran.is_empty() && world.removed.is_empty());
    assert_eq!(
        world.out[0],
        "Environment \"a\"\n\nChannels:\n - nixpkgs\n\nFlakes:\n - <empty>\n\nPackages:\n - nixpkgs.git\n"
    );
}

#[test]
fn a_missing_environment_ends_the_commands_that_need_it() {
    for command in [
        Some(Commands::Rebuild),
        update(false, false),
        Some(Commands::Info { json: true }),
        Some(Commands::Enter { name: None }),
        None,
    ] {
        let mut world = World::new();
        assert_eq!(world.command("x", command, false), 1);
        assert_eq!(
            world.err,
            ["Environment \"x\" does not exist, please create it by adding packages\n $ fhs add -e x <package>"]
        );
        assert!(world.ran.is_empty() && world.out.is_empty() && world.files.is_empty());
    }
}

#[test]
fn a_package_that_is_nowhere_is_an_error_but_the_others_come_in() {
    let mut world = World::new().channel_has("nixpkgs", "\"git\"");
    let code = world.command("e", add(&["nope", "nixpkgs.git", "nixpkgs.no"]), false);
    assert_eq!(code, 1);
    assert_eq!(world.file("e").unwrap(), "nixpkgs.git");
    assert_eq!(
        world.err,
        [
            "nope: does not exist or fails to evaluate",
            "nixpkgs.no: does not exist or fails to evaluate",
        ]
    );
    assert!(world.is_there("/cache/e/result/bin/fhs-e"));
}

#[test]
fn a_bare_package_is_searched_in_the_channel_and_then_in_the_flake() {
    let mut world = World::new().flake_has("nixpkgs", "packages", "\"hello\"");
    assert_eq!(world.command_aloud("e", add(&["hello"]), true, true), 0);
    assert_eq!(world.file("e").unwrap(), "nixpkgs#hello");
    assert_eq!(
        world.err,
        [
            "hello: no source prefix, trying nixpkgs.hello",
            "hello: not in channel, trying nixpkgs#hello",
            "hello: found as nixpkgs#hello",
            "Adding source: nixpkgs",
            "Updating flake: nixpkgs",
        ]
    );
}

#[test]
fn a_bare_package_is_not_searched_in_a_flake_where_there_are_none() {
    let mut world = World::new().flake_has("nixpkgs", "packages", "\"hello\"");
    world.no_flakes = true;
    assert_eq!(world.command_aloud("e", add(&["hello"]), true, true), 1);
    assert_eq!(world.file("e").unwrap(), "");
    assert_eq!(
        world.err[2..],
        [
            "flake check failed: flakes are not enabled",
            "hello: does not exist or fails to evaluate",
        ]
    );
}

#[test]
fn a_source_that_cannot_be_fetched_is_an_error() {
    let mut world = World::new().channel_has("other", "\"x\"");
    assert_eq!(world.command("e", add(&["other.x", "nixpkgs#y"]), true), 1);
    assert_eq!(
        world.err,
        [
            "other.x: failed to add source: nix: error: not found",
            "nixpkgs#y: does not exist or fails to evaluate",
        ]
    );
    let mut world = World::new();
    world.failing.insert("nix-store".to_string());
    assert_eq!(world.command("e", add(&["nixpkgs.x", "nixpkgs#y"]), true), 1);
    assert_eq!(
        world.err,
        [
            "nixpkgs.x: failed to add source: Failed to update channel nixpkgs: no luck",
            "nixpkgs#y: failed to add source: Failed to update flake nixpkgs: no luck",
        ]
    );
    let mut world = World::new();
    world.no_flakes = true;
    world.absent.insert("nix-store".to_string());
    assert_eq!(world.command("e", add(&["nixpkgs.x", "nixpkgs#y"]), true), 1);
    assert_eq!(
        world.err,
        [
            "nixpkgs.x: failed to add source: Failed to spawn nix-store",
            "nixpkgs#y: failed to add source: Flakes are not enabled in your nix installation",
        ]
    );
}

#[test]
fn nix_that_cannot_be_started_finds_no_package() {
    let mut world = World::new();
    world.absent.insert("nix".to_string());
    assert_eq!(world.command_aloud("e", add(&["git", "nixpkgs.x"]), true, true), 1);
    assert_eq!(
        world.err,
        [
            "git: no source prefix, trying nixpkgs.git",
            "channel check failed: Failed to spawn nix",
            "git: not in channel, trying nixpkgs#git",
            "flake check failed: flakes are not enabled",
            "git: does not exist or fails to evaluate",
            "Adding source: nixpkgs",
            "Updating channel: nixpkgs",
            "nixpkgs.x: failed to add source: Failed to spawn nix",
        ]
    );
}

#[test]
fn packages_are_asked_for_with_these_expressions() {
    let mut world = World::new();
    world.links.insert("/cache/e/flakes/f".to_string(), "/f".to_string());
    world = world.with_env("e", "f#old");
    assert_eq!(world.command("e", add(&["f#a.b"]), true), 1);
    let asked: Vec<Vec<String>> = world.ran.iter().map(|i| i.args.clone()).collect();
    assert_eq!(
        asked,
        [
            words(&["flake", "--help"]),
            words(&["eval", "--impure", "--expr", "(let f = builtins.getFlake \"f\"; in f.legacyPackages.${builtins.currentSystem} ? \"a\".\"b\")"]),
            words(&["eval", "--impure", "--expr", "(let f = builtins.getFlake \"f\"; in f.packages.${builtins.currentSystem} ? \"a\".\"b\")"]),
        ]
    );
    assert_eq!(world.ran[0].output, Output::Discard);
    assert_eq!(world.ran[1].output, Output::Capture);
    assert!(world.ran[1].nix_path.is_none());
}

#[test]
fn removed_packages_are_gone_and_so_are_the_roots_that_nothing_needs() {
    let mut world = World::new().with_env("e", "nixpkgs#hello\nnixpkgs.git\nother.x");
    for path in ["channels/nixpkgs", "channels/other", "flakes/nixpkgs", "flakes/stale"] {
        world.links.insert(format!("/cache/e/{}", path), "/nix/store/x".to_string());
    }
    let code = world.command_aloud("e", rm(&["hello", "other.x", "gone"]), true, true);
    assert_eq!(code, 0);
    assert_eq!(world.file("e").unwrap(), "nixpkgs.git");
    assert_eq!(
        world.removed,
        ["/cache/e/channels/other", "/cache/e/flakes/nixpkgs", "/cache/e/flakes/stale"]
    );
    assert!(world.ran.is_empty());
    assert_eq!(world.out, ["gone: not installed"]);
    assert_eq!(
        world.err,
        [
            "Removing: nixpkgs#hello",
            "Removing: other.x",
            "GC channel: other",
            "GC flake: nixpkgs",
            "GC flake: stale",
        ]
    );
}

#[test]
fn what_was_added_by_a_bare_name_is_removed_by_it() {
    let mut world = World::new().channel_has("nixpkgs", "\"git\"").with_env("e", "nixpkgs.curl");
    assert_eq!(world.command("e", add(&["git"]), true), 0);
    assert_eq!(world.file("e").unwrap(), "nixpkgs.curl\nnixpkgs.git");
    assert_eq!(world.command("e", rm(&["git"]), true), 0);
    assert_eq!(world.file("e").unwrap(), "nixpkgs.curl");
}

#[test]
fn an_environment_is_updated_with_all_its_sources() {
    let mut world = World::new().with_env("e", "nixpkgs.git\nnixpkgs#hello");
    world.links.insert("/cache/e/channels/nixpkgs".to_string(), "/nix/store/old".to_string());
    world.links.insert("/cache/e/flakes/nixpkgs".to_string(), "/nix/store/old".to_string());
    assert_eq!(world.command("e", update(true, false), true), 0);
    assert_eq!(world.out, ["Fetching channels...", "Updating environment: e"]);
    assert_eq!(world.ran[0].program, "nix-channel");
    assert_eq!(world.ran[0].args, ["--update", "-vv"]);
    assert_eq!(world.removed, ["/cache/e/channels/nixpkgs", "/cache/e/flakes/nixpkgs"]);
    assert_eq!(world.links["/cache/e/channels/nixpkgs"], "/nix/store/channel-nixpkgs");
    assert_eq!(world.links["/cache/e/flakes/nixpkgs"], "/nix/store/flake-nixpkgs");
    assert!(!world.programs().contains(&"nix-build"));
}

#[test]
fn all_environments_are_updated_one_behind_the_other() {
    let mut world = World::new().with_env("a", "nixpkgs.git").with_env("b", "").with_env("c", "nixpkgs.x");
    assert_eq!(world.command("default", update(false, true), false), 0);
    assert_eq!(
        world.out,
        [
            "Updating environment: a",
            "rebuilding a...",
            "Updating environment: b",
            "rebuilding b...",
            "Updating environment: c",
            "rebuilding c...",
        ]
    );
}

#[test]
fn no_environments_are_updated_where_there_are_none() {
    let mut world = World::new();
    assert_eq!(world.command("default", update(false, true), false), 0);
    assert!(world.out.is_empty() && world.err.is_empty());
    assert!(world.dirs.contains("/cache/global"));
}

#[test]
fn channels_that_cannot_be_fetched_stop_an_update_only_where_nothing_starts() {
    let mut world = World::new().with_env("e", "");
    world.failing.insert("nix-channel".to_string());
    assert_eq!(world.command("e", update(true, false), true), 0);
    let mut world = World::new().with_env("e", "");
    world.absent.insert("nix-channel".to_string());
    assert_eq!(world.command("e", update(true, false), true), 1);
    assert_eq!(world.err, ["Error: Failed to spawn nix-channel"]);
    assert!(world.dirs.is_empty());
}

#[test]
fn a_source_that_fails_stops_an_update() {
    let mut world = World::new().with_env("e", "other.x\nzzz#y");
    assert_eq!(world.command("e", update(false, false), false), 1);
    assert_eq!(world.err, ["Error: nix: error: not found"]);
    assert!(world.out.is_empty());
}

#[test]
fn the_global_nixpkgs_is_updated_from_the_channel_or_the_flake() {
    let mut world = World::new();
    assert_eq!(world.command_aloud("default", Some(Commands::UpdateGlobal), false, true), 0);
    assert_eq!(world.links["/cache/global/nixpkgs"], "/nix/store/channel-nixpkgs");
    assert_eq!(world.out, ["Global nixpkgs updated successfully."]);
    assert_eq!(world.err, ["Updating global nixpkgs", "Using nixpkgs channel"]);

    world.channels.clear();
    world.err.clear();
    assert_eq!(world.command_aloud("default", Some(Commands::UpdateGlobal), false, true), 0);
    assert_eq!(world.links["/cache/global/nixpkgs"], "/nix/store/flake-nixpkgs");
    assert_eq!(world.err, ["Updating global nixpkgs", "Channel not found, trying nixpkgs flake"]);

    world.flakes.clear();
    world.err.clear();
    assert_eq!(world.command("default", Some(Commands::UpdateGlobal), false), 1);
    assert_eq!(world.err, ["Error: Failed to resolve nixpkgs from both channel and flake"]);

    let mut world = World::new();
    world.failing.insert("nix-store".to_string());
    assert_eq!(world.command("default", Some(Commands::UpdateGlobal), false), 1);
    assert_eq!(world.err, ["Error: Failed to update global nixpkgs: no luck"]);
}

#[test]
fn the_global_nixpkgs_is_where_it_is_kept() {
    let global = GlobalSources::new(CACHE);
    assert_eq!(global.nixpkgs_path(), "/cache/global/nixpkgs");
    assert_eq!(exists_path(global.has_nixpkgs()), "/cache/global/nixpkgs");
    assert!(global.ensure_nixpkgs(true).is_none());
    assert!(global.ensure_nixpkgs(false).is_some());
}

#[test]
fn an_environment_is_entered() {
    let mut world = World::new().with_env("headers", "nixpkgs.zlib");
    world.files.insert("/cache/headers/result/bin/fhs-headers".to_string(), "built".to_string());
    for (env, command) in [
        ("headers", None),
        ("headers", Some(Commands::Enter { name: None })),
        ("default", Some(Commands::Enter { name: Some("headers".to_string()) })),
    ] {
        world.entered = None;
        assert_eq!(world.command(env, command, false), 0);
        assert_eq!(
            world.entered,
            Some((
                "/cache/headers/result/bin/fhs-headers".to_string(),
                "nixpkgs=/cache/headers/channels/nixpkgs".to_string(),
                "headers".to_string(),
            ))
        );
    }
    assert!(world.ran.is_empty());
}

#[test]
fn an_environment_that_is_not_built_is_built_before_it_is_entered() {
    let mut world = World::new().with_env("e", "nixpkgs.zlib");
    assert_eq!(world.command("e", None, false), 0);
    assert!(world.entered.is_some());
    assert_eq!(world.programs(), ["nix", "nix-store", "nix", "nix-store", "nix-build"]);
}

#[test]
fn an_environment_that_cannot_be_entered_is_a_failure() {
    let mut world = World::new().with_env("e", "");
    world.absent.insert("/cache/e/result/bin/fhs-e".to_string());
    assert_eq!(world.command("e", None, false), 1);
    assert_eq!(world.err, ["Error: Failed to exec: No such file"]);
}

#[test]
fn a_build_that_fails_is_a_failure() {
    let mut world = World::new().with_env("e", "");
    world.failing.insert("nix-build".to_string());
    assert_eq!(world.command("e", Some(Commands::Rebuild), false), 1);
    assert_eq!(world.err, ["Error: Build failed"]);
    let mut world = World::new().with_env("e", "");
    world.absent.insert("nix-build".to_string());
    assert_eq!(world.command("e", Some(Commands::Rebuild), true), 1);
    assert_eq!(world.err, ["Error: Failed to spawn nix-build"]);
}

#[test]
fn what_cannot_be_written_is_a_failure() {
    let mut world = World::new().with_env("e", "");
    world.locked.insert("/config/env.e".to_string());
    assert_eq!(world.command("e", rm(&["x"]), true), 1);
    assert_eq!(world.err, ["Error: Failed to write storage"]);

    for path in ["/config", "/cache/e/flakes", "/cache/global"] {
        let mut world = World::new().with_env("e", "");
        world.locked.insert(path.to_string());
        assert_eq!(world.command("e", rm(&["x"]), true), 1);
        assert_eq!(world.err, ["Error: Permission denied (os error 13)"]);
    }
    for path in ["/cache/e", "/cache/e/default.nix"] {
        let mut world = World::new().with_env("e", "");
        world.locked.insert(path.to_string());
        assert_eq!(world.command("e", Some(Commands::Rebuild), false), 1);
        assert_eq!(world.err, ["Error: Permission denied (os error 13)"]);
    }
}

#[test]
fn a_global_nixpkgs_that_is_missing_or_leads_nowhere_is_a_failure() {
    let mut world = World::new().with_env("e", "");
    world.files.insert("/cache/global/nixpkgs".to_string(), "no link".to_string());
    assert_eq!(world.command("e", Some(Commands::Rebuild), false), 1);
    assert_eq!(world.err, ["Error: Failed to resolve global nixpkgs path"]);

    let (mut session, _) = Session::start(CACHE, CONFIG, "e", Some(Commands::Rebuild), false);
    let mut world = World::new().with_env("e", "");
    let mut last = String::new();
    while let Some(request) = session.request() {
        let answer = match &request {
            Effect::Exists { path } if path == "/cache/global/nixpkgs" => Reply::Found(false),
            _ => world.perform(request).unwrap(),
        };
        let (next, said) = session.advance(answer);
        session = next;
        if let Some(notice) = said.last() {
            last = notice.text();
        }
    }
    assert_eq!(last, "Error: Global nixpkgs not initialized. Run 'fhs update-global' first.");
    assert_eq!(session.exit_code(), 1);
}

#[test]
fn nothing_is_built_against_the_will() {
    for command in [add(&["nixpkgs.git"]), rm(&["x"]), update(false, true), None] {
        let mut world = World::new().channel_has("nixpkgs", "\"git\"").with_env("e", "nixpkgs.x");
        world.command("e", command, true);
        assert!(!world.programs().contains(&"nix-build"));
    }
}

#[test]
fn a_reply_to_something_else_changes_nothing() {
    let (session, said) = Session::start(CACHE, CONFIG, "e", None, false);
    assert!(said.is_empty());
    let (session, said) = session.advance(Reply::Removed);
    assert!(said.is_empty());
    match session.request() {
        Some(Effect::ReadEnv { path }) => assert_eq!(path, "/config/env.e"),
        _ => unreachable!(),
    }
}

#[test]
fn a_command_that_has_ended_asks_for_nothing_more() {
    let (session, _) = Session::start(CACHE, CONFIG, "e", None, false);
    let (session, said) = session.advance(Reply::File(EnvFile::Missing));
    assert_eq!(said.len(), 1);
    assert!(session.request().is_none());
    let (session, said) = session.advance(Reply::File(EnvFile::Missing));
    assert!(said.is_empty());
    assert!(session.request().is_none());
    assert_eq!(session.exit_code(), 1);
}

#[test]
fn a_root_that_is_gone_is_not_removed() {
    let mut world = World::new().with_env("e", "");
    let (mut session, _) = Session::start(CACHE, CONFIG, "e", rm(&["x"]), true);
    let mut looked_for = Vec::new();
    while let Some(request) = session.request() {
        let answer = match &request {
            Effect::ListDir { path } if path == "/cache/e/flakes" => Reply::Names(words(&["a", "b"])),
            Effect::Exists { path } => {
                looked_for.push(path.clone());
                Reply::Found(path == "/cache/e/flakes/b")
            },
            _ => world.perform(request).unwrap(),
        };
        session = session.advance(answer).0;
    }
    assert_eq!(looked_for, ["/cache/e/flakes/a", "/cache/e/flakes/b"]);
    assert_eq!(world.removed, ["/cache/e/flakes/b"]);
    assert_eq!(session.exit_code(), 0);
}

#[test]
fn environments_share_no_root() {
    let a = Sources::new(CACHE, "a");
    let b = Sources::new(CACHE, "b");
    assert_eq!(a.channel_root("nixpkgs"), "/cache/a/channels/nixpkgs");
    assert_ne!(a.channel_root("nixpkgs"), b.channel_root("nixpkgs"));
    assert_ne!(a.flake_root("nixpkgs"), b.flake_root("nixpkgs"));
    assert_ne!(a.channel_root("nixpkgs"), a.flake_root("nixpkgs"));
}

#[test]
fn a_source_that_is_named_by_an_absolute_path_has_its_root_there() {
    assert_eq!(Sources::new(CACHE, "a").flake_root("/flake"), "/flake");
}

#[test]
fn each_package_is_confirmed_or_left_out_in_its_turn() {
    let mut world = World::new()
        .with_env("e", "nixpkgs.old")
        .channel_has("nixpkgs", "\"git\"")
        .flake_has("nixpkgs", "legacyPackages", "\"hello\"")
        .channel_has("gone", "\"x\"");
    let code = world.command("e", add(&["hello", "gone.x", "nixpkgs.git", "none", "git"]), true);
    assert_eq!(code, 1);
    assert_eq!(world.file("e").unwrap(), "nixpkgs#hello\nnixpkgs.git\nnixpkgs.old");
    assert_eq!(
        world.err,
        [
            "gone.x: failed to add source: nix: error: not found",
            "none: does not exist or fails to evaluate",
        ]
    );
    assert_eq!(world.command("e", add(&["git"]), true), 0);
}
