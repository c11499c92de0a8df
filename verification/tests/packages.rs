use nix_fhs::package::PackageRef;

fn channel(source: &str, attr: &str) -> PackageRef {
    PackageRef::Channel { source: source.to_string(), attr: attr.to_string() }
}

fn flake(source: &str, attr: &str) -> PackageRef {
    PackageRef::Flake { source: source.to_string(), attr: attr.to_string() }
}

#[test]
fn test_package_ref_parse_channel() {
    let pkg = PackageRef::parse("nixpkgs.git").unwrap();
    assert!(matches!(pkg, PackageRef::Channel { source, attr } if source == "nixpkgs" && attr == "git"));
}

#[test]
fn test_package_ref_parse_flake() {
    let pkg = PackageRef::parse("nixpkgs#hello").unwrap();
    assert!(matches!(pkg, PackageRef::Flake { source, attr } if source == "nixpkgs" && attr == "hello"));
}

#[test]
fn test_package_ref_parse_no_prefix() {
    let pkg = PackageRef::parse("git");
    assert!(pkg.is_none());
}

#[test]
fn test_package_ref_to_string() {
    let channel = PackageRef::Channel {
        source: "nixpkgs".to_string(),
        attr: "git".to_string(),
    };
    assert_eq!(channel.to_string(), "nixpkgs.git");

    let flake = PackageRef::Flake {
        source: "nixpkgs".to_string(),
        attr: "hello".to_string(),
    };
    assert_eq!(flake.to_string(), "nixpkgs#hello");
}

#[test]
fn test_package_ref_source_name() {
    let channel = PackageRef::Channel {
        source: "nixpkgs".to_string(),
        attr: "git".to_string(),
    };
    assert_eq!(channel.source_name(), "nixpkgs");

    let flake = PackageRef::Flake {
        source: "home-manager".to_string(),
        attr: "home-manager".to_string(),
    };
    assert_eq!(flake.source_name(), "home-manager");
}

#[test]
fn test_package_ref_to_nix_expr() {
    let channel = PackageRef::Channel {
        source: "nixpkgs".to_string(),
        attr: "git".to_string(),
    };
    assert_eq!(channel.to_nix_expr(), "_channel_nixpkgs.git");

    let flake = PackageRef::Flake {
        source: "myflake".to_string(),
        attr: "hello".to_string(),
    };
    assert_eq!(flake.to_nix_expr(), "_flake_myflake.hello");
}

#[test]
fn a_number_sign_makes_a_flake_package_even_behind_a_dot() {
    assert_eq!(PackageRef::parse("github.com/a#b.c"), Some(flake("github.com/a", "b.c")));
    assert_eq!(PackageRef::parse("a#b#c"), Some(flake("a", "b#c")));
    assert_eq!(PackageRef::parse("a.b.c"), Some(channel("a", "b.c")));
}

#[test]
fn the_parts_of_a_reference_may_be_empty() {
    assert_eq!(PackageRef::parse("."), Some(channel("", "")));
    assert_eq!(PackageRef::parse("#"), Some(flake("", "")));
    assert_eq!(PackageRef::parse(""), None);
}

#[test]
fn a_reference_is_written_as_it_was_read() {
    for s in ["nixpkgs.git", "nixpkgs#git", "a.b#c.d", ".", "#", "ä.ö", "x#ü.ß"] {
        assert_eq!(PackageRef::parse(s).unwrap().to_string(), s);
    }
}

#[test]
fn a_legible_reference_is_read_as_it_was_written() {
    for p in [channel("nixpkgs", "nixVersions.latest"), flake("a.b", "c"), flake("", "#")] {
        assert_eq!(PackageRef::parse(&p.to_string()), Some(p.clone()));
    }
}
