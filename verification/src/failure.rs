//! The ways in which a command can fail, and what is said of each.

use vstd::prelude::*;
use vstd::string::*;

verus! {

/// Why a command failed. The texts are strings in running code and sequences of
/// characters in specifications.
#[derive(Debug)]
pub enum Failure<T> {
    /// A program could not be started.
    Spawn { program: T },
    /// Nix could not resolve a source.
    Nix { detail: T },
    /// A flake was asked for where nix has no flakes.
    FlakesDisabled,
    /// The root of a channel could not be made.
    ChannelUpdate { name: T, detail: T },
    /// The root of a flake could not be made.
    FlakeUpdate { name: T, detail: T },
    /// The root of the global nixpkgs could not be made.
    GlobalUpdate { detail: T },
    /// Neither a channel nor a flake gives the global nixpkgs.
    GlobalUnresolved,
    /// There is no global nixpkgs.
    GlobalMissing,
    /// The global nixpkgs cannot be followed into the store.
    GlobalPath,
    /// The packages could not be written.
    StorageWrite,
    /// The build of an environment failed.
    Build,
    /// The environment could not be entered.
    Exec { detail: T },
    /// Anything else that the system reports.
    System { detail: T },
}

impl Failure<Seq<char>> {
    /// What is said of a failure.
    pub open spec fn said(self) -> Seq<char> {
        match self {
            Failure::Spawn { program } => "Failed to spawn "@ + program,
            Failure::Nix { detail } => "nix: "@ + detail,
            Failure::FlakesDisabled => "Flakes are not enabled in your nix installation"@,
            Failure::ChannelUpdate { name, detail } => "Failed to update channel "@ + name + ": "@
                + detail,
            Failure::FlakeUpdate { name, detail } => "Failed to update flake "@ + name + ": "@
                + detail,
            Failure::GlobalUpdate { detail } => "Failed to update global nixpkgs: "@ + detail,
            Failure::GlobalUnresolved =>
                "Failed to resolve nixpkgs from both channel and flake"@,
            Failure::GlobalMissing =>
                "Global nixpkgs not initialized. Run 'fhs update-global' first."@,
            Failure::GlobalPath => "Failed to resolve global nixpkgs path"@,
            Failure::StorageWrite => "Failed to write storage"@,
            Failure::Build => "Build failed"@,
            Failure::Exec { detail } => "Failed to exec: "@ + detail,
            Failure::System { detail } => detail,
        }
    }
}

impl View for Failure<String> {
    type V = Failure<Seq<char>>;

    open spec fn view(&self) -> Failure<Seq<char>> {
        match self {
            Failure::Spawn { program } => Failure::Spawn { program: program@ },
            Failure::Nix { detail } => Failure::Nix { detail: detail@ },
            Failure::FlakesDisabled => Failure::FlakesDisabled,
            Failure::ChannelUpdate { name, detail } => Failure::ChannelUpdate {
                name: name@,
                detail: detail@,
            },
            Failure::FlakeUpdate { name, detail } => Failure::FlakeUpdate {
                name: name@,
                detail: detail@,
            },
            Failure::GlobalUpdate { detail } => Failure::GlobalUpdate { detail: detail@ },
            Failure::GlobalUnresolved => Failure::GlobalUnresolved,
            Failure::GlobalMissing => Failure::GlobalMissing,
            Failure::GlobalPath => Failure::GlobalPath,
            Failure::StorageWrite => Failure::StorageWrite,
            Failure::Build => Failure::Build,
            Failure::Exec { detail } => Failure::Exec { detail: detail@ },
            Failure::System { detail } => Failure::System { detail: detail@ },
        }
    }
}

impl Failure<String> {
    /// What is said of this failure.
    pub fn message(&self) -> (r: String)
        ensures
            r@ == self@.said(),
    {
        match self {
            Failure::Spawn { program } => "Failed to spawn ".to_owned().concat(program.as_str()),
            Failure::Nix { detail } => "nix: ".to_owned().concat(detail.as_str()),
            Failure::FlakesDisabled =>
                "Flakes are not enabled in your nix installation".to_owned(),
            Failure::ChannelUpdate { name, detail } =>
                "Failed to update channel ".to_owned().concat(name.as_str()).concat(": ").concat(
                detail.as_str(),
            ),
            Failure::FlakeUpdate { name, detail } => "Failed to update flake ".to_owned().concat(
                name.as_str(),
            ).concat(": ").concat(detail.as_str()),
            Failure::GlobalUpdate { detail } =>
                "Failed to update global nixpkgs: ".to_owned().concat(detail.as_str()),
            Failure::GlobalUnresolved =>
                "Failed to resolve nixpkgs from both channel and flake".to_owned(),
            Failure::GlobalMissing =>
                "Global nixpkgs not initialized. Run 'fhs update-global' first.".to_owned(),
            Failure::GlobalPath => "Failed to resolve global nixpkgs path".to_owned(),
            Failure::StorageWrite => "Failed to write storage".to_owned(),
            Failure::Build => "Build failed".to_owned(),
            Failure::Exec { detail } => "Failed to exec: ".to_owned().concat(detail.as_str()),
            Failure::System { detail } => detail.clone(),
        }
    }
}

} // verus!
