//! The sources of packages on disk: channels, flakes and the global nixpkgs.

use crate::effect::{Effect, Request, RequestView};
use crate::package;
use crate::package::PackageRef;
use crate::paths;
use crate::storage;
use crate::storage::Storage;
use crate::text;
use crate::update::{SourceUpdate, Target};
use vstd::prelude::*;
use vstd::string::*;

verus! {

/// Where the roots of an environment's channels and flakes are kept.
pub struct Sources {
    pub channels_path: String,
    pub flakes_path: String,
}

/// What is known of where roots are kept.
pub struct SourcesView {
    pub channels_path: Seq<char>,
    pub flakes_path: Seq<char>,
}

impl View for Sources {
    type V = SourcesView;

    open spec fn view(&self) -> SourcesView {
        SourcesView { channels_path: self.channels_path@, flakes_path: self.flakes_path@ }
    }
}

/// The source that a package comes from.
pub open spec fn target_of(p: package::PackageRefView) -> Target<Seq<char>> {
    match p {
        package::PackageRefView::Channel { source, .. } => Target::Channel { name: source },
        package::PackageRefView::Flake { source, .. } => Target::Flake { name: source },
    }
}

impl SourcesView {
    /// The sources of environment `env`.
    pub open spec fn of_env(cache_dir: Seq<char>, env: Seq<char>) -> SourcesView {
        let base = paths::joined_path(cache_dir, env);
        SourcesView {
            channels_path: paths::joined_path(base, "channels"@),
            flakes_path: paths::joined_path(base, "flakes"@),
        }
    }

    /// The path of a channel's root.
    pub open spec fn channel_root(self, name: Seq<char>) -> Seq<char> {
        paths::joined_path(self.channels_path, name)
    }

    /// The path of a flake's root.
    pub open spec fn flake_root(self, name: Seq<char>) -> Seq<char> {
        paths::joined_path(self.flakes_path, name)
    }

    /// The path of the root of the source that a package comes from.
    pub open spec fn root_of(self, p: package::PackageRefView) -> Seq<char> {
        match p {
            package::PackageRefView::Channel { source, .. } => self.channel_root(source),
            package::PackageRefView::Flake { source, .. } => self.flake_root(source),
        }
    }

    /// How a channel is listed in `NIX_PATH`.
    pub open spec fn nix_path_entry(self, channel: Seq<char>) -> Seq<char> {
        channel + "="@ + self.channel_root(channel)
    }

    /// The value of `NIX_PATH` for a list of packages: their channels, each with
    /// its root.
    pub open spec fn nix_path(self, packages: Seq<Seq<char>>) -> Seq<char> {
        text::joined(
            storage::channels_of(packages).map_values(|c: Seq<char>| self.nix_path_entry(c)),
            ":"@,
        )
    }
}

impl Sources {
    /// The sources of environment `env`. Their two directories are to be made.
    pub fn new(cache_dir: &str, env: &str) -> (r: Sources)
        ensures
            r@ == SourcesView::of_env(cache_dir@, env@),
    {
        let base = paths::join_path(cache_dir, env);
        Sources {
            channels_path: paths::join_path(base.as_str(), "channels"),
            flakes_path: paths::join_path(base.as_str(), "flakes"),
        }
    }

    /// The path of a channel's root.
    pub fn channel_root(&self, name: &str) -> (r: String)
        ensures
            r@ == self@.channel_root(name@),
    {
        paths::join_path(self.channels_path.as_str(), name)
    }

    /// The path of a flake's root.
    pub fn flake_root(&self, name: &str) -> (r: String)
        ensures
            r@ == self@.flake_root(name@),
    {
        paths::join_path(self.flakes_path.as_str(), name)
    }

    /// Asks whether the root of a channel is there.
    pub fn has_channel(&self, name: &str) -> (r: Request)
        ensures
            r@ == (RequestView::Exists { path: self@.channel_root(name@) }),
    {
        Effect::Exists { path: self.channel_root(name) }
    }

    /// Asks whether the root of a flake is there.
    pub fn has_flake(&self, name: &str) -> (r: Request)
        ensures
            r@ == (RequestView::Exists { path: self@.flake_root(name@) }),
    {
        Effect::Exists { path: self.flake_root(name) }
    }

    /// Asks whether the root of a package's source is there.
    pub fn has(&self, pkg_ref: &PackageRef) -> (r: Request)
        ensures
            r@ == (RequestView::Exists { path: self@.root_of(pkg_ref@) }),
    {
        match pkg_ref {
            PackageRef::Channel { source, .. } => self.has_channel(source.as_str()),
            PackageRef::Flake { source, .. } => self.has_flake(source.as_str()),
        }
    }

    /// Begins to fetch a channel.
    pub fn update_channel(&self, name: &str) -> (r: SourceUpdate<String>)
        ensures
            r@ == SourceUpdate::begun(
                Target::Channel { name: name@ },
                self@.channel_root(name@),
            ),
    {
        SourceUpdate::begin(Target::Channel { name: name.to_owned() }, self.channel_root(name))
    }

    /// Begins to fetch a flake.
    pub fn update_flake(&self, name: &str) -> (r: SourceUpdate<String>)
        ensures
            r@ == SourceUpdate::begun(Target::Flake { name: name@ }, self@.flake_root(name@)),
    {
        SourceUpdate::begin(Target::Flake { name: name.to_owned() }, self.flake_root(name))
    }

    /// Begins to fetch the source of a package.
    pub fn update_source(&self, pkg_ref: &PackageRef) -> (r: SourceUpdate<String>)
        ensures
            r@ == SourceUpdate::begun(target_of(pkg_ref@), self@.root_of(pkg_ref@)),
    {
        match pkg_ref {
            PackageRef::Channel { source, .. } => self.update_channel(source.as_str()),
            PackageRef::Flake { source, .. } => self.update_flake(source.as_str()),
        }
    }

    /// Asks to remove the root of a channel.
    pub fn remove_channel(&self, name: &str) -> (r: Request)
        ensures
            r@ == (RequestView::RemoveFile { path: self@.channel_root(name@) }),
    {
        Effect::RemoveFile { path: self.channel_root(name) }
    }

    /// Asks to remove the root of a flake.
    pub fn remove_flake(&self, name: &str) -> (r: Request)
        ensures
            r@ == (RequestView::RemoveFile { path: self@.flake_root(name@) }),
    {
        Effect::RemoveFile { path: self.flake_root(name) }
    }

    /// Asks for the channels that have a root on disk.
    pub fn list_channel_roots(&self) -> (r: Request)
        ensures
            r@ == (RequestView::ListDir { path: self@.channels_path }),
    {
        Effect::ListDir { path: self.channels_path.clone() }
    }

    /// Asks for the flakes that have a root on disk.
    pub fn list_flake_roots(&self) -> (r: Request)
        ensures
            r@ == (RequestView::ListDir { path: self@.flakes_path }),
    {
        Effect::ListDir { path: self.flakes_path.clone() }
    }

    /// The value of `NIX_PATH` for a storage.
    pub fn get_nix_path(&self, storage: &Storage) -> (r: String)
        ensures
            r@ == self@.nix_path(storage@.packages),
    {
        let channels = storage.list_channels();
        let mut out: Vec<String> = Vec::new();
        let mut i: usize = 0;
        let ghost all = text::texts(channels@);
        while i < channels.len()
            invariant
                i <= channels@.len(),
                out@.len() == i,
                all == text::texts(channels@),
                forall|j: int|
                    0 <= j < i ==> #[trigger] out@[j]@ == self@.nix_path_entry(all[j]),
            decreases channels@.len() - i,
        {
            let channel = channels[i].as_str();
            let root = self.channel_root(channel);
            out.push(channel.to_owned().concat("=").concat(root.as_str()));
            i = i + 1;
        }
        assert(text::texts(out@) =~= all.map_values(|c: Seq<char>| self@.nix_path_entry(c)));
        text::join(&out, ":")
    }

    /// The flakes that a storage needs, each with the path of its root.
    pub fn get_flake_paths(&self, storage: &Storage) -> (r: Vec<(String, String)>)
        ensures
            r@.len() == storage::flakes_of(storage@.packages).len(),
            forall|i: int|
                0 <= i < r@.len() ==> (#[trigger] r@[i]).0@ == storage::flakes_of(
                    storage@.packages,
                )[i] && r@[i].1@ == self@.flake_root(storage::flakes_of(storage@.packages)[i]),
    {
        let flakes = storage.list_flakes();
        let mut out: Vec<(String, String)> = Vec::new();
        let mut i: usize = 0;
        let ghost all = text::texts(flakes@);
        while i < flakes.len()
            invariant
                i <= flakes@.len(),
                out@.len() == i,
                all == text::texts(flakes@),
                forall|j: int|
                    0 <= j < i ==> (#[trigger] out@[j]).0@ == all[j] && out@[j].1@
                        == self@.flake_root(all[j]),
            decreases flakes@.len() - i,
        {
            let flake = flakes[i].as_str();
            out.push((flake.to_owned(), self.flake_root(flake)));
            i = i + 1;
        }
        out
    }
}

/// Where the root of the global nixpkgs is kept.
pub struct GlobalSources {
    pub path: String,
}

/// What is known of where the global nixpkgs is kept.
pub struct GlobalSourcesView {
    pub path: Seq<char>,
}

impl View for GlobalSources {
    type V = GlobalSourcesView;

    open spec fn view(&self) -> GlobalSourcesView {
        GlobalSourcesView { path: self.path@ }
    }
}

impl GlobalSourcesView {
    /// The global sources of the tool.
    pub open spec fn of_cache(cache_dir: Seq<char>) -> GlobalSourcesView {
        GlobalSourcesView { path: paths::joined_path(cache_dir, "global"@) }
    }

    /// The path of the root of the global nixpkgs.
    pub open spec fn nixpkgs_root(self) -> Seq<char> {
        paths::joined_path(self.path, "nixpkgs"@)
    }

    /// The fetching of the global nixpkgs, before anything was done.
    pub open spec fn update(self) -> SourceUpdate<Seq<char>> {
        SourceUpdate::begun(Target::Nixpkgs, self.nixpkgs_root())
    }
}

impl GlobalSources {
    /// The global sources of the tool. Their directory is to be made.
    pub fn new(cache_dir: &str) -> (r: GlobalSources)
        ensures
            r@ == GlobalSourcesView::of_cache(cache_dir@),
    {
        GlobalSources { path: paths::join_path(cache_dir, "global") }
    }

    /// The path of the root of the global nixpkgs.
    pub fn nixpkgs_path(&self) -> (r: String)
        ensures
            r@ == self@.nixpkgs_root(),
    {
        paths::join_path(self.path.as_str(), "nixpkgs")
    }

    /// Asks whether the root of the global nixpkgs is there.
    pub fn has_nixpkgs(&self) -> (r: Request)
        ensures
            r@ == (RequestView::Exists { path: self@.nixpkgs_root() }),
    {
        Effect::Exists { path: self.nixpkgs_path() }
    }

    /// Begins to fetch the global nixpkgs.
    pub fn update_nixpkgs(&self) -> (r: SourceUpdate<String>)
        ensures
            r@ == self@.update(),
    {
        SourceUpdate::begin(Target::Nixpkgs, self.nixpkgs_path())
    }

    /// Begins to fetch the global nixpkgs where it was not found.
    pub fn ensure_nixpkgs(&self, found: bool) -> (r: Option<SourceUpdate<String>>)
        ensures
            match r {
                Some(update) => !found && update@ == self@.update(),
                None => found,
            },
    {
        if found {
            None
        } else {
            Some(self.update_nixpkgs())
        }
    }
}

/// A name that is not an absolute path.
pub open spec fn is_relative(name: Seq<char>) -> bool {
    name.len() == 0 || name.first() != '/'
}

/// The root of a source lies in the directory of its environment for such roots, under
/// the name of the source, where that is not an absolute path.
pub proof fn law_roots_lie_in_their_directory(
    cache_dir: Seq<char>,
    env: Seq<char>,
    name: Seq<char>,
)
    requires
        is_relative(name),
    ensures
        ({
            let sources = SourcesView::of_env(cache_dir, env);
            &&& sources.channel_root(name) == sources.channels_path + seq!['/'] + name
            &&& sources.flake_root(name) == sources.flakes_path + seq!['/'] + name
        }),
{
    reveal_strlit("channels");
    reveal_strlit("flakes");
    let sources = SourcesView::of_env(cache_dir, env);
    assert("channels"@.last() == 's');
    assert("flakes"@.last() == 's');
    assert(sources.channels_path.last() == 's');
    assert(sources.flakes_path.last() == 's');
}

/// The path of a directory of an environment, taken apart.
proof fn lemma_dir_parts(cache_dir: Seq<char>, env: Seq<char>, name: Seq<char>, k: int)
    requires
        !env.contains('/'),
        env.len() > 0,
        is_relative(name),
        k == paths::joined_path(cache_dir, Seq::empty()).len(),
    ensures
        ({
            let sources = SourcesView::of_env(cache_dir, env);
            &&& sources.channel_root(name).skip(k) == env + seq!['/'] + ("channels"@ + seq!['/']
                + name)
            &&& sources.flake_root(name).skip(k) == env + seq!['/'] + ("flakes"@ + seq!['/']
                + name)
        }),
{
    law_roots_lie_in_their_directory(cache_dir, env, name);
    let sources = SourcesView::of_env(cache_dir, env);
    let base = paths::joined_path(cache_dir, env);
    reveal_strlit("channels");
    reveal_strlit("flakes");
    assert(env.contains(env[0]));
    assert(env.contains(env.last()));
    assert(base == paths::joined_path(cache_dir, Seq::empty()) + env);
    assert(base.last() == env.last());
    assert(sources.channels_path == base + seq!['/'] + "channels"@);
    assert(sources.flakes_path == base + seq!['/'] + "flakes"@);
    assert(sources.channel_root(name).skip(k) =~= env + seq!['/'] + ("channels"@ + seq!['/']
        + name));
    assert(sources.flake_root(name).skip(k) =~= env + seq!['/'] + ("flakes"@ + seq!['/'] + name));
}

/// Two texts behind names without a slash and their slash are the same only where the
/// names are.
proof fn lemma_first_slash(a: Seq<char>, x: Seq<char>, b: Seq<char>, y: Seq<char>)
    requires
        !a.contains('/'),
        !b.contains('/'),
        a + seq!['/'] + x == b + seq!['/'] + y,
    ensures
        a == b,
        x == y,
{
    text::lemma_cut_at_glued(a, '/', x);
    text::lemma_cut_at_glued(b, '/', y);
}

/// Environments share no root: the roots of two sources are the same only where the
/// environments, the kinds of source and the names of the sources are. The names of
/// the environments hold no slash and are not empty, and those of the sources are not
/// absolute paths.
pub proof fn law_environments_share_no_root(
    cache_dir: Seq<char>,
    a: Seq<char>,
    b: Seq<char>,
    name: Seq<char>,
    other: Seq<char>,
)
    requires
        !a.contains('/'),
        !b.contains('/'),
        a.len() > 0,
        b.len() > 0,
        is_relative(name),
        is_relative(other),
    ensures
        ({
            let first = SourcesView::of_env(cache_dir, a);
            let second = SourcesView::of_env(cache_dir, b);
            &&& first.channel_root(name) == second.channel_root(other) <==> a == b && name == other
            &&& first.flake_root(name) == second.flake_root(other) <==> a == b && name == other
            &&& first.channel_root(name) != second.flake_root(other)
        }),
{
    let k = paths::joined_path(cache_dir, Seq::empty()).len() as int;
    lemma_dir_parts(cache_dir, a, name, k);
    lemma_dir_parts(cache_dir, b, other, k);
    let first = SourcesView::of_env(cache_dir, a);
    let second = SourcesView::of_env(cache_dir, b);
    let c = "channels"@;
    let f = "flakes"@;
    assert(!c.contains('/') && !f.contains('/') && c != f) by {
        reveal_strlit("channels");
        reveal_strlit("flakes");
        assert(c.len() != f.len());
    }
    if first.channel_root(name) == second.channel_root(other) {
        lemma_first_slash(a, c + seq!['/'] + name, b, c + seq!['/'] + other);
        lemma_first_slash(c, name, c, other);
    }
    if first.flake_root(name) == second.flake_root(other) {
        lemma_first_slash(a, f + seq!['/'] + name, b, f + seq!['/'] + other);
        lemma_first_slash(f, name, f, other);
    }
    if first.channel_root(name) == second.flake_root(other) {
        lemma_first_slash(a, c + seq!['/'] + name, b, f + seq!['/'] + other);
        lemma_first_slash(c, name, f, other);
    }
}

} // verus!
