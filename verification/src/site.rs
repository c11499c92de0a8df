//! An environment with all that belongs to it.

use crate::effect::{Effect, Request, RequestView};
use crate::paths;
use crate::sources::{GlobalSources, GlobalSourcesView, Sources, SourcesView};
use crate::storage::{EnvFile, Storage, StorageView};
use vstd::prelude::*;
use vstd::string::*;

verus! {

/// An environment: its packages, its sources and the directory for what is built
/// of it.
pub struct Site {
    pub env: String,
    pub cache: String,
    pub storage: Storage,
    pub sources: Sources,
    pub global: GlobalSources,
}

/// What is known of an environment.
pub struct SiteView {
    pub env: Seq<char>,
    pub cache: Seq<char>,
    pub storage: StorageView,
    pub sources: SourcesView,
    pub global: GlobalSourcesView,
}

impl View for Site {
    type V = SiteView;

    open spec fn view(&self) -> SiteView {
        SiteView {
            env: self.env@,
            cache: self.cache@,
            storage: self.storage@,
            sources: self.sources@,
            global: self.global@,
        }
    }
}

impl SiteView {
    /// Environment `env` when `file` is what was found at the path of its file.
    pub open spec fn loaded(
        cache_dir: Seq<char>,
        config_dir: Seq<char>,
        env: Seq<char>,
        file: EnvFile<Seq<char>>,
    ) -> SiteView {
        SiteView {
            env,
            cache: paths::joined_path(cache_dir, env),
            storage: StorageView::loaded(config_dir, env, file),
            sources: SourcesView::of_env(cache_dir, env),
            global: GlobalSourcesView::of_cache(cache_dir),
        }
    }

    /// The path of the generated nix expression.
    pub open spec fn nix_file(self) -> Seq<char> {
        paths::joined_path(self.cache, "default.nix"@)
    }

    /// The path of the link to what was built.
    pub open spec fn result(self) -> Seq<char> {
        paths::joined_path(self.cache, "result"@)
    }

    /// The path of the program that enters the environment.
    pub open spec fn binary(self) -> Seq<char> {
        paths::joined_path(paths::joined_path(self.result(), "bin"@), "fhs-"@ + self.env)
    }

    /// The way into the environment.
    pub open spec fn entrance(self) -> RequestView {
        Effect::Enter {
            program: self.binary(),
            nix_path: self.sources.nix_path(self.storage.packages),
            nix_dev: self.env,
        }
    }
}

impl Site {
    /// Environment `env`, from what was found at the path of its file.
    pub fn new(cache_dir: &str, config_dir: &str, env: &str, file: EnvFile<String>) -> (r: Site)
        ensures
            r@ == SiteView::loaded(cache_dir@, config_dir@, env@, file@),
    {
        Site {
            env: env.to_owned(),
            cache: paths::join_path(cache_dir, env),
            storage: Storage::new(config_dir, env, file),
            sources: Sources::new(cache_dir, env),
            global: GlobalSources::new(cache_dir),
        }
    }

    /// The path of the generated nix expression.
    pub fn nix_file(&self) -> (r: String)
        ensures
            r@ == self@.nix_file(),
    {
        paths::join_path(self.cache.as_str(), "default.nix")
    }

    /// The path of the link to what was built.
    pub fn result(&self) -> (r: String)
        ensures
            r@ == self@.result(),
    {
        paths::join_path(self.cache.as_str(), "result")
    }

    /// The path of the program that enters the environment.
    pub fn binary(&self) -> (r: String)
        ensures
            r@ == self@.binary(),
    {
        let result = self.result();
        let bin = paths::join_path(result.as_str(), "bin");
        let name = "fhs-".to_owned().concat(self.env.as_str());
        paths::join_path(bin.as_str(), name.as_str())
    }

    /// Asks whether the program that enters the environment is there.
    pub fn has_binary(&self) -> (r: Request)
        ensures
            r@ == (RequestView::Exists { path: self@.binary() }),
    {
        Effect::Exists { path: self.binary() }
    }

    /// Asks to go into the environment.
    pub fn enter(&self) -> (r: Request)
        ensures
            r@ == self@.entrance(),
    {
        Effect::Enter {
            program: self.binary(),
            nix_path: self.nix_path(),
            nix_dev: self.env.clone(),
        }
    }

    /// The value of `NIX_PATH` for the environment.
    pub fn nix_path(&self) -> (r: String)
        ensures
            r@ == self@.sources.nix_path(self@.storage.packages),
    {
        self.sources.get_nix_path(&self.storage)
    }
}

} // verus!
