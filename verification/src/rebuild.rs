//! Building an environment.

use crate::effect;
use crate::effect::{Answer, AnswerView, Effect, Reply, Request, RequestView};
use crate::failure::Failure;
use crate::nix;
use crate::notice;
use crate::notice::Notice;
use crate::process;
use crate::process::{InvocationView, Output};
use crate::site::{Site, SiteView};
use crate::storage;
use crate::text;
use crate::update::{SourceUpdate, UpdateStage};
use vstd::prelude::*;
use vstd::string::*;

verus! {

/// How far the building of an environment has come. The texts are strings in
/// running code and sequences of characters in specifications.
pub enum Rebuild<T, L> {
    /// The directory of the environment is made.
    MakeDir,
    /// The global nixpkgs may be missing.
    ProbeGlobal,
    /// The global nixpkgs is fetched.
    FetchGlobal { update: SourceUpdate<T> },
    /// The global nixpkgs must be there now.
    ProbePath,
    /// The global nixpkgs is followed into the store.
    Follow,
    /// The roots of the flakes are followed; `links` are those that were.
    Links { global: T, links: L },
    /// The nix expression is written.
    Write { content: T },
    /// The nix expression is built.
    Build,
    /// The environment was built.
    Built,
    /// The environment was not built.
    Failed { failure: Failure<T> },
}

/// The building of an environment, in running code.
pub type Builder = Rebuild<String, Vec<String>>;

/// The building of an environment, in specifications.
pub type BuilderView = Rebuild<Seq<char>, Seq<Seq<char>>>;

impl View for Rebuild<String, Vec<String>> {
    type V = BuilderView;

    open spec fn view(&self) -> BuilderView {
        match self {
            Rebuild::MakeDir => Rebuild::MakeDir,
            Rebuild::ProbeGlobal => Rebuild::ProbeGlobal,
            Rebuild::FetchGlobal { update } => Rebuild::FetchGlobal { update: update@ },
            Rebuild::ProbePath => Rebuild::ProbePath,
            Rebuild::Follow => Rebuild::Follow,
            Rebuild::Links { global, links } => Rebuild::Links {
                global: global@,
                links: text::texts(links@),
            },
            Rebuild::Write { content } => Rebuild::Write { content: content@ },
            Rebuild::Build => Rebuild::Build,
            Rebuild::Built => Rebuild::Built,
            Rebuild::Failed { failure } => Rebuild::Failed { failure: failure@ },
        }
    }
}

/// The program that builds an environment. It finds the channels in `NIX_PATH`.
pub open spec fn build_of(site: SiteView) -> InvocationView {
    InvocationView {
        program: "nix-build"@,
        args: seq![site.nix_file(), "-o"@, site.result()],
        output: Output::Inherit,
        nix_path: Some(site.sources.nix_path(site.storage.packages)),
    }
}

impl Rebuild<Seq<char>, Seq<Seq<char>>> {
    /// What is to be done next; nothing at the end.
    pub open spec fn wants(self, site: SiteView) -> Option<RequestView> {
        let flakes = storage::flakes_of(site.storage.packages);
        match self {
            Rebuild::MakeDir => Some(Effect::CreateDir { path: site.cache }),
            Rebuild::ProbeGlobal => Some(Effect::Exists { path: site.global.nixpkgs_root() }),
            Rebuild::FetchGlobal { update } => update.wants(),
            Rebuild::ProbePath => Some(Effect::Exists { path: site.global.nixpkgs_root() }),
            Rebuild::Follow => Some(Effect::Canonicalize { path: site.global.nixpkgs_root() }),
            Rebuild::Links { links, .. } => if links.len() < flakes.len() {
                Some(
                    Effect::ReadLink {
                        path: site.sources.flake_root(flakes[links.len() as int]),
                    },
                )
            } else {
                None
            },
            Rebuild::Write { content } => Some(
                Effect::WriteFile { path: site.nix_file(), content },
            ),
            Rebuild::Build => Some(Effect::Run { invocation: build_of(site) }),
            Rebuild::Built => None,
            Rebuild::Failed { .. } => None,
        }
    }

    /// The stage where some roots of flakes were followed: the expression is
    /// written once all were.
    pub open spec fn linked(
        site: SiteView,
        global: Seq<char>,
        links: Seq<Seq<char>>,
    ) -> BuilderView {
        if links.len() == storage::flakes_of(site.storage.packages).len() {
            Rebuild::Write {
                content: nix::generated(site.env, site.storage.packages, links, global),
            }
        } else {
            Rebuild::Links { global, links }
        }
    }

    /// The stage behind a reply, and what is said of it.
    pub open spec fn moved(self, site: SiteView, reply: AnswerView) -> (
        BuilderView,
        Seq<Notice<Seq<char>>>,
    ) {
        match (self, reply) {
            (Rebuild::MakeDir, Reply::Stored(None)) => (Rebuild::ProbeGlobal, seq![]),
            (Rebuild::MakeDir, Reply::Stored(Some(detail))) => (
                Rebuild::Failed { failure: Failure::System { detail } },
                seq![],
            ),
            (Rebuild::ProbeGlobal, Reply::Found(found)) => if found {
                (Rebuild::ProbePath, seq![])
            } else {
                (
                    Rebuild::FetchGlobal { update: site.global.update() },
                    seq![Notice::UpdatingGlobal],
                )
            },
            (Rebuild::FetchGlobal { update }, reply) => (
                match update.after(reply).stage {
                    UpdateStage::Updated => Rebuild::ProbePath,
                    UpdateStage::Failed { failure } => Rebuild::Failed { failure },
                    _ => Rebuild::FetchGlobal { update: update.after(reply) },
                },
                update.moved(reply).1,
            ),
            (Rebuild::ProbePath, Reply::Found(found)) => if found {
                (Rebuild::Follow, seq![])
            } else {
                (Rebuild::Failed { failure: Failure::GlobalMissing }, seq![])
            },
            (Rebuild::Follow, Reply::Canonical(Some(global))) => (
                Self::linked(site, global, seq![]),
                seq![Notice::GeneratingNix],
            ),
            (Rebuild::Follow, Reply::Canonical(None)) => (
                Rebuild::Failed { failure: Failure::GlobalPath },
                seq![],
            ),
            (Rebuild::Links { global, links }, Reply::Link(link)) => (
                Self::linked(site, global, links.push(link)),
                seq![],
            ),
            (Rebuild::Write { content }, Reply::Stored(None)) => (
                Rebuild::Build,
                seq![Notice::GeneratedNix { content }, Notice::Rebuilding { env: site.env }],
            ),
            (Rebuild::Write { .. }, Reply::Stored(Some(detail))) => (
                Rebuild::Failed { failure: Failure::System { detail } },
                seq![],
            ),
            (Rebuild::Build, Reply::Ran(None)) => (
                Rebuild::Failed { failure: Failure::Spawn { program: "nix-build"@ } },
                seq![],
            ),
            (Rebuild::Build, Reply::Ran(Some(r))) => if r.success {
                (Rebuild::Built, seq![])
            } else {
                (Rebuild::Failed { failure: Failure::Build }, seq![])
            },
            (stage, _) => (stage, seq![]),
        }
    }

    /// The stage behind a reply.
    pub open spec fn after(self, site: SiteView, reply: AnswerView) -> BuilderView {
        self.moved(site, reply).0
    }
}

/// Begins to build an environment.
pub fn rebuild() -> (r: Builder)
    ensures
        r@ == BuilderView::MakeDir,
{
    Rebuild::MakeDir
}

/// Builds an environment with `nix-build`.
fn build(site: &Site) -> (r: process::Invocation)
    ensures
        r@ == build_of(site@),
{
    let mut args: Vec<String> = Vec::new();
    args.push(site.nix_file());
    args.push("-o".to_owned());
    args.push(site.result());
    let r = process::spawn_inherit("nix-build", args, Some(site.nix_path()));
    assert(r@.args =~= build_of(site@).args);
    r
}

fn link(site: &Site, global: String, links: Vec<String>) -> (r: Builder)
    ensures
        r@ == BuilderView::linked(site@, global@, text::texts(links@)),
{
    let flakes = site.storage.list_flakes();
    assert(text::texts(flakes@).len() == flakes@.len());
    if links.len() == flakes.len() {
        Rebuild::Write {
            content: nix::generate_nix(
                site.env.as_str(),
                &site.storage,
                &links,
                global.as_str(),
            ),
        }
    } else {
        Rebuild::Links { global, links }
    }
}

impl Rebuild<String, Vec<String>> {
    /// What is to be done next.
    pub fn request(&self, site: &Site) -> (r: Option<Request>)
        ensures
            effect::request_view(r) == self@.wants(site@),
    {
        match self {
            Rebuild::MakeDir => Some(Effect::CreateDir { path: site.cache.clone() }),
            Rebuild::ProbeGlobal => Some(site.global.has_nixpkgs()),
            Rebuild::FetchGlobal { update } => update.request(),
            Rebuild::ProbePath => Some(site.global.has_nixpkgs()),
            Rebuild::Follow => Some(Effect::Canonicalize { path: site.global.nixpkgs_path() }),
            Rebuild::Links { links, .. } => {
                let paths = site.sources.get_flake_paths(&site.storage);
                if links.len() < paths.len() {
                    let path = paths[links.len()].1.clone();
                    Some(Effect::ReadLink { path })
                } else {
                    None
                }
            },
            Rebuild::Write { content } => Some(
                Effect::WriteFile { path: site.nix_file(), content: content.clone() },
            ),
            Rebuild::Build => Some(Effect::Run { invocation: build(site) }),
            Rebuild::Built => None,
            Rebuild::Failed { .. } => None,
        }
    }

    /// Goes on with a reply.
    pub fn advance(self, site: &Site, reply: Answer) -> (r: (Self, Vec<Notice<String>>))
        ensures
            r.0@ == self@.after(site@, reply@),
            notice::notices_view(r.1@) == self@.moved(site@, reply@).1,
    {
        let ghost this = self@;
        let ghost answer = reply@;
        let mut notices: Vec<Notice<String>> = Vec::new();
        let stage = match (self, reply) {
            (Rebuild::MakeDir, Reply::Stored(None)) => Rebuild::ProbeGlobal,
            (Rebuild::MakeDir, Reply::Stored(Some(detail))) => Rebuild::Failed {
                failure: Failure::System { detail },
            },
            (Rebuild::ProbeGlobal, Reply::Found(found)) => match site.global.ensure_nixpkgs(
                found,
            ) {
                None => Rebuild::ProbePath,
                Some(update) => {
                    notices.push(update.announce());
                    Rebuild::FetchGlobal { update }
                },
            },
            (Rebuild::FetchGlobal { update }, reply) => {
                let (update, said) = update.advance(reply);
                notices = said;
                let SourceUpdate { target, root, stage } = update;
                match stage {
                    UpdateStage::Updated => Rebuild::ProbePath,
                    UpdateStage::Failed { failure } => Rebuild::Failed { failure },
                    stage => Rebuild::FetchGlobal {
                        update: SourceUpdate { target, root, stage },
                    },
                }
            },
            (Rebuild::ProbePath, Reply::Found(found)) => if found {
                Rebuild::Follow
            } else {
                Rebuild::Failed { failure: Failure::GlobalMissing }
            },
            (Rebuild::Follow, Reply::Canonical(Some(global))) => {
                notices.push(Notice::GeneratingNix);
                let links: Vec<String> = Vec::new();
                assert(text::texts(links@) =~= seq![]);
                link(site, global, links)
            },
            (Rebuild::Follow, Reply::Canonical(None)) => Rebuild::Failed {
                failure: Failure::GlobalPath,
            },
            (Rebuild::Links { global, links }, Reply::Link(target)) => {
                let mut links = links;
                let ghost before = text::texts(links@);
                links.push(target);
                assert(text::texts(links@) =~= before.push(target@));
                link(site, global, links)
            },
            (Rebuild::Write { content }, Reply::Stored(None)) => {
                notices.push(Notice::GeneratedNix { content });
                notices.push(Notice::Rebuilding { env: site.env.clone() });
                Rebuild::Build
            },
            (Rebuild::Write { .. }, Reply::Stored(Some(detail))) => Rebuild::Failed {
                failure: Failure::System { detail },
            },
            (Rebuild::Build, Reply::Ran(None)) => Rebuild::Failed {
                failure: Failure::Spawn { program: "nix-build".to_owned() },
            },
            (Rebuild::Build, Reply::Ran(Some(result))) => if result.success {
                Rebuild::Built
            } else {
                Rebuild::Failed { failure: Failure::Build }
            },
            (stage, _) => stage,
        };
        assert(notice::notices_view(notices@) =~= this.moved(site@, answer).1);
        (stage, notices)
    }
}

/// The only file that is written is the nix expression of the environment, and the
/// only directory that is made is the environment's own.
pub proof fn law_rebuild_writes_one_file(stage: BuilderView, site: SiteView)
    ensures
        stage.wants(site) matches Some(Effect::WriteFile { path, .. }) ==> path
            == site.nix_file(),
        stage.wants(site) matches Some(Effect::CreateDir { path }) ==> path == site.cache,
{
}

/// What is written is the expression of the packages at hand: once the global
/// nixpkgs was followed to `global` and the roots of the flakes to `links`, the
/// expression is generated from these, and the build comes behind the writing.
pub proof fn law_rebuild_writes_what_is_generated(
    site: SiteView,
    global: Seq<char>,
    links: Seq<Seq<char>>,
)
    requires
        links.len() == storage::flakes_of(site.storage.packages).len(),
    ensures
        ({
            let followed = BuilderView::Follow.after(site, Reply::Canonical(Some(global)));
            let written = followed.linked_all(site, links);
            &&& written == (BuilderView::Write {
                content: nix::generated(site.env, site.storage.packages, links, global),
            })
            &&& written.after(site, Reply::Stored(None)) is Build
        }),
{
    let followed = BuilderView::Follow.after(site, Reply::Canonical(Some(global)));
    lemma_linked_all(site, global, seq![], links);
    assert(Seq::<Seq<char>>::empty() + links =~= links);
}

impl Rebuild<Seq<char>, Seq<Seq<char>>> {
    /// The stage once the next roots of flakes were followed to `links`.
    pub open spec fn linked_all(self, site: SiteView, links: Seq<Seq<char>>) -> BuilderView
        decreases links.len(),
    {
        if links.len() == 0 {
            self
        } else {
            self.after(site, Reply::Link(links.first())).linked_all(site, links.drop_first())
        }
    }
}

proof fn lemma_linked_all(
    site: SiteView,
    global: Seq<char>,
    done: Seq<Seq<char>>,
    links: Seq<Seq<char>>,
)
    requires
        done.len() + links.len() == storage::flakes_of(site.storage.packages).len(),
    ensures
        BuilderView::linked(site, global, done).linked_all(site, links) == BuilderView::linked(
            site,
            global,
            done + links,
        ),
    decreases links.len(),
{
    if links.len() == 0 {
        assert(done + links =~= done);
    } else {
        lemma_linked_all(site, global, done.push(links.first()), links.drop_first());
        assert(done.push(links.first()) + links.drop_first() =~= done + links);
    }
}

/// Nothing more is asked for, and nothing changes, once the environment was built
/// or failed.
pub proof fn law_rebuild_ends(stage: BuilderView, site: SiteView, reply: AnswerView)
    requires
        stage is Built || stage is Failed,
    ensures
        stage.wants(site) is None,
        stage.after(site, reply) == stage,
{
}

} // verus!
