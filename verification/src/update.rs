//! Fetching a source: resolving it and putting it under the protection of a root.

use crate::effect;
use crate::effect::{Answer, AnswerView, Effect, Reply, Request, RequestView};
use crate::failure::Failure;
use crate::notice;
use crate::notice::Notice;
use crate::process;
use crate::text;
use vstd::prelude::*;
use vstd::string::*;

verus! {

/// A source that can be fetched.
pub enum Target<T> {
    Channel { name: T },
    Flake { name: T },
    /// The nixpkgs that environments are built with, whatever their packages.
    Nixpkgs,
}

/// How far the fetching of a source has come.
pub enum UpdateStage<T> {
    /// Nix is asked whether it has flakes.
    Support,
    /// Nix is asked for the path of the source.
    Resolve,
    /// Nix is asked for the path of the flake, as it gave none of the channel.
    Fallback,
    /// The path is known; the root may be there from before.
    Probe { path: T },
    /// The root is there from before.
    Clear { path: T },
    /// The root is to be made.
    Realise { path: T },
    /// The source was fetched.
    Updated,
    /// The source was not fetched.
    Failed { failure: Failure<T> },
}

/// The fetching of a source, whose root is at the path `root`. The texts are
/// strings in running code and sequences of characters in specifications.
pub struct SourceUpdate<T> {
    pub target: Target<T>,
    pub root: T,
    pub stage: UpdateStage<T>,
}

impl View for Target<String> {
    type V = Target<Seq<char>>;

    open spec fn view(&self) -> Target<Seq<char>> {
        match self {
            Target::Channel { name } => Target::Channel { name: name@ },
            Target::Flake { name } => Target::Flake { name: name@ },
            Target::Nixpkgs => Target::Nixpkgs,
        }
    }
}

impl View for UpdateStage<String> {
    type V = UpdateStage<Seq<char>>;

    open spec fn view(&self) -> UpdateStage<Seq<char>> {
        match self {
            UpdateStage::Support => UpdateStage::Support,
            UpdateStage::Resolve => UpdateStage::Resolve,
            UpdateStage::Fallback => UpdateStage::Fallback,
            UpdateStage::Probe { path } => UpdateStage::Probe { path: path@ },
            UpdateStage::Clear { path } => UpdateStage::Clear { path: path@ },
            UpdateStage::Realise { path } => UpdateStage::Realise { path: path@ },
            UpdateStage::Updated => UpdateStage::Updated,
            UpdateStage::Failed { failure } => UpdateStage::Failed { failure: failure@ },
        }
    }
}

impl View for SourceUpdate<String> {
    type V = SourceUpdate<Seq<char>>;

    open spec fn view(&self) -> SourceUpdate<Seq<char>> {
        SourceUpdate { target: self.target@, root: self.root@, stage: self.stage@ }
    }
}

impl Target<Seq<char>> {
    /// What is said when the source is about to be fetched.
    pub open spec fn announcement(self) -> Notice<Seq<char>> {
        match self {
            Target::Channel { name } => Notice::UpdatingChannel { name },
            Target::Flake { name } => Notice::UpdatingFlake { name },
            Target::Nixpkgs => Notice::UpdatingGlobal,
        }
    }

    /// The failure of making the root.
    pub open spec fn refusal(self, detail: Seq<char>) -> Failure<Seq<char>> {
        match self {
            Target::Channel { name } => Failure::ChannelUpdate { name, detail },
            Target::Flake { name } => Failure::FlakeUpdate { name, detail },
            Target::Nixpkgs => Failure::GlobalUpdate { detail },
        }
    }

    /// The expression for the path of the source.
    pub open spec fn path_expr(self) -> Seq<char> {
        match self {
            Target::Channel { name } => process::channel_path_expr(name),
            Target::Flake { name } => process::flake_path_expr(name),
            Target::Nixpkgs => process::channel_path_expr("nixpkgs"@),
        }
    }
}

impl SourceUpdate<Seq<char>> {
    /// The fetching of a source, before anything was done. Only that of a flake
    /// depends on whether nix has flakes.
    pub open spec fn begun(target: Target<Seq<char>>, root: Seq<char>) -> Self {
        SourceUpdate {
            target,
            root,
            stage: if target is Flake {
                UpdateStage::Support
            } else {
                UpdateStage::Resolve
            },
        }
    }

    /// What is to be done next; nothing where the source was fetched or failed.
    pub open spec fn wants(self) -> Option<RequestView> {
        match self.stage {
            UpdateStage::Support => Some(Effect::Run { invocation: process::flakes_probe() }),
            UpdateStage::Resolve => Some(
                Effect::Run {
                    invocation: process::evaluation(self.target.path_expr(), true, None),
                },
            ),
            UpdateStage::Fallback => Some(
                Effect::Run {
                    invocation: process::evaluation(
                        process::flake_path_expr("nixpkgs"@),
                        true,
                        None,
                    ),
                },
            ),
            UpdateStage::Probe { .. } => Some(Effect::Exists { path: self.root }),
            UpdateStage::Clear { .. } => Some(Effect::RemoveFile { path: self.root }),
            UpdateStage::Realise { path } => Some(
                Effect::Run { invocation: process::realisation(path, self.root) },
            ),
            UpdateStage::Updated => None,
            UpdateStage::Failed { .. } => None,
        }
    }

    /// The stage behind a reply, and what is said of it. A reply to something else
    /// than what was wanted changes nothing.
    pub open spec fn moved(self, reply: AnswerView) -> (
        UpdateStage<Seq<char>>,
        Seq<Notice<Seq<char>>>,
    ) {
        match (self.stage, reply) {
            (UpdateStage::Support, Reply::Ran(ran)) => if process::succeeded(ran) {
                (UpdateStage::Resolve, seq![])
            } else {
                (UpdateStage::Failed { failure: Failure::FlakesDisabled }, seq![])
            },
            (UpdateStage::Resolve, Reply::Ran(ran)) => match (process::resolved(ran), self.target) {
                (Ok(path), Target::Nixpkgs) => (
                    UpdateStage::Probe { path },
                    seq![Notice::UsingChannel],
                ),
                (Ok(path), _) => (UpdateStage::Probe { path }, seq![]),
                (Err(_), Target::Nixpkgs) => (UpdateStage::Fallback, seq![Notice::TryingFlake]),
                (Err(failure), _) => (UpdateStage::Failed { failure }, seq![]),
            },
            (UpdateStage::Fallback, Reply::Ran(ran)) => match process::resolved(ran) {
                Ok(path) => (UpdateStage::Probe { path }, seq![]),
                Err(_) => (UpdateStage::Failed { failure: Failure::GlobalUnresolved }, seq![]),
            },
            (UpdateStage::Probe { path }, Reply::Found(found)) => if found {
                (UpdateStage::Clear { path }, seq![])
            } else {
                (UpdateStage::Realise { path }, seq![])
            },
            (UpdateStage::Clear { path }, Reply::Removed) => (
                UpdateStage::Realise { path },
                seq![],
            ),
            (UpdateStage::Realise { .. }, Reply::Ran(None)) => (
                UpdateStage::Failed { failure: Failure::Spawn { program: "nix-store"@ } },
                seq![],
            ),
            (UpdateStage::Realise { .. }, Reply::Ran(Some(r))) => if r.success {
                (UpdateStage::Updated, seq![])
            } else {
                (
                    UpdateStage::Failed {
                        failure: self.target.refusal(process::complaint(r)),
                    },
                    seq![],
                )
            },
            (stage, _) => (stage, seq![]),
        }
    }

    /// The fetching behind a reply.
    pub open spec fn after(self, reply: AnswerView) -> Self {
        SourceUpdate { stage: self.moved(reply).0, ..self }
    }

    /// The fetching behind several replies.
    pub open spec fn after_all(self, replies: Seq<AnswerView>) -> Self
        decreases replies.len(),
    {
        if replies.len() == 0 {
            self
        } else {
            self.after(replies.first()).after_all(replies.drop_first())
        }
    }
}

impl SourceUpdate<Seq<char>> {
    /// One reply more.
    pub proof fn lemma_after_all_push(self, replies: Seq<AnswerView>, reply: AnswerView)
        ensures
            self.after_all(replies.push(reply)) == self.after_all(replies).after(reply),
        decreases replies.len(),
    {
        if replies.len() == 0 {
            let one = replies.push(reply);
            assert(one.drop_first() =~= replies);
            assert(self.after(one.first()).after_all(replies) == self.after(reply));
        } else {
            self.after(replies.first()).lemma_after_all_push(replies.drop_first(), reply);
            assert(replies.push(reply).drop_first() =~= replies.drop_first().push(reply));
        }
    }
}

impl SourceUpdate<String> {
    /// Begins to fetch a source.
    pub fn begin(target: Target<String>, root: String) -> (r: Self)
        ensures
            r@ == SourceUpdate::begun(target@, root@),
    {
        let stage = match target {
            Target::Flake { .. } => UpdateStage::Support,
            _ => UpdateStage::Resolve,
        };
        SourceUpdate { target, root, stage }
    }

    /// What to say when the fetching begins.
    pub fn announce(&self) -> (r: Notice<String>)
        ensures
            r@ == self@.target.announcement(),
    {
        match &self.target {
            Target::Channel { name } => Notice::UpdatingChannel { name: name.clone() },
            Target::Flake { name } => Notice::UpdatingFlake { name: name.clone() },
            Target::Nixpkgs => Notice::UpdatingGlobal,
        }
    }

    /// What is to be done next.
    pub fn request(&self) -> (r: Option<Request>)
        ensures
            effect::request_view(r) == self@.wants(),
    {
        match &self.stage {
            UpdateStage::Support => Some(Effect::Run { invocation: process::has_flakes() }),
            UpdateStage::Resolve => Some(
                Effect::Run {
                    invocation: match &self.target {
                        Target::Channel { name } => process::resolve_channel(name.as_str()),
                        Target::Flake { name } => process::resolve_flake(name.as_str()),
                        Target::Nixpkgs => process::resolve_channel("nixpkgs"),
                    },
                },
            ),
            UpdateStage::Fallback => Some(
                Effect::Run { invocation: process::resolve_flake("nixpkgs") },
            ),
            UpdateStage::Probe { .. } => Some(Effect::Exists { path: self.root.clone() }),
            UpdateStage::Clear { .. } => Some(Effect::RemoveFile { path: self.root.clone() }),
            UpdateStage::Realise { path } => Some(
                Effect::Run { invocation: process::realise(path.as_str(), self.root.as_str()) },
            ),
            UpdateStage::Updated => None,
            UpdateStage::Failed { .. } => None,
        }
    }

    /// Goes on with a reply.
    pub fn advance(self, reply: Answer) -> (r: (Self, Vec<Notice<String>>))
        ensures
            r.0@ == self@.after(reply@),
            notice::notices_view(r.1@) == self@.moved(reply@).1,
    {
        let SourceUpdate { target, root, stage } = self;
        let mut notices: Vec<Notice<String>> = Vec::new();
        let stage = match (stage, reply) {
            (UpdateStage::Support, Reply::Ran(ran)) => if process::ran_well(&ran) {
                UpdateStage::Resolve
            } else {
                UpdateStage::Failed { failure: Failure::FlakesDisabled }
            },
            (UpdateStage::Resolve, Reply::Ran(ran)) => match (
                process::resolved_path(&ran),
                &target,
            ) {
                (Ok(path), Target::Nixpkgs) => {
                    notices.push(Notice::UsingChannel);
                    UpdateStage::Probe { path }
                },
                (Ok(path), _) => UpdateStage::Probe { path },
                (Err(_), Target::Nixpkgs) => {
                    notices.push(Notice::TryingFlake);
                    UpdateStage::Fallback
                },
                (Err(failure), _) => UpdateStage::Failed { failure },
            },
            (UpdateStage::Fallback, Reply::Ran(ran)) => match process::resolved_path(&ran) {
                Ok(path) => UpdateStage::Probe { path },
                Err(_) => UpdateStage::Failed { failure: Failure::GlobalUnresolved },
            },
            (UpdateStage::Probe { path }, Reply::Found(found)) => if found {
                UpdateStage::Clear { path }
            } else {
                UpdateStage::Realise { path }
            },
            (UpdateStage::Clear { path }, Reply::Removed) => UpdateStage::Realise { path },
            (UpdateStage::Realise { .. }, Reply::Ran(None)) => UpdateStage::Failed {
                failure: Failure::Spawn { program: "nix-store".to_owned() },
            },
            (UpdateStage::Realise { path }, Reply::Ran(Some(result))) => if result.success {
                UpdateStage::Updated
            } else {
                let detail = text::trim(result.stderr.as_str());
                UpdateStage::Failed {
                    failure: match &target {
                        Target::Channel { name } => Failure::ChannelUpdate {
                            name: name.clone(),
                            detail,
                        },
                        Target::Flake { name } => Failure::FlakeUpdate {
                            name: name.clone(),
                            detail,
                        },
                        Target::Nixpkgs => Failure::GlobalUpdate { detail },
                    },
                }
            },
            (stage, _) => stage,
        };
        assert(notice::notices_view(notices@) =~= self@.moved(reply@).1);
        (SourceUpdate { target, root, stage }, notices)
    }
}

/// What the fetching of a source asks for concerns its own root only: no other
/// path is looked at, removed or made.
pub proof fn law_update_keeps_to_its_root(update: SourceUpdate<Seq<char>>, reply: AnswerView)
    ensures
        update.after(reply).root == update.root,
        update.after(reply).target == update.target,
        update.wants() matches Some(Effect::Exists { path }) ==> path == update.root,
        update.wants() matches Some(Effect::RemoveFile { path }) ==> path == update.root,
        !(update.wants() matches Some(Effect::WriteFile { .. })),
        !(update.wants() matches Some(Effect::CreateDir { .. })),
{
}

/// A source that was fetched, or that failed, stays so.
pub proof fn law_update_ends(update: SourceUpdate<Seq<char>>, reply: AnswerView)
    requires
        update.wants() is None,
    ensures
        update.after(reply) == update,
        update.moved(reply).1.len() == 0,
{
}

/// What the fetching of a channel or flake comes to once nix was asked for its
/// path: the failure that nix gave, or the root made anew, whether there was one
/// before or not.
pub proof fn law_update_outcome(
    target: Target<Seq<char>>,
    root: Seq<char>,
    path: Option<process::SpawnView>,
    found: bool,
    made: Option<process::SpawnView>,
)
    requires
        !(target is Nixpkgs),
    ensures
        ({
            let asked = SourceUpdate { target, root, stage: UpdateStage::Resolve };
            let replies = if found {
                seq![Reply::Ran(path), Reply::Found(true), Reply::Removed, Reply::Ran(made)]
            } else {
                seq![Reply::Ran(path), Reply::Found(false), Reply::Ran(made)]
            };
            let end = asked.after_all(replies).stage;
            match process::resolved(path) {
                Err(failure) => end == (UpdateStage::Failed { failure }),
                Ok(_) => match made {
                    None => end == (UpdateStage::Failed {
                        failure: Failure::Spawn { program: "nix-store"@ },
                    }),
                    Some(r) => if r.success {
                        end is Updated
                    } else {
                        end == (UpdateStage::Failed {
                            failure: target.refusal(process::complaint(r)),
                        })
                    },
                },
            }
        }),
{
    reveal_with_fuel(SourceUpdate::<_>::after_all, 5);
    let tail = seq![Reply::<Seq<char>, Seq<Seq<char>>, _>::Ran(made)];
    let asked = SourceUpdate { target, root, stage: UpdateStage::Resolve };
    if found {
        let replies = seq![Reply::Ran(path), Reply::Found(true), Reply::Removed, Reply::Ran(made)];
        assert(replies.drop_first() =~= seq![Reply::Found(true), Reply::Removed, Reply::Ran(made)]);
        assert(replies.drop_first().drop_first() =~= seq![Reply::Removed, Reply::Ran(made)]);
        assert(replies.drop_first().drop_first().drop_first() =~= tail);
        assert(tail.drop_first() =~= seq![]);
    } else {
        let replies = seq![Reply::Ran(path), Reply::Found(false), Reply::Ran(made)];
        assert(replies.drop_first() =~= seq![Reply::Found(false), Reply::Ran(made)]);
        assert(replies.drop_first().drop_first() =~= tail);
        assert(tail.drop_first() =~= seq![]);
    }
}

/// The global nixpkgs comes from the channel where that can be resolved, else from
/// the flake; where neither can, it fails.
pub proof fn law_global_falls_back(
    root: Seq<char>,
    channel: Option<process::SpawnView>,
    flake: Option<process::SpawnView>,
)
    ensures
        ({
            let begun = SourceUpdate::begun(Target::Nixpkgs, root);
            let asked = begun.after(Reply::Ran(channel));
            match (process::resolved(channel), process::resolved(flake)) {
                (Ok(path), _) => asked.stage == (UpdateStage::Probe { path }),
                (Err(_), Ok(path)) => asked.after(Reply::Ran(flake)).stage == (
                UpdateStage::Probe { path }),
                (Err(_), Err(_)) => asked.after(Reply::Ran(flake)).stage == (UpdateStage::Failed {
                    failure: Failure::<Seq<char>>::GlobalUnresolved,
                }),
            }
        }),
{
}

/// A flake is not asked for where nix has no flakes.
pub proof fn law_flake_needs_support(
    name: Seq<char>,
    root: Seq<char>,
    support: Option<process::SpawnView>,
)
    ensures
        SourceUpdate::begun(Target::Flake { name }, root).after(Reply::Ran(support)).stage
            == if process::succeeded(support) {
            UpdateStage::<Seq<char>>::Resolve
        } else {
            UpdateStage::Failed { failure: Failure::FlakesDisabled }
        },
{
}

} // verus!
