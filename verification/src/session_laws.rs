//! What holds of every command, whatever comes back from outside.

use crate::additions;
use crate::additions::{AddStage, AdderView};
use crate::check::{CheckStage, PackageCheck};
use crate::effect::{AnswerView, Effect, Reply, RequestView};
use crate::housekeeping;
use crate::housekeeping::{Chore, HousekeepingView, Kind};
use crate::nix;
use crate::notice::Notice;
use crate::package;
use crate::paths;
use crate::plan;
use crate::plan::{Phase, PhaseEnd};
use crate::process;
use crate::process::InvocationView;
use crate::rebuild;
use crate::rebuild::{BuilderView, Rebuild};
use crate::removals;
use crate::session;
use crate::session::{Commands, SessionView, WorkView};
use crate::site::SiteView;
use crate::sources::{GlobalSourcesView, SourcesView};
use crate::storage;
use crate::storage::{EnvFile, StorageView};
use crate::storage_laws;
use crate::storing;
use crate::storing::{StorerView, Storing};
use crate::supply;
use crate::supply::{Item, SupplierView, SupplyStage};
use crate::update::{SourceUpdate, UpdateStage};
use vstd::prelude::*;

verus! {

/// Something is left to fetch of `items`.
pub open spec fn supply_sound(items: Seq<Item<Seq<char>>>, supply: SupplierView) -> bool {
    &&& supply.wf()
    &&& supply.stage is Probe || supply.stage is Fetch
    &&& supply.rest.len() <= items.len()
    &&& supply.rest == items.skip(items.len() - supply.rest.len())
}

/// Something is left to bring in step, for the environment and its packages.
pub open spec fn housekeeping_sound(site: SiteView, work: HousekeepingView) -> bool {
    let packages = site.storage.packages;
    &&& work.wf()
    &&& work.sources == site.sources
    &&& work.channels == storage::channels_of(packages)
    &&& work.flakes == storage::flakes_of(packages)
    &&& work.needed == supply::needed(site.sources, packages)
    &&& work.chore matches Chore::Fetch { supply } ==> supply_sound(work.needed, supply)
}

/// One of `pkgs` is left to add.
pub open spec fn adder_sound(
    pkgs: Seq<Seq<char>>,
    sources: SourcesView,
    adder: AdderView,
) -> bool {
    additions::in_place(adder, pkgs, sources) && !(adder.stage is Finished)
}

/// A nix expression of the packages at hand, whatever their flakes' roots and the
/// global nixpkgs point to.
pub open spec fn is_generated(site: SiteView, content: Seq<char>) -> bool {
    exists|links: Seq<Seq<char>>, global: Seq<char>|
        links.len() == storage::flakes_of(site.storage.packages).len() && content
            == #[trigger] nix::generated(site.env, site.storage.packages, links, global)
}

/// Something is left of a build.
pub open spec fn builder_sound(site: SiteView, builder: BuilderView) -> bool {
    match builder {
        Rebuild::FetchGlobal { update } => update.wants() is Some && update.root
            == site.global.nixpkgs_root(),
        Rebuild::Links { links, .. } => links.len() < storage::flakes_of(
            site.storage.packages,
        ).len(),
        Rebuild::Write { content } => is_generated(site, content),
        Rebuild::Built => false,
        Rebuild::Failed { .. } => false,
        _ => true,
    }
}

/// Something of `all` is left to put on disk.
pub open spec fn storer_sound(all: StorerView, storer: StorerView) -> bool {
    match (all, storer) {
        (Storing::Going { rest: all }, Storing::Going { rest }) => rest.len() > 0 && rest.len()
            <= all.len() && rest == all.skip(all.len() - rest.len()),
        _ => false,
    }
}

/// The work of a command is that of the part at hand, and something of it is left.
pub open spec fn at_work(s: SessionView) -> bool {
    match s.plan.phase() {
        None => s.work is Ended,
        Some(Phase::FetchChannels) => s.work is FetchChannels,
        Some(Phase::OpenGlobal) => s.work matches WorkView::Store { storer } && storer_sound(
            storing::global_dir(s.site.global),
            storer,
        ),
        Some(Phase::ListEnvs) => s.work is ListEnvs,
        Some(Phase::Load) => s.work is Load,
        Some(Phase::OpenSources) => s.work matches WorkView::Store { storer } && storer_sound(
            storing::source_dirs(s.site.sources),
            storer,
        ),
        Some(Phase::Tidy) => s.work matches WorkView::Tidy { housekeeping }
            && housekeeping_sound(s.site, housekeeping),
        Some(Phase::AddPackages) => s.work matches WorkView::Add { adder } && adder_sound(
            s.pkgs,
            s.site.sources,
            adder,
        ),
        Some(Phase::RemovePackages) => false,
        Some(Phase::Save) => s.work matches WorkView::Store { storer } && storer_sound(
            storing::saving(s.config_dir, s.site.storage),
            storer,
        ),
        Some(Phase::ProbeBinary) => s.work is Probe,
        Some(Phase::Rebuild) => s.work matches WorkView::Build { builder } && builder_sound(
            s.site,
            builder,
        ),
        Some(Phase::RefreshSources) => s.work matches WorkView::Supply { supplier }
            && supply_sound(
            supply::needed(s.site.sources, s.site.storage.packages),
            supplier,
        ),
        Some(Phase::UpdateGlobal) => s.work matches WorkView::Update { update }
            && update.wants() is Some && update.root == s.site.global.nixpkgs_root(),
        Some(Phase::Enter) => s.work is Enter,
        Some(Phase::Report) => s.work is Print || s.work is LoadNext && s.queue.len() > 0,
    }
}

/// The environment that was read is the one of the command, unless that is about to
/// be read; all its paths are its own.
pub open spec fn on_site(s: SessionView) -> bool {
    &&& s.site.env == s.plan.env || s.plan.phase() == Some(Phase::Load)
    &&& s.site.cache == paths::joined_path(s.cache_dir, s.site.env)
    &&& s.site.sources == SourcesView::of_env(s.cache_dir, s.site.env)
    &&& s.site.global == GlobalSourcesView::of_cache(s.cache_dir)
    &&& s.site.storage.disk_path == s.file_of(s.site.env)
}

/// The states that a command can be in.
pub open spec fn sound(s: SessionView) -> bool {
    on_site(s) && at_work(s)
}

/// Two states of one command.
pub open spec fn same_command(a: SessionView, b: SessionView) -> bool {
    &&& a.cache_dir == b.cache_dir
    &&& a.config_dir == b.config_dir
    &&& a.pkgs == b.pkgs
    &&& a.json == b.json
    &&& a.plan.task == b.plan.task
    &&& a.plan.auto_rebuild == b.plan.auto_rebuild
}

proof fn lemma_removal_keeps_path(storage: StorageView, pkgs: Seq<Seq<char>>)
    ensures
        removals::all_removed(storage, pkgs).disk_path == storage.disk_path,
    decreases pkgs.len(),
{
    if pkgs.len() > 0 {
        lemma_removal_keeps_path(storage, pkgs.drop_last());
    }
}

/// A command that begins the part at hand is sound, whatever it did before.
proof fn lemma_entered(s: SessionView)
    requires
        on_site(s),
    ensures
        sound(s.entered().0),
        same_command(s, s.entered().0),
    decreases s.plan.envs.len(), s.plan.route.len(),
{
    if let Some(phase) = s.plan.phase() {
        match phase {
            Phase::AddPackages => {
                assert(s.pkgs.skip(0) =~= s.pkgs);
                additions::lemma_facing_in_place(s.pkgs, s.pkgs, false, s.site.sources);
                if AdderView::facing(s.pkgs, false).0.stage is Finished {
                    lemma_entered(s.past(PhaseEnd::Done));
                }
            },
            Phase::RemovePackages => {
                let storage = removals::all_removed(s.site.storage, s.pkgs);
                lemma_removal_keeps_path(s.site.storage, s.pkgs);
                lemma_entered(s.holding(storage).past(PhaseEnd::Done));
            },
            Phase::RefreshSources => {
                let items = supply::needed(s.site.sources, s.site.storage.packages);
                assert(items.skip(0) =~= items);
                if SupplierView::facing(items, true).0.stage is Supplied {
                    lemma_entered(s.past(PhaseEnd::Done));
                }
            },
            Phase::OpenGlobal => {
                let all = storing::global_dir(s.site.global)->rest;
                assert(all.skip(0) =~= all);
            },
            Phase::OpenSources => {
                let all = storing::source_dirs(s.site.sources)->rest;
                assert(all.skip(0) =~= all);
            },
            Phase::Save => {
                let all = storing::saving(s.config_dir, s.site.storage)->rest;
                assert(all.skip(0) =~= all);
            },
            _ => {},
        }
    }
}

/// Every command begins sound.
pub proof fn law_commands_begin_sound(
    cache_dir: Seq<char>,
    config_dir: Seq<char>,
    env: Seq<char>,
    command: Option<Commands<Seq<Seq<char>>, Seq<char>>>,
    no_rebuild: bool,
)
    ensures
        sound(SessionView::begun(cache_dir, config_dir, env, command, no_rebuild).0),
{
    let env = session::env_of(command, env);
    let plan = session::plan_of(command, env, !no_rebuild);
    lemma_entered(
        SessionView {
            cache_dir,
            config_dir,
            pkgs: session::pkgs_of(command),
            json: session::json_of(command),
            plan,
            site: SiteView::loaded(cache_dir, config_dir, plan.env, EnvFile::Missing),
            queue: Seq::empty(),
            listings: Seq::empty(),
            work: WorkView::Ended,
        },
    );
}

proof fn lemma_storer(all: StorerView, storer: StorerView, reply: AnswerView)
    requires
        storer_sound(all, storer),
    ensures
        match storer.after(reply) {
            Storing::Failed { .. } => true,
            Storing::Going { rest } => rest.len() == 0 || storer_sound(all, storer.after(reply)),
        },
{
    if let Storing::Going { rest } = storer {
        let steps = all->rest;
        assert(rest.drop_first() =~= steps.skip(steps.len() - rest.len() + 1));
    }
}

proof fn lemma_supply(items: Seq<Item<Seq<char>>>, supply: SupplierView, reply: AnswerView)
    requires
        supply_sound(items, supply),
    ensures
        supply.after(reply).stage is Supplied || supply.after(reply).stage is Failed
            || supply_sound(items, supply.after(reply)),
{
    supply::law_supply_stays_well_formed(supply, reply);
    supply::law_supply_leaves_nothing_out(supply, reply);
    assert(supply.rest.drop_first() =~= items.skip(items.len() - supply.rest.len() + 1));
}

proof fn lemma_housekeeping(site: SiteView, work: HousekeepingView, reply: AnswerView)
    requires
        housekeeping_sound(site, work),
    ensures
        match work.after(reply).chore {
            Chore::Fetch { supply } => supply.stage is Supplied || supply.stage is Failed
                || housekeeping_sound(site, work.after(reply)),
            _ => housekeeping_sound(site, work.after(reply)),
        },
{
    housekeeping::law_housekeeping_stays_well_formed(work, reply);
    assert(work.needed.skip(0) =~= work.needed);
    if let Chore::Fetch { supply } = work.chore {
        lemma_supply(work.needed, supply, reply);
    }
}

proof fn lemma_adder(
    pkgs: Seq<Seq<char>>,
    adder: AdderView,
    storage: StorageView,
    sources: SourcesView,
    reply: AnswerView,
)
    requires
        adder_sound(pkgs, sources, adder),
    ensures
        adder.moved(storage, sources, reply).adder.stage is Finished || adder_sound(
            pkgs,
            sources,
            adder.moved(storage, sources, reply).adder,
        ),
        adder.moved(storage, sources, reply).storage.disk_path == storage.disk_path,
{
    additions::lemma_reply_decides(adder, storage, sources, pkgs, reply);
}

proof fn lemma_builder(site: SiteView, builder: BuilderView, reply: AnswerView)
    requires
        builder_sound(site, builder),
    ensures
        builder.after(site, reply) is Built || builder.after(site, reply) is Failed
            || builder_sound(site, builder.after(site, reply)),
{
}

/// A command that leaves the part at hand behind is sound again.
proof fn lemma_finished(s: SessionView, end: PhaseEnd<Seq<Seq<char>>>)
    requires
        on_site(s),
        s.site.env == s.plan.env,
    ensures
        sound(s.finished(end).0),
        same_command(s, s.finished(end).0),
{
    lemma_entered(s.past(end));
}

/// A command that failed is sound.
proof fn lemma_failed(s: SessionView, failure: crate::failure::Failure<Seq<char>>)
    requires
        on_site(s),
        s.site.env == s.plan.env,
        s.plan.phase() is Some,
    ensures
        sound(s.failed(failure).0),
        same_command(s, s.failed(failure).0),
{
}

proof fn lemma_after_store(s: SessionView, reply: AnswerView)
    requires
        sound(s),
        s.work is Store,
    ensures
        sound(s.after(reply)),
        same_command(s, s.after(reply)),
{
    let storer = s.work->storer;
    let all = match s.plan.phase().unwrap() {
        Phase::OpenGlobal => storing::global_dir(s.site.global),
        Phase::OpenSources => storing::source_dirs(s.site.sources),
        _ => storing::saving(s.config_dir, s.site.storage),
    };
    lemma_storer(all, storer, reply);
    match storer.after(reply) {
        Storing::Failed { failure } => {
            lemma_failed(s, failure);
        },
        Storing::Going { rest } => {
            if rest.len() == 0 {
                lemma_finished(s, PhaseEnd::Done);
            }
        },
    }
}

proof fn lemma_after_tidy(s: SessionView, reply: AnswerView)
    requires
        sound(s),
        s.work is Tidy,
    ensures
        sound(s.after(reply)),
        same_command(s, s.after(reply)),
{
    let work = s.work->housekeeping;
    lemma_housekeeping(s.site, work, reply);
    if let Chore::Fetch { supply } = work.after(reply).chore {
        match supply.stage {
            SupplyStage::Supplied => {
                lemma_finished(s, PhaseEnd::Done);
            },
            SupplyStage::Failed { failure } => {
                lemma_failed(s, failure);
            },
            _ => {},
        }
    }
}

proof fn lemma_after_add(s: SessionView, reply: AnswerView)
    requires
        sound(s),
        s.work is Add,
    ensures
        sound(s.after(reply)),
        same_command(s, s.after(reply)),
{
    let adder = s.work->adder;
    lemma_adder(s.pkgs, adder, s.site.storage, s.site.sources, reply);
    let next = adder.moved(s.site.storage, s.site.sources, reply);
    let here = s.holding(next.storage);
    if next.adder.stage is Finished {
        lemma_finished(here, PhaseEnd::Done);
        lemma_finished(here, PhaseEnd::Lacking);
    }
}

proof fn lemma_after_build(s: SessionView, reply: AnswerView)
    requires
        sound(s),
        s.work is Build,
    ensures
        sound(s.after(reply)),
        same_command(s, s.after(reply)),
{
    let builder = s.work->builder;
    lemma_builder(s.site, builder, reply);
    match builder.after(s.site, reply) {
        Rebuild::Built => {
            lemma_finished(s, PhaseEnd::Done);
        },
        Rebuild::Failed { failure } => {
            lemma_failed(s, failure);
        },
        _ => {},
    }
}

proof fn lemma_after_supply(s: SessionView, reply: AnswerView)
    requires
        sound(s),
        s.work is Supply,
    ensures
        sound(s.after(reply)),
        same_command(s, s.after(reply)),
{
    let supplier = s.work->supplier;
    lemma_supply(
        supply::needed(s.site.sources, s.site.storage.packages),
        supplier,
        reply,
    );
    match supplier.after(reply).stage {
        SupplyStage::Supplied => {
            lemma_finished(s, PhaseEnd::Done);
        },
        SupplyStage::Failed { failure } => {
            lemma_failed(s, failure);
        },
        _ => {},
    }
}

proof fn lemma_after_update(s: SessionView, reply: AnswerView)
    requires
        sound(s),
        s.work is Update,
    ensures
        sound(s.after(reply)),
        same_command(s, s.after(reply)),
{
    let update = s.work->update;
    match update.after(reply).stage {
        UpdateStage::Updated => {
            lemma_finished(s, PhaseEnd::Done);
        },
        UpdateStage::Failed { failure } => {
            lemma_failed(s, failure);
        },
        _ => {},
    }
}

proof fn lemma_after_list(s: SessionView, reply: AnswerView)
    requires
        sound(s),
        s.work is ListEnvs,
    ensures
        sound(s.after(reply)),
        same_command(s, s.after(reply)),
{
    if let Reply::Names(files) = reply {
        let envs = session::envs_of(files);
        if s.plan.task is Update {
            lemma_finished(s, PhaseEnd::Envs(envs));
        } else {
            lemma_finished(SessionView { queue: envs, ..s }, PhaseEnd::Done);
        }
    }
}

proof fn lemma_after_load(s: SessionView, reply: AnswerView)
    requires
        sound(s),
        s.work is Load,
    ensures
        sound(s.after(reply)),
        same_command(s, s.after(reply)),
{
    if let Reply::File(file) = reply {
        let here = SessionView {
            site: SiteView::loaded(s.cache_dir, s.config_dir, s.plan.env, file),
            ..s
        };
        lemma_finished(here, PhaseEnd::Done);
        lemma_finished(here, PhaseEnd::Lacking);
    }
}

/// A sound command stays sound, whatever comes back, and stays the same command.
pub proof fn law_commands_stay_sound(s: SessionView, reply: AnswerView)
    requires
        sound(s),
    ensures
        sound(s.after(reply)),
        same_command(s, s.after(reply)),
{
    match s.work {
        WorkView::Store { .. } => lemma_after_store(s, reply),
        WorkView::Tidy { .. } => lemma_after_tidy(s, reply),
        WorkView::Add { .. } => lemma_after_add(s, reply),
        WorkView::Build { .. } => lemma_after_build(s, reply),
        WorkView::Supply { .. } => lemma_after_supply(s, reply),
        WorkView::Update { .. } => lemma_after_update(s, reply),
        WorkView::ListEnvs => lemma_after_list(s, reply),
        WorkView::Load => lemma_after_load(s, reply),
        WorkView::FetchChannels => lemma_finished(s, PhaseEnd::Done),
        WorkView::Print { .. } => lemma_finished(s, PhaseEnd::Done),
        WorkView::Probe => {
            lemma_finished(s, PhaseEnd::Done);
            lemma_finished(s, PhaseEnd::Lacking);
        },
        WorkView::LoadNext => {},
        WorkView::Enter => {},
        WorkView::Ended => {},
    }
}

/// A command asks for something until it has ended, and then for nothing more.
pub proof fn law_commands_ask_until_they_end(s: SessionView)
    requires
        sound(s),
    ensures
        s.wants() is None <==> s.plan.phase() is None,
{
}

/// The path of the root of a channel or flake that a package at hand needs.
pub open spec fn is_needed_root(site: SiteView, path: Seq<char>) -> bool {
    ||| exists|name: Seq<char>| #[trigger]
        storage::channels_of(site.storage.packages).contains(name) && path
            == site.sources.channel_root(name)
    ||| exists|name: Seq<char>| #[trigger]
        storage::flakes_of(site.storage.packages).contains(name) && path
            == site.sources.flake_root(name)
}

/// The path of the root of the source of a package that the command is to add.
pub open spec fn is_added_root(s: SessionView, path: Seq<char>) -> bool {
    s.plan.phase() == Some(Phase::AddPackages) && exists|
        i: int,
        pkg_ref: package::PackageRefView,
    |
        0 <= i < s.pkgs.len() && #[trigger] additions::stands_for(s.pkgs[i], pkg_ref) && path
            == s.site.sources.root_of(pkg_ref)
}

/// A root that a command may make, and may remove to make it anew: that of a source
/// that a package needs or is about to need, or that of the global nixpkgs.
pub open spec fn may_make(s: SessionView, path: Seq<char>) -> bool {
    is_needed_root(s.site, path) || is_added_root(s, path) || path
        == s.site.global.nixpkgs_root()
}

/// The path of a root that no package at hand needs, and that is at hand to be
/// removed.
pub open spec fn is_stale_root(s: SessionView, path: Seq<char>) -> bool {
    s.work matches WorkView::Tidy { housekeeping } && (housekeeping.chore matches Chore::Remove {
        kind,
        unused,
    } && unused.len() > 0 && (match kind {
        Kind::Channel => path == s.site.sources.channel_root(unused.first())
            && !storage::channels_of(s.site.storage.packages).contains(unused.first()),
        Kind::Flake => path == s.site.sources.flake_root(unused.first()) && !storage::flakes_of(
            s.site.storage.packages,
        ).contains(unused.first()),
    }))
}

/// A program that is only asked: it makes and removes nothing.
pub open spec fn only_asks(invocation: InvocationView) -> bool {
    ||| invocation == process::flakes_probe()
    ||| exists|expr: Seq<char>, raw: bool|
        invocation == #[trigger] process::evaluation(expr, raw, None)
}

/// A program that makes the root of a source, which the command may make.
pub open spec fn makes_root(s: SessionView, invocation: InvocationView) -> bool {
    exists|path: Seq<char>, root: Seq<char>|
        invocation == #[trigger] process::realisation(path, root) && may_make(s, root)
}

/// What the fetching of a source asks for concerns its root only.
proof fn lemma_update_keeps_to_its_root(s: SessionView, update: SourceUpdate<Seq<char>>)
    requires
        may_make(s, update.root),
    ensures
        keeps_to_its_own(s, update.wants()),
{
    match update.wants() {
        Some(Effect::Run { invocation }) => match update.stage {
            UpdateStage::Realise { path } => {
                assert(invocation == process::realisation(path, update.root));
            },
            UpdateStage::Resolve => {
                assert(invocation == process::evaluation(update.target.path_expr(), true, None));
            },
            UpdateStage::Fallback => {
                assert(invocation == process::evaluation(
                    process::flake_path_expr("nixpkgs"@),
                    true,
                    None,
                ));
            },
            _ => {},
        },
        _ => {},
    }
}

/// What the search for a package asks for makes and removes nothing.
proof fn lemma_check_only_asks(s: SessionView, check: PackageCheck<Seq<char>>)
    ensures
        keeps_to_its_own(s, check.wants()),
{
    match check.wants() {
        Some(Effect::Run { invocation }) => match check.stage {
            CheckStage::Channel => {
                let expr = process::channel_has_expr(check.source, check.attr);
                assert(invocation == process::evaluation(expr, false, None));
            },
            CheckStage::Legacy => {
                let expr = process::flake_has_expr(check.source, "legacyPackages"@, check.attr);
                assert(invocation == process::evaluation(expr, false, None));
            },
            CheckStage::Packages => {
                let expr = process::flake_has_expr(check.source, "packages"@, check.attr);
                assert(invocation == process::evaluation(expr, false, None));
            },
            _ => {},
        },
        _ => {},
    }
}

/// The root of the first of the sources that are needed is one that is needed.
proof fn lemma_needed_root(site: SiteView, item: Item<Seq<char>>)
    requires
        supply::needed(site.sources, site.storage.packages).contains(item),
    ensures
        is_needed_root(site, item.root),
{
    let packages = site.storage.packages;
    let channels = storage::channels_of(packages);
    let flakes = storage::flakes_of(packages);
    let needed = supply::needed(site.sources, packages);
    let i = choose|i: int| 0 <= i < needed.len() && needed[i] == item;
    if i < channels.len() {
        assert(channels.contains(channels[i]));
        assert(item.root == site.sources.channel_root(channels[i]));
    } else {
        let k = i - channels.len();
        assert(flakes.contains(flakes[k]));
        assert(item.root == site.sources.flake_root(flakes[k]));
    }
}

proof fn lemma_supply_keeps_to_its_own(s: SessionView, supply: SupplierView)
    requires
        supply_sound(supply::needed(s.site.sources, s.site.storage.packages), supply),
    ensures
        keeps_to_its_own(s, supply.wants()),
{
    let needed = supply::needed(s.site.sources, s.site.storage.packages);
    if let SupplyStage::Fetch { update } = supply.stage {
        let item = supply.rest.first();
        assert(needed[needed.len() - supply.rest.len()] == item);
        lemma_needed_root(s.site, item);
        lemma_update_keeps_to_its_root(s, update);
    }
}

/// What a command may do outside: of the files, only that of its environment is
/// written, with the packages at hand, and the nix expression of these packages in the
/// environment's directory; of the roots, those that no package at hand needs are
/// removed, and those that one needs, or is about to need, and that of the global
/// nixpkgs are made anew; only the directories for all these are made; and the
/// programs that are run make such a root, build the environment into its own
/// directory, fetch the channels of the system, or are only asked.
pub open spec fn keeps_to_its_own(
    s: SessionView,
    wanted: Option<RequestView>,
) -> bool {
    match wanted {
        Some(Effect::WriteFile { path, content }) => {
            ||| path == s.file_of(s.plan.env) && content == s.site.storage.written()
                && s.plan.phase() == Some(Phase::Save)
            ||| path == s.site.nix_file() && is_generated(s.site, content) && s.site.env
                == s.plan.env && s.plan.phase() == Some(Phase::Rebuild)
        },
        Some(Effect::RemoveFile { path }) => may_make(s, path) || is_stale_root(s, path),
        Some(Effect::CreateDir { path }) => {
            ||| path == s.config_dir
            ||| path == s.site.cache
            ||| path == s.site.sources.channels_path
            ||| path == s.site.sources.flakes_path
            ||| path == s.site.global.path
        },
        Some(Effect::Run { invocation }) => {
            ||| only_asks(invocation)
            ||| makes_root(s, invocation)
            ||| invocation == rebuild::build_of(s.site) && s.site.env == s.plan.env
                && s.plan.phase() == Some(Phase::Rebuild)
            ||| invocation == process::channels_fetch() && s.plan.phase() == Some(
                Phase::FetchChannels,
            )
        },
        _ => true,
    }
}

/// What a command changes outside is its own.
pub proof fn law_commands_keep_to_their_own(s: SessionView)
    requires
        sound(s),
    ensures
        keeps_to_its_own(s, s.wants()),
        s.site.env == s.plan.env || s.plan.phase() == Some(Phase::Load),
{
    match s.work {
        WorkView::Tidy { housekeeping } => {
            match housekeeping.chore {
                Chore::Remove { kind, unused } => {
                    assert(!housekeeping.names(kind).contains(unused[0]));
                },
                Chore::Fetch { supply } => lemma_supply_keeps_to_its_own(s, supply),
                _ => {},
            }
        },
        WorkView::Supply { supplier } => lemma_supply_keeps_to_its_own(s, supplier),
        WorkView::Add { adder } => match adder.stage {
            AddStage::Channel { check, .. } => lemma_check_only_asks(s, check),
            AddStage::Flake { check, .. } => lemma_check_only_asks(s, check),
            AddStage::Verify { check, .. } => lemma_check_only_asks(s, check),
            AddStage::Fetch { pkg_ref, update } => {
                let i = s.pkgs.len() - additions::undecided(adder);
                assert(additions::stands_for(s.pkgs[i], pkg_ref));
                lemma_update_keeps_to_its_root(s, update);
            },
            _ => {},
        },
        WorkView::Build { builder } => {
            if let Rebuild::FetchGlobal { update } = builder {
                lemma_update_keeps_to_its_root(s, update);
            }
        },
        WorkView::Update { update } => lemma_update_keeps_to_its_root(s, update),
        _ => {},
    }
}

/// A command that has ended stays as it is, and says nothing more.
pub proof fn law_ended_commands_rest(s: SessionView, reply: AnswerView)
    requires
        sound(s),
        s.plan.phase() is None,
    ensures
        s.after(reply) == s,
        s.moved(reply).1.len() == 0,
{
}

/// A command that needs its environment ends where that is missing: it says so, asks
/// for nothing more, and did not go well.
pub proof fn law_missing_env_ends_the_command(s: SessionView)
    requires
        sound(s),
        s.plan.phase() == Some(Phase::Load),
        plan::needs_env(s.plan.task),
    ensures
        ({
            let next = s.moved(Reply::File(EnvFile::Missing));
            &&& next.0.wants() is None
            &&& next.1 == seq![Notice::EnvMissing { env: s.plan.env }]
            &&& !next.0.plan.went_well()
        }),
{
}

/// Once the packages of a command were added, what is saved next is the storage with
/// all that came in, in the file of the environment.
pub proof fn law_added_packages_are_saved(s: SessionView, reply: AnswerView)
    requires
        sound(s),
        s.plan.phase() == Some(Phase::AddPackages),
        s.plan.route.len() > 1,
        s.plan.route[1] == Phase::Save,
    ensures
        ({
            let next = s.work->adder.moved(s.site.storage, s.site.sources, reply);
            next.adder.stage is Finished ==> s.after(reply).work == (WorkView::Store {
                storer: storing::saving(s.config_dir, next.storage),
            }) && next.storage.disk_path == s.file_of(s.plan.env)
        }),
{
    lemma_adder(s.pkgs, s.work->adder, s.site.storage, s.site.sources, reply);
}

/// What is saved of an environment is what the next command finds there: the same
/// packages in the same order.
pub proof fn law_saved_packages_are_found(
    cache_dir: Seq<char>,
    config_dir: Seq<char>,
    env: Seq<char>,
    storage: StorageView,
)
    requires
        storage_laws::fits_file(storage.packages),
        storage.disk_path == paths::joined_path(config_dir, paths::env_file_name(env)),
    ensures
        ({
            let found = SiteView::loaded(
                cache_dir,
                config_dir,
                env,
                EnvFile::Text(storage.written()),
            );
            &&& found.storage.packages == storage.packages
            &&& found.storage.disk_path == storage.disk_path
            &&& !found.storage.is_new
        }),
{
    storage_laws::law_write_then_read(storage);
}

/// A plan that only reads and tells.
pub open spec fn only_tells(p: plan::PlanView) -> bool {
    &&& p.envs.len() == 0
    &&& p.task is Info || p.task is List
    &&& forall|i: int|
        0 <= i < p.route.len() ==> (#[trigger] p.route[i]) is Load || p.route[i] is ListEnvs
            || p.route[i] is Report
}

/// A command that tells of environments changes nothing: all that it asks for is to
/// read and to print.
pub proof fn law_reports_change_nothing(s: SessionView, reply: AnswerView)
    requires
        sound(s),
        only_tells(s.plan),
    ensures
        only_tells(s.after(reply).plan),
        match s.wants() {
            None => true,
            Some(Effect::ReadEnv { .. }) => true,
            Some(Effect::ListDir { .. }) => true,
            Some(Effect::Print { .. }) => true,
            _ => false,
        },
{
    let rest = s.plan.route.drop_first();
    assert(s.plan.phase() is Some ==> forall|i: int|
        0 <= i < rest.len() ==> (#[trigger] rest[i]) == s.plan.route[i + 1]);
}

/// The commands that tell of environments begin so that they change nothing.
pub proof fn law_reports_begin_telling(
    cache_dir: Seq<char>,
    config_dir: Seq<char>,
    env: Seq<char>,
    json: bool,
    no_rebuild: bool,
)
    ensures
        only_tells(
            SessionView::begun(
                cache_dir,
                config_dir,
                env,
                Some(Commands::Info { json }),
                no_rebuild,
            ).0.plan,
        ),
        only_tells(
            SessionView::begun(
                cache_dir,
                config_dir,
                env,
                Some(Commands::List { json }),
                no_rebuild,
            ).0.plan,
        ),
{
}

/// Beginning the part at hand brings no build up that is not wanted.
proof fn lemma_entered_builds(s: SessionView)
    requires
        s.plan.builds_only_if_wanted(),
    ensures
        s.entered().0.plan.builds_only_if_wanted(),
    decreases s.plan.envs.len(), s.plan.route.len(),
{
    if let Some(phase) = s.plan.phase() {
        plan::law_no_unwanted_build(s.plan, PhaseEnd::Done);
        match phase {
            Phase::AddPackages => {
                if AdderView::facing(s.pkgs, false).0.stage is Finished {
                    lemma_entered_builds(s.past(PhaseEnd::Done));
                }
            },
            Phase::RemovePackages => {
                let storage = removals::all_removed(s.site.storage, s.pkgs);
                lemma_entered_builds(s.holding(storage).past(PhaseEnd::Done));
            },
            Phase::RefreshSources => {
                let items = supply::needed(s.site.sources, s.site.storage.packages);
                if SupplierView::facing(items, true).0.stage is Supplied {
                    lemma_entered_builds(s.past(PhaseEnd::Done));
                }
            },
            _ => {},
        }
    }
}

/// Leaving the part at hand behind brings no build up that is not wanted.
proof fn lemma_finished_builds(s: SessionView, end: PhaseEnd<Seq<Seq<char>>>)
    requires
        s.plan.builds_only_if_wanted(),
    ensures
        s.finished(end).0.plan.builds_only_if_wanted(),
{
    plan::law_no_unwanted_build(s.plan, end);
    lemma_entered_builds(s.past(end));
}

/// A command that is not to build does not build, whatever comes back.
pub proof fn law_no_build_against_the_will(s: SessionView, reply: AnswerView)
    requires
        sound(s),
        s.plan.builds_only_if_wanted(),
    ensures
        s.after(reply).plan.builds_only_if_wanted(),
        !s.plan.auto_rebuild ==> !(s.work is Build),
{
    plan::law_no_unwanted_build(s.plan, PhaseEnd::Failed);
    lemma_finished_builds(s, PhaseEnd::Done);
    lemma_finished_builds(s, PhaseEnd::Lacking);
    match (s.work, reply) {
        (WorkView::Add { adder }, _) => {
            let here = s.holding(adder.moved(s.site.storage, s.site.sources, reply).storage);
            lemma_finished_builds(here, PhaseEnd::Done);
            lemma_finished_builds(here, PhaseEnd::Lacking);
        },
        (WorkView::ListEnvs, Reply::Names(files)) => {
            let envs = session::envs_of(files);
            lemma_finished_builds(s, PhaseEnd::Envs(envs));
            lemma_finished_builds(SessionView { queue: envs, ..s }, PhaseEnd::Done);
        },
        (WorkView::Load, Reply::File(file)) => {
            let site = SiteView::loaded(s.cache_dir, s.config_dir, s.plan.env, file);
            lemma_finished_builds(SessionView { site, ..s }, PhaseEnd::Done);
            lemma_finished_builds(SessionView { site, ..s }, PhaseEnd::Lacking);
        },
        _ => {},
    }
}

/// With `--no-rebuild`, every command but the one that builds begins without a
/// build.
pub proof fn law_no_rebuild_is_heeded(
    cache_dir: Seq<char>,
    config_dir: Seq<char>,
    env: Seq<char>,
    command: Option<Commands<Seq<Seq<char>>, Seq<char>>>,
)
    requires
        !(command matches Some(Commands::Rebuild)),
    ensures
        ({
            let s = SessionView::begun(cache_dir, config_dir, env, command, true).0;
            s.plan.builds_only_if_wanted() && !s.plan.auto_rebuild
        }),
{
    law_commands_begin_sound(cache_dir, config_dir, env, command, true);
    plan::law_commands_begin_without_unwanted_build(
        false,
        command matches Some(Commands::Update { fetch, .. }) && fetch,
        command matches Some(Commands::Update { all, .. }) && all,
    );
    let plan = session::plan_of(command, session::env_of(command, env), false);
    let begun = SessionView {
        cache_dir,
        config_dir,
        pkgs: session::pkgs_of(command),
        json: session::json_of(command),
        plan,
        site: SiteView::loaded(cache_dir, config_dir, plan.env, EnvFile::Missing),
        queue: Seq::empty(),
        listings: Seq::empty(),
        work: WorkView::Ended,
    };
    lemma_entered(begun);
    lemma_entered_builds(begun);
}

/// A command behind several replies.
pub open spec fn run(s: SessionView, replies: Seq<AnswerView>) -> SessionView
    decreases replies.len(),
{
    if replies.len() == 0 {
        s
    } else {
        run(s, replies.drop_last()).after(replies.last())
    }
}

/// What is kept behind several replies.
pub proof fn lemma_run(s: SessionView, replies: Seq<AnswerView>)
    requires
        sound(s),
    ensures
        sound(run(s, replies)),
        same_command(s, run(s, replies)),
        s.plan.builds_only_if_wanted() ==> run(s, replies).plan.builds_only_if_wanted(),
        only_tells(s.plan) ==> only_tells(run(s, replies).plan),
    decreases replies.len(),
{
    if replies.len() > 0 {
        let before = run(s, replies.drop_last());
        let reply = replies.last();
        lemma_run(s, replies.drop_last());
        law_commands_stay_sound(before, reply);
        if before.plan.builds_only_if_wanted() {
            law_no_build_against_the_will(before, reply);
        }
        if only_tells(before.plan) {
            law_reports_change_nothing(before, reply);
        }
    }
}

/// Whatever comes back, and however often, a command stays sound and keeps to its own;
/// with `--no-rebuild` it does not build, unless it is the one that builds; and where
/// it tells of environments it only reads and prints.
pub proof fn law_every_run(
    cache_dir: Seq<char>,
    config_dir: Seq<char>,
    env: Seq<char>,
    command: Option<Commands<Seq<Seq<char>>, Seq<char>>>,
    no_rebuild: bool,
    replies: Seq<AnswerView>,
)
    ensures
        ({
            let s = run(
                SessionView::begun(cache_dir, config_dir, env, command, no_rebuild).0,
                replies,
            );
            &&& sound(s)
            &&& keeps_to_its_own(s, s.wants())
            &&& no_rebuild && !(command matches Some(Commands::Rebuild)) ==> !(s.work is Build)
            &&& (command matches Some(Commands::Info { .. }) || command matches Some(
                Commands::List { .. },
            )) ==> match s.wants() {
                None => true,
                Some(Effect::ReadEnv { .. }) => true,
                Some(Effect::ListDir { .. }) => true,
                Some(Effect::Print { .. }) => true,
                _ => false,
            }
        }),
{
    let begun = SessionView::begun(cache_dir, config_dir, env, command, no_rebuild).0;
    let s = run(begun, replies);
    law_commands_begin_sound(cache_dir, config_dir, env, command, no_rebuild);
    lemma_run(begun, replies);
    law_commands_keep_to_their_own(s);
    if no_rebuild && !(command matches Some(Commands::Rebuild)) {
        law_no_rebuild_is_heeded(cache_dir, config_dir, env, command);
        law_no_build_against_the_will(s, Reply::Printed);
    }
    match command {
        Some(Commands::Info { json }) => {
            law_reports_begin_telling(cache_dir, config_dir, env, json, no_rebuild);
            law_reports_change_nothing(s, Reply::Printed);
        },
        Some(Commands::List { json }) => {
            law_reports_begin_telling(cache_dir, config_dir, env, json, no_rebuild);
            law_reports_change_nothing(s, Reply::Printed);
        },
        _ => {},
    }
}

/// Beginning the part at hand leaves the environment as it is, where no packages
/// are to be removed.
proof fn lemma_entered_keeps_site(s: SessionView)
    requires
        !s.plan.route.contains(Phase::RemovePackages),
    ensures
        s.entered().0.site == s.site,
    decreases s.plan.envs.len(), s.plan.route.len(),
{
    if let Some(phase) = s.plan.phase() {
        lemma_no_removal_comes_up(s.plan, PhaseEnd::Done);
        assert(s.plan.route.contains(s.plan.route[0]));
        match phase {
            Phase::AddPackages => {
                if AdderView::facing(s.pkgs, false).0.stage is Finished {
                    lemma_entered_keeps_site(s.past(PhaseEnd::Done));
                }
            },
            Phase::RefreshSources => {
                let items = supply::needed(s.site.sources, s.site.storage.packages);
                if SupplierView::facing(items, true).0.stage is Supplied {
                    lemma_entered_keeps_site(s.past(PhaseEnd::Done));
                }
            },
            _ => {},
        }
    }
}

proof fn lemma_no_removal_comes_up(p: plan::PlanView, end: PhaseEnd<Seq<Seq<char>>>)
    requires
        p.phase() is Some,
        !p.route.drop_first().contains(Phase::RemovePackages),
    ensures
        !p.after(end).route.contains(Phase::RemovePackages) || p.after(end).phase() is None,
        !p.route.contains(Phase::RemovePackages) ==> !p.after(end).route.contains(
            Phase::RemovePackages,
        ),
{
    let rest = p.route.drop_first();
    let built = seq![Phase::Tidy, Phase::Rebuild] + rest;
    assert forall|i: int| 0 <= i < built.len() implies (#[trigger] built[i])
        != Phase::RemovePackages by {
        if i >= 2 {
            assert(rest.contains(rest[i - 2]));
        }
    }
}

/// The packages at hand change only where the file of the environment is read, where
/// packages are added and where they are removed; any other part leaves them alone.
pub proof fn law_other_parts_spare_the_packages(s: SessionView, reply: AnswerView)
    requires
        sound(s),
        s.plan.phase() is Some,
        s.plan.phase() != Some(Phase::Load),
        s.plan.phase() != Some(Phase::AddPackages),
        !s.plan.route.drop_first().contains(Phase::RemovePackages),
    ensures
        s.after(reply).site == s.site,
{
    lemma_finished_keeps_site(s, PhaseEnd::Done);
    lemma_finished_keeps_site(s, PhaseEnd::Lacking);
    if let (WorkView::ListEnvs, Reply::Names(files)) = (s.work, reply) {
        let envs = session::envs_of(files);
        lemma_finished_keeps_site(s, PhaseEnd::Envs(envs));
        lemma_finished_keeps_site(SessionView { queue: envs, ..s }, PhaseEnd::Done);
    }
}

proof fn lemma_finished_keeps_site(s: SessionView, end: PhaseEnd<Seq<Seq<char>>>)
    requires
        s.plan.phase() is Some,
        !s.plan.route.drop_first().contains(Phase::RemovePackages),
    ensures
        s.finished(end).0.site == s.site,
{
    lemma_no_removal_comes_up(s.plan, end);
    if s.past(end).plan.phase() is Some {
        lemma_entered_keeps_site(s.past(end));
    }
}

/// The packages that a command is to remove are removed once the directories are
/// there, all of them and nothing else, before the sources are brought in step and
/// the file is written.
pub proof fn law_removal_takes_place(s: SessionView)
    requires
        sound(s),
        s.plan.route == plan::rm_route(s.plan.auto_rebuild).skip(2),
        s.plan.ending is None,
    ensures
        ({
            let next = s.after(Reply::Stored(None));
            &&& next.site.storage == removals::all_removed(s.site.storage, s.pkgs)
            &&& next.plan.phase() == Some(Phase::Tidy)
            &&& next.plan.route[1] == Phase::Save
        }),
{
    let route = s.plan.route;
    assert(route[0] == Phase::OpenGlobal);
    assert(route[1] == Phase::RemovePackages);
    let rest = s.work->storer->rest;
    assert(rest.drop_first() =~= seq![]);
    let ended = s.past(PhaseEnd::Done);
    assert(ended.plan.route == route.drop_first());
    let storage = removals::all_removed(s.site.storage, s.pkgs);
    let left = ended.holding(storage).past(PhaseEnd::Done);
    assert(left.plan.route == route.drop_first().drop_first());
    reveal_with_fuel(SessionView::entered, 2);
}

} // verus!
