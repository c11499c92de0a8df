//! How far a command is from its end.

use crate::additions::{AddStage, AdderView};
use crate::check::CheckStage;
use crate::effect::AnswerView;
use crate::housekeeping::{Chore, HousekeepingView, Kind};
use crate::plan::{Phase, PhaseEnd, PlanView};
use crate::rebuild::{BuilderView, Rebuild};
use crate::removals;
use crate::session::{SessionView, WorkView};
use crate::session_laws;
use crate::site::SiteView;
use crate::sources::SourcesView;
use crate::storage;
use crate::storage::StorageView;
use crate::storing::Storing;
use crate::supply;
use crate::supply::{SupplierView, SupplyStage};
use crate::update::{SourceUpdate, UpdateStage};
use vstd::prelude::*;

verus! {

/// How much a part of a command may still ask for. That of finding out whether an
/// environment is built may bring two more parts.
pub open spec fn weight(phase: Phase) -> nat {
    if phase is ProbeBinary {
        3
    } else {
        1
    }
}

/// How much the parts of a command may still ask for.
pub open spec fn weights(route: Seq<Phase>) -> nat
    decreases route.len(),
{
    if route.len() == 0 {
        0
    } else {
        weight(route.first()) + weights(route.drop_first())
    }
}

/// How many of the parts list environments.
pub open spec fn listings(route: Seq<Phase>) -> nat
    decreases route.len(),
{
    if route.len() == 0 {
        0
    } else {
        (if route.first() is ListEnvs {
            1nat
        } else {
            0nat
        }) + listings(route.drop_first())
    }
}

/// How far a plan is from its end: the environments that are still to be listed,
/// those that are still to be updated, and the parts that are still to come.
pub open spec fn plan_rank(plan: PlanView) -> (nat, nat, nat) {
    if plan.phase() is None {
        (0, 0, 0)
    } else {
        (listings(plan.route), plan.envs.len(), weights(plan.route))
    }
}

/// A rank comes before another.
pub open spec fn before(a: (nat, nat, nat), b: (nat, nat, nat)) -> bool {
    ||| a.0 < b.0
    ||| a.0 == b.0 && a.1 < b.1
    ||| a.0 == b.0 && a.1 == b.1 && a.2 < b.2
}

/// How far the fetching of a source is from its end.
pub open spec fn update_rank(update: SourceUpdate<Seq<char>>) -> nat {
    match update.stage {
        UpdateStage::Support => 6,
        UpdateStage::Resolve => 5,
        UpdateStage::Fallback => 4,
        UpdateStage::Probe { .. } => 3,
        UpdateStage::Clear { .. } => 2,
        UpdateStage::Realise { .. } => 1,
        UpdateStage::Updated => 0,
        UpdateStage::Failed { .. } => 0,
    }
}

/// How far the search for a package is from its end.
pub open spec fn check_rank(stage: CheckStage) -> nat {
    match stage {
        CheckStage::Support => 3,
        CheckStage::Legacy => 2,
        CheckStage::Packages => 1,
        CheckStage::Channel => 1,
        CheckStage::Known { .. } => 0,
    }
}

/// How far the first source of those that are fetched is from its end.
pub open spec fn supply_rank(supply: SupplierView) -> nat {
    match supply.stage {
        SupplyStage::Probe => 7,
        SupplyStage::Fetch { update } => update_rank(update),
        _ => 0,
    }
}

/// How far the adding of packages is from its end.
pub open spec fn adder_rank(adder: AdderView) -> (nat, nat, nat) {
    match adder.stage {
        AddStage::Channel { check, .. } => (adder.rest.len(), 5, check_rank(check.stage)),
        AddStage::Flake { check, .. } => (adder.rest.len(), 4, check_rank(check.stage)),
        AddStage::Probe { .. } => (adder.rest.len(), 3, 0),
        AddStage::Fetch { update, .. } => (adder.rest.len(), 2, update_rank(update)),
        AddStage::Verify { check, .. } => (adder.rest.len(), 1, check_rank(check.stage)),
        AddStage::Finished => (0, 0, 0),
    }
}

/// How far the housekeeping is from its end.
pub open spec fn housekeeping_rank(work: HousekeepingView) -> (nat, nat, nat) {
    match work.chore {
        Chore::List { kind: Kind::Channel } => (4, 0, 0),
        Chore::Probe { kind: Kind::Channel, unused } => (3, unused.len(), 1),
        Chore::Remove { kind: Kind::Channel, unused } => (3, unused.len(), 0),
        Chore::List { kind: Kind::Flake } => (2, 0, 0),
        Chore::Probe { kind: Kind::Flake, unused } => (1, unused.len(), 1),
        Chore::Remove { kind: Kind::Flake, unused } => (1, unused.len(), 0),
        Chore::Fetch { supply } => (0, supply.rest.len(), supply_rank(supply)),
    }
}

/// How far a build is from its end.
pub open spec fn builder_rank(site: SiteView, builder: BuilderView) -> (nat, nat, nat) {
    match builder {
        Rebuild::MakeDir => (8, 0, 0),
        Rebuild::ProbeGlobal => (7, 0, 0),
        Rebuild::FetchGlobal { update } => (6, 0, update_rank(update)),
        Rebuild::ProbePath => (5, 0, 0),
        Rebuild::Follow => (4, 0, 0),
        Rebuild::Links { links, .. } => (
            3,
            (storage::flakes_of(site.storage.packages).len() - links.len()) as nat,
            0,
        ),
        Rebuild::Write { .. } => (2, 0, 0),
        Rebuild::Build => (1, 0, 0),
        Rebuild::Built => (0, 0, 0),
        Rebuild::Failed { .. } => (0, 0, 0),
    }
}

/// How far the part of a command at hand is from its end.
pub open spec fn work_rank(s: SessionView) -> (nat, nat, nat) {
    match s.work {
        WorkView::Store { storer: Storing::Going { rest } } => (0, 0, rest.len()),
        WorkView::Tidy { housekeeping } => housekeeping_rank(housekeeping),
        WorkView::Add { adder } => adder_rank(adder),
        WorkView::Build { builder } => builder_rank(s.site, builder),
        WorkView::Supply { supplier } => (0, supplier.rest.len(), supply_rank(supplier)),
        WorkView::Update { update } => (0, 0, update_rank(update)),
        WorkView::LoadNext => (0, 1, s.queue.len()),
        _ => (0, 0, 0),
    }
}

/// A command is nearer its end than another.
pub open spec fn nearer(a: SessionView, b: SessionView) -> bool {
    ||| before(plan_rank(a.plan), plan_rank(b.plan))
    ||| plan_rank(a.plan) == plan_rank(b.plan) && before(work_rank(a), work_rank(b))
}

/// A part that ends brings the plan nearer its end.
proof fn lemma_part_ends(plan: PlanView, end: PhaseEnd<Seq<Seq<char>>>)
    requires
        plan.phase() is Some,
    ensures
        before(plan_rank(plan.after(end)), plan_rank(plan)),
{
    reveal_with_fuel(listings, 4);
    reveal_with_fuel(weights, 4);
    let rest = plan.route.drop_first();
    assert(weights(plan.route) > weights(rest));
    let built = seq![Phase::Tidy, Phase::Rebuild] + rest;
    assert(built.drop_first() =~= seq![Phase::Rebuild] + rest);
    assert(built.drop_first().drop_first() =~= rest);
    let route = crate::plan::update_env_route(plan.auto_rebuild);
    lemma_no_listing(route);
}

proof fn lemma_no_listing(route: Seq<Phase>)
    requires
        forall|i: int| 0 <= i < route.len() ==> !((#[trigger] route[i]) is ListEnvs),
    ensures
        listings(route) == 0,
    decreases route.len(),
{
    if route.len() > 0 {
        assert(!(route[0] is ListEnvs));
        let rest = route.drop_first();
        assert forall|i: int| 0 <= i < rest.len() implies !((#[trigger] rest[i]) is ListEnvs) by {
            assert(!(route[i + 1] is ListEnvs));
        }
        lemma_no_listing(rest);
    }
}

/// Beginning the part at hand brings a plan no farther from its end.
proof fn lemma_entered_rank(s: SessionView)
    ensures
        plan_rank(s.entered().0.plan) == plan_rank(s.plan) || before(
            plan_rank(s.entered().0.plan),
            plan_rank(s.plan),
        ),
    decreases s.plan.envs.len(), s.plan.route.len(),
{
    if let Some(phase) = s.plan.phase() {
        lemma_part_ends(s.plan, PhaseEnd::Done);
        match phase {
            Phase::AddPackages => {
                if AdderView::facing(s.pkgs, false).0.stage is Finished {
                    lemma_entered_rank(s.past(PhaseEnd::Done));
                }
            },
            Phase::RemovePackages => {
                let storage = removals::all_removed(s.site.storage, s.pkgs);
                lemma_entered_rank(s.holding(storage).past(PhaseEnd::Done));
            },
            Phase::RefreshSources => {
                let items = supply::needed(s.site.sources, s.site.storage.packages);
                if SupplierView::facing(items, true).0.stage is Supplied {
                    lemma_entered_rank(s.past(PhaseEnd::Done));
                }
            },
            _ => {},
        }
    }
}

proof fn lemma_finished_rank(s: SessionView, end: PhaseEnd<Seq<Seq<char>>>)
    requires
        s.plan.phase() is Some,
    ensures
        before(plan_rank(s.finished(end).0.plan), plan_rank(s.plan)),
{
    lemma_part_ends(s.plan, end);
    lemma_entered_rank(s.past(end));
}

/// A reply to what a fetching of a source asks for brings it nearer its end.
proof fn lemma_update_rank(update: SourceUpdate<Seq<char>>, reply: AnswerView)
    requires
        update.wants() is Some,
        update.wants().unwrap().fits(reply),
    ensures
        update_rank(update.after(reply)) < update_rank(update),
{
}

/// A reply to what the search for a package asks for brings it nearer its end.
proof fn lemma_check_rank(check: crate::check::PackageCheck<Seq<char>>, reply: AnswerView)
    requires
        check.wants() is Some,
        check.wants().unwrap().fits(reply),
    ensures
        check_rank(check.after(reply).stage) < check_rank(check.stage),
{
}

/// A reply to what a fetching of sources asks for leaves fewer sources, or brings
/// the first of them nearer its end.
proof fn lemma_supply_rank(
    items: Seq<supply::Item<Seq<char>>>,
    supply: SupplierView,
    reply: AnswerView,
)
    requires
        session_laws::supply_sound(items, supply),
        supply.wants().unwrap().fits(reply),
    ensures
        ({
            let next = supply.after(reply);
            ||| next.stage is Supplied
            ||| next.stage is Failed
            ||| next.rest.len() < supply.rest.len()
            ||| next.rest.len() == supply.rest.len() && supply_rank(next) < supply_rank(supply)
        }),
{
    if let SupplyStage::Fetch { update } = supply.stage {
        lemma_update_rank(update, reply);
    }
}

/// A reply to what the housekeeping asks for brings it nearer its end.
proof fn lemma_housekeeping_rank(
    site: SiteView,
    work: HousekeepingView,
    reply: AnswerView,
)
    requires
        session_laws::housekeeping_sound(site, work),
        work.wants().unwrap().fits(reply),
    ensures
        ({
            let next = work.after(reply);
            ||| next.chore matches Chore::Fetch { supply } && supply.stage is Supplied
            ||| next.chore matches Chore::Fetch { supply } && supply.stage is Failed
            ||| before(housekeeping_rank(next), housekeeping_rank(work))
        }),
{
    if let Chore::Fetch { supply } = work.chore {
        lemma_supply_rank(work.needed, supply, reply);
    }
}

/// A reply to what the adding of packages asks for brings it nearer its end.
proof fn lemma_adder_rank(
    pkgs: Seq<Seq<char>>,
    adder: AdderView,
    storage: StorageView,
    sources: SourcesView,
    reply: AnswerView,
)
    requires
        session_laws::adder_sound(pkgs, sources, adder),
        adder.wants(sources).unwrap().fits(reply),
    ensures
        ({
            let next = adder.moved(storage, sources, reply).adder;
            next.stage is Finished || before(adder_rank(next), adder_rank(adder))
        }),
{
    match adder.stage {
        AddStage::Channel { check, .. } => lemma_check_rank(check, reply),
        AddStage::Flake { check, .. } => lemma_check_rank(check, reply),
        AddStage::Fetch { update, .. } => lemma_update_rank(update, reply),
        AddStage::Verify { check, .. } => lemma_check_rank(check, reply),
        _ => {},
    }
}

/// A reply to what a build asks for brings it nearer its end.
proof fn lemma_builder_rank(site: SiteView, builder: BuilderView, reply: AnswerView)
    requires
        session_laws::builder_sound(site, builder),
        builder.wants(site).unwrap().fits(reply),
    ensures
        ({
            let next = builder.after(site, reply);
            ||| next is Built
            ||| next is Failed
            ||| before(builder_rank(site, next), builder_rank(site, builder))
        }),
{
    if let Rebuild::FetchGlobal { update } = builder {
        lemma_update_rank(update, reply);
    }
}

proof fn lemma_store_nearer(s: SessionView, reply: AnswerView)
    requires
        session_laws::sound(s),
        s.work is Store,
        s.wants().unwrap().fits(reply),
    ensures
        nearer(s.after(reply), s),
{
    lemma_finished_rank(s, PhaseEnd::Done);
    lemma_part_ends(s.plan, PhaseEnd::Failed);
}

proof fn lemma_tidy_nearer(s: SessionView, reply: AnswerView)
    requires
        session_laws::sound(s),
        s.work is Tidy,
        s.wants().unwrap().fits(reply),
    ensures
        nearer(s.after(reply), s),
{
    lemma_housekeeping_rank(s.site, s.work->housekeeping, reply);
    lemma_finished_rank(s, PhaseEnd::Done);
    lemma_part_ends(s.plan, PhaseEnd::Failed);
}

proof fn lemma_add_nearer(s: SessionView, reply: AnswerView)
    requires
        session_laws::sound(s),
        s.work is Add,
        s.wants().unwrap().fits(reply),
    ensures
        nearer(s.after(reply), s),
{
    let adder = s.work->adder;
    let next = adder.moved(s.site.storage, s.site.sources, reply);
    lemma_adder_rank(s.pkgs, adder, s.site.storage, s.site.sources, reply);
    lemma_finished_rank(s.holding(next.storage), PhaseEnd::Done);
    lemma_finished_rank(s.holding(next.storage), PhaseEnd::Lacking);
}

proof fn lemma_build_nearer(s: SessionView, reply: AnswerView)
    requires
        session_laws::sound(s),
        s.work is Build,
        s.wants().unwrap().fits(reply),
    ensures
        nearer(s.after(reply), s),
{
    lemma_builder_rank(s.site, s.work->builder, reply);
    lemma_finished_rank(s, PhaseEnd::Done);
    lemma_part_ends(s.plan, PhaseEnd::Failed);
}

proof fn lemma_supply_nearer(s: SessionView, reply: AnswerView)
    requires
        session_laws::sound(s),
        s.work is Supply,
        s.wants().unwrap().fits(reply),
    ensures
        nearer(s.after(reply), s),
{
    lemma_supply_rank(
        supply::needed(s.site.sources, s.site.storage.packages),
        s.work->supplier,
        reply,
    );
    lemma_finished_rank(s, PhaseEnd::Done);
    lemma_part_ends(s.plan, PhaseEnd::Failed);
}

proof fn lemma_update_nearer(s: SessionView, reply: AnswerView)
    requires
        session_laws::sound(s),
        s.work is Update,
        s.wants().unwrap().fits(reply),
    ensures
        nearer(s.after(reply), s),
{
    lemma_update_rank(s.work->update, reply);
    lemma_finished_rank(s, PhaseEnd::Done);
    lemma_part_ends(s.plan, PhaseEnd::Failed);
}

/// Every reply to what a command asks for brings it nearer its end. The measure
/// decreases, so no command asks forever, whatever comes back.
pub proof fn law_commands_end(s: SessionView, reply: AnswerView)
    requires
        session_laws::sound(s),
        s.wants() is Some,
        s.wants().unwrap().fits(reply),
    ensures
        decreases_to!(
            plan_rank(s.plan).0,
            plan_rank(s.plan).1,
            plan_rank(s.plan).2,
            work_rank(s).0,
            work_rank(s).1,
            work_rank(s).2
            =>
            plan_rank(s.after(reply).plan).0,
            plan_rank(s.after(reply).plan).1,
            plan_rank(s.after(reply).plan).2,
            work_rank(s.after(reply)).0,
            work_rank(s.after(reply)).1,
            work_rank(s.after(reply)).2
        ),
{
    match s.work {
        WorkView::Store { .. } => lemma_store_nearer(s, reply),
        WorkView::Tidy { .. } => lemma_tidy_nearer(s, reply),
        WorkView::Add { .. } => lemma_add_nearer(s, reply),
        WorkView::Build { .. } => lemma_build_nearer(s, reply),
        WorkView::Supply { .. } => lemma_supply_nearer(s, reply),
        WorkView::Update { .. } => lemma_update_nearer(s, reply),
        WorkView::ListEnvs => {
            let envs = crate::session::envs_of(reply->Names_0);
            lemma_finished_rank(s, PhaseEnd::Envs(envs));
            lemma_finished_rank(SessionView { queue: envs, ..s }, PhaseEnd::Done);
        },
        WorkView::Load => {
            let site = SiteView::loaded(s.cache_dir, s.config_dir, s.plan.env, reply->File_0);
            lemma_finished_rank(SessionView { site, ..s }, PhaseEnd::Done);
            lemma_finished_rank(SessionView { site, ..s }, PhaseEnd::Lacking);
        },
        _ => {
            lemma_finished_rank(s, PhaseEnd::Done);
            lemma_finished_rank(s, PhaseEnd::Lacking);
            lemma_part_ends(s.plan, PhaseEnd::Failed);
        },
    }
}

} // verus!
