//! What holds of commands from their beginning to their end.

use crate::additions;
use crate::additions::AdderView;
use crate::effect::{AnswerView, Reply, RequestView};
use crate::housekeeping;
use crate::housekeeping::{Chore, HousekeepingView, Kind};
use crate::plan::{Phase, PhaseEnd};
use crate::removals;
use crate::session;
use crate::session::{SessionView, WorkView};
use crate::session_laws;
use crate::site::SiteView;
use crate::storage::EnvFile;
use crate::storing;
use crate::supply;
use crate::supply::{SupplierView, SupplyStage};
use vstd::prelude::*;
use vstd::seq_lib::*;

verus! {

/// While packages are added, a command goes as the adding of packages does.
proof fn lemma_run_adds(s: SessionView, replies: Seq<AnswerView>)
    requires
        s.work == (WorkView::Add { adder: AdderView::facing(s.pkgs, false).0 }),
        forall|k: int|
            0 <= k <= replies.len() ==> !(additions::added(
                AdderView::facing(s.pkgs, false).0,
                s.site.storage,
                s.site.sources,
                #[trigger] replies.take(k),
            ).0.stage is Finished),
    ensures
        ({
            let now = additions::added(
                AdderView::facing(s.pkgs, false).0,
                s.site.storage,
                s.site.sources,
                replies,
            );
            session_laws::run(s, replies) == s.holding(now.1).at(WorkView::Add { adder: now.0 })
        }),
    decreases replies.len(),
{
    let begun = AdderView::facing(s.pkgs, false).0;
    assert(replies.take(replies.len() as int) =~= replies);
    if replies.len() > 0 {
        let front = replies.drop_last();
        assert forall|k: int| 0 <= k <= front.len() implies !(additions::added(
            begun,
            s.site.storage,
            s.site.sources,
            #[trigger] front.take(k),
        ).0.stage is Finished) by {
            assert(front.take(k) =~= replies.take(k));
        }
        lemma_run_adds(s, front);
    }
}

/// A command that adds packages, from the first of them to the last: what is saved
/// next, in the file of the environment, is the storage with each package that its
/// source confirmed, and those that were left out have brought nothing in; and the
/// command remembers an error exactly where one was left out.
pub proof fn law_whole_addition_is_saved(s: SessionView, replies: Seq<AnswerView>)
    requires
        session_laws::sound(s),
        s.plan.phase() == Some(Phase::AddPackages),
        s.plan.route.len() > 1,
        s.plan.route[1] == Phase::Save,
        s.work == (WorkView::Add { adder: AdderView::facing(s.pkgs, false).0 }),
        forall|k: int|
            0 <= k < replies.len() ==> !(additions::added(
                AdderView::facing(s.pkgs, false).0,
                s.site.storage,
                s.site.sources,
                #[trigger] replies.take(k),
            ).0.stage is Finished),
        additions::added(
            AdderView::facing(s.pkgs, false).0,
            s.site.storage,
            s.site.sources,
            replies,
        ).0.stage is Finished,
    ensures
        ({
            let decided = additions::verdicts(
                AdderView::facing(s.pkgs, false).0,
                s.site.storage,
                s.site.sources,
                replies,
            );
            let saved = additions::with_confirmed(s.site.storage, decided);
            let next = session_laws::run(s, replies);
            &&& decided.len() == s.pkgs.len()
            &&& forall|i: int|
                0 <= i < decided.len() ==> ((#[trigger] decided[i]) matches Some(pkg_ref)
                    ==> additions::stands_for(s.pkgs[i], pkg_ref))
            &&& next.site.storage == saved
            &&& next.work == (WorkView::Store { storer: storing::saving(s.config_dir, saved) })
            &&& saved.disk_path == s.file_of(s.plan.env)
            &&& next.plan.had_errors == (s.plan.had_errors || decided.contains(None))
        }),
{
    let begun = AdderView::facing(s.pkgs, false).0;
    let storage = s.site.storage;
    let sources = s.site.sources;
    additions::law_packages_are_added(s.pkgs, storage, sources, replies);
    assert(replies.len() > 0);
    let front = replies.drop_last();
    assert forall|k: int| 0 <= k <= front.len() implies !(additions::added(
        begun,
        storage,
        sources,
        #[trigger] front.take(k),
    ).0.stage is Finished) by {
        assert(front.take(k) =~= replies.take(k));
    }
    lemma_run_adds(s, front);
    let decided = additions::verdicts(begun, storage, sources, replies);
    additions::law_confirmed_packages_are_held(storage, decided, Seq::empty());
}

/// While the sources are brought in step with the packages, a command goes as the
/// housekeeping does; it goes on to its next part where that ends well, and ends where
/// that fails.
pub proof fn law_tidying_is_the_housekeeping(
    s: SessionView,
    work: HousekeepingView,
    replies: Seq<AnswerView>,
)
    requires
        s.work == (WorkView::Tidy { housekeeping: work }),
        forall|k: int|
            0 <= k < replies.len() ==> (#[trigger] work.after_all(
                replies.take(k),
            )).wants() is Some,
        work.wf(),
    ensures
        session_laws::run(s, replies) == match work.after_all(replies).chore {
            Chore::Fetch { supply } => match supply.stage {
                SupplyStage::Supplied => if replies.len() == 0 {
                    s
                } else {
                    s.finished(PhaseEnd::Done).0
                },
                SupplyStage::Failed { failure } => if replies.len() == 0 {
                    s
                } else {
                    s.failed(failure).0
                },
                _ => s.at(WorkView::Tidy { housekeeping: work.after_all(replies) }),
            },
            _ => s.at(WorkView::Tidy { housekeeping: work.after_all(replies) }),
        },
        work.after_all(replies).wf(),
    decreases replies.len(),
{
    if replies.len() > 0 {
        let front = replies.drop_last();
        assert forall|k: int| 0 <= k < front.len() implies (#[trigger] work.after_all(
            front.take(k),
        )).wants() is Some by {
            assert(front.take(k) =~= replies.take(k));
        }
        law_tidying_is_the_housekeeping(s, work, front);
        assert(replies.take(front.len() as int) =~= front);
        assert(work.after_all(replies.take(front.len() as int)).wants() is Some);
        housekeeping::law_housekeeping_stays_well_formed(work.after_all(front), replies.last());
    }
}

/// A command that has come to the part at hand has not removed anything in it yet.
proof fn lemma_entered_lists_first(s: SessionView)
    ensures
        s.entered().0.work matches WorkView::Tidy { housekeeping } ==> housekeeping.chore is List,
    decreases s.plan.envs.len(), s.plan.route.len(),
{
    if let Some(phase) = s.plan.phase() {
        match phase {
            Phase::AddPackages => {
                if AdderView::facing(s.pkgs, false).0.stage is Finished {
                    lemma_entered_lists_first(s.past(PhaseEnd::Done));
                }
            },
            Phase::RemovePackages => {
                let storage = removals::all_removed(s.site.storage, s.pkgs);
                lemma_entered_lists_first(s.holding(storage).past(PhaseEnd::Done));
            },
            Phase::RefreshSources => {
                let items = supply::needed(s.site.sources, s.site.storage.packages);
                if SupplierView::facing(items, true).0.stage is Supplied {
                    lemma_entered_lists_first(s.past(PhaseEnd::Done));
                }
            },
            _ => {},
        }
    }
}

/// Among some replies to a command is the list `found` of what is in a directory.
pub open spec fn was_listed(
    begun: SessionView,
    replies: Seq<AnswerView>,
    dir: Seq<char>,
    found: Seq<Seq<char>>,
) -> bool {
    exists|j: int|
        0 <= j < replies.len() && session_laws::run(
            begun,
            #[trigger] replies.take(j),
        ).wants() == Some(RequestView::ListDir { path: dir }) && replies[j] == AnswerView::Names(found)
}

/// The roots that are still to be removed are some of those that were listed.
pub open spec fn removes_listed(
    begun: SessionView,
    replies: Seq<AnswerView>,
    dir: Seq<char>,
    unused: Seq<Seq<char>>,
) -> bool {
    exists|found: Seq<Seq<char>>| #[trigger]
        was_listed(begun, replies, dir, found) && forall|i: int|
            0 <= i < unused.len() ==> found.contains(#[trigger] unused[i])
}

/// The roots that a command has still to remove, as not needed, were listed in the
/// directories of its environment.
pub open spec fn removes_what_was_listed(begun: SessionView, replies: Seq<AnswerView>) -> bool {
    let s = session_laws::run(begun, replies);
    s.work matches WorkView::Tidy { housekeeping } ==> (match housekeeping.chore {
        Chore::Probe { kind: Kind::Channel, unused } => removes_listed(
            begun,
            replies,
            s.site.sources.channels_path,
            unused,
        ),
        Chore::Probe { kind: Kind::Flake, unused } => removes_listed(
            begun,
            replies,
            s.site.sources.flakes_path,
            unused,
        ),
        Chore::Remove { kind: Kind::Channel, unused } => removes_listed(
            begun,
            replies,
            s.site.sources.channels_path,
            unused,
        ),
        Chore::Remove { kind: Kind::Flake, unused } => removes_listed(
            begun,
            replies,
            s.site.sources.flakes_path,
            unused,
        ),
        _ => true,
    })
}

/// What was listed stays so, and fewer roots to remove are still some of it.
proof fn lemma_removes_listed_goes_on(
    begun: SessionView,
    replies: Seq<AnswerView>,
    reply: AnswerView,
    dir: Seq<char>,
    unused: Seq<Seq<char>>,
)
    requires
        removes_listed(begun, replies, dir, unused),
    ensures
        removes_listed(begun, replies.push(reply), dir, unused),
        removes_listed(begun, replies.push(reply), dir, housekeeping::behind(unused)),
{
    let found = choose|found: Seq<Seq<char>>| #[trigger]
        was_listed(begun, replies, dir, found) && forall|i: int|
            0 <= i < unused.len() ==> found.contains(#[trigger] unused[i]);
    let j = choose|j: int|
        0 <= j < replies.len() && session_laws::run(
            begun,
            #[trigger] replies.take(j),
        ).wants() == Some(RequestView::ListDir { path: dir }) && replies[j] == AnswerView::Names(found);
    assert(replies.push(reply).take(j) =~= replies.take(j));
    assert(was_listed(begun, replies.push(reply), dir, found));
    let rest = housekeeping::behind(unused);
    assert forall|i: int| 0 <= i < rest.len() implies found.contains(#[trigger] rest[i]) by {
        assert(rest[i] == unused[i + 1]);
        assert(found.contains(unused[i + 1]));
    }
}

proof fn lemma_removes_listed_begins(
    begun: SessionView,
    replies: Seq<AnswerView>,
    dir: Seq<char>,
    found: Seq<Seq<char>>,
    f: spec_fn(Seq<char>) -> bool,
)
    requires
        session_laws::run(begun, replies).wants() == Some(RequestView::ListDir { path: dir }),
    ensures
        removes_listed(begun, replies.push(Reply::Names(found)), dir, found.filter(f)),
{
    let all = replies.push(Reply::Names(found));
    let unused = found.filter(f);
    assert(all.take(replies.len() as int) =~= replies);
    assert(all[replies.len() as int] == AnswerView::Names(found));
    assert(was_listed(begun, all, dir, found));
    assert forall|i: int| 0 <= i < unused.len() implies found.contains(#[trigger] unused[i]) by {
        assert(unused.contains(unused[i]));
        found.lemma_filter_contains_rev(f, unused[i]);
    }
}

/// What is to be removed while the sources are brought in step was listed before.
proof fn lemma_tidying_removes_listed(
    begun: SessionView,
    replies: Seq<AnswerView>,
    work: HousekeepingView,
    reply: AnswerView,
)
    requires
        session_laws::sound(session_laws::run(begun, replies)),
        session_laws::run(begun, replies).work == (WorkView::Tidy { housekeeping: work }),
        removes_what_was_listed(begun, replies),
    ensures
        match work.after(reply).chore {
            Chore::Probe { kind, unused } => removes_listed(
                begun,
                replies.push(reply),
                work.dir(kind),
                unused,
            ),
            Chore::Remove { kind, unused } => removes_listed(
                begun,
                replies.push(reply),
                work.dir(kind),
                unused,
            ),
            _ => true,
        },
{
    match work.chore {
        Chore::List { kind } => {
            if let Reply::Names(found) = reply {
                let f = housekeeping::not_in(work.names(kind));
                lemma_removes_listed_begins(begun, replies, work.dir(kind), found, f);
            }
        },
        Chore::Probe { kind, unused } => {
            lemma_removes_listed_goes_on(begun, replies, reply, work.dir(kind), unused);
        },
        Chore::Remove { kind, unused } => {
            lemma_removes_listed_goes_on(begun, replies, reply, work.dir(kind), unused);
        },
        Chore::Fetch { .. } => {},
    }
}

/// A part that is begun behind a reply has not removed anything yet.
proof fn lemma_next_part_lists_first(s: SessionView, reply: AnswerView)
    requires
        !(s.work is Tidy),
    ensures
        s.after(reply).work matches WorkView::Tidy { housekeeping } ==> housekeeping.chore is List,
{
    match s.work {
        WorkView::Add { adder } => {
            let here = s.holding(adder.moved(s.site.storage, s.site.sources, reply).storage);
            lemma_entered_lists_first(here.past(PhaseEnd::Done));
            lemma_entered_lists_first(here.past(PhaseEnd::Lacking));
        },
        WorkView::ListEnvs => {
            if let Reply::Names(files) = reply {
                let envs = session::envs_of(files);
                lemma_entered_lists_first(s.past(PhaseEnd::Envs(envs)));
                lemma_entered_lists_first(SessionView { queue: envs, ..s }.past(PhaseEnd::Done));
            }
        },
        WorkView::Load => {
            if let Reply::File(file) = reply {
                let site = SiteView::loaded(s.cache_dir, s.config_dir, s.plan.env, file);
                lemma_entered_lists_first(SessionView { site, ..s }.past(PhaseEnd::Done));
                lemma_entered_lists_first(SessionView { site, ..s }.past(PhaseEnd::Lacking));
            }
        },
        _ => {
            lemma_entered_lists_first(s.past(PhaseEnd::Done));
            lemma_entered_lists_first(s.past(PhaseEnd::Lacking));
        },
    }
}

/// Whatever comes back, a command removes as not needed only roots that the directories
/// of its own environment were said to hold.
pub proof fn law_only_listed_roots_are_removed(begun: SessionView, replies: Seq<AnswerView>)
    requires
        session_laws::sound(begun),
        begun.work matches WorkView::Tidy { housekeeping } ==> housekeeping.chore is List,
    ensures
        removes_what_was_listed(begun, replies),
    decreases replies.len(),
{
    if replies.len() > 0 {
        let front = replies.drop_last();
        let reply = replies.last();
        let s = session_laws::run(begun, front);
        law_only_listed_roots_are_removed(begun, front);
        session_laws::lemma_run(begun, front);
        assert(replies =~= front.push(reply));
        if let WorkView::Tidy { housekeeping } = s.work {
            lemma_tidying_removes_listed(begun, front, housekeeping, reply);
            lemma_entered_lists_first(s.past(PhaseEnd::Done));
        } else {
            lemma_next_part_lists_first(s, reply);
        }
    }
}

/// Every command begins so that it has not removed anything yet.
pub proof fn law_commands_begin_without_removal(
    cache_dir: Seq<char>,
    config_dir: Seq<char>,
    env: Seq<char>,
    command: Option<session::Commands<Seq<Seq<char>>, Seq<char>>>,
    no_rebuild: bool,
)
    ensures
        SessionView::begun(cache_dir, config_dir, env, command, no_rebuild).0.work
            matches WorkView::Tidy { housekeeping } ==> housekeeping.chore is List,
{
    let plan = session::plan_of(command, session::env_of(command, env), !no_rebuild);
    lemma_entered_lists_first(
        SessionView {
            cache_dir,
            config_dir,
            pkgs: session::pkgs_of(command),
            json: session::json_of(command),
            plan,
            site: SiteView::loaded(cache_dir, config_dir, plan.env, EnvFile::Missing),
            queue: Seq::empty(),
            listings: Seq::empty(),
            work: WorkView::Ended,
        },
    );
}

} // verus!
