//! What a command has done where it has finished, whatever came back on its way.

use crate::additions::AdderView;
use crate::effect::{AnswerView, Effect, Reply};
use crate::paths;
use crate::plan;
use crate::plan::{Ending, Phase, PhaseEnd, PlanView};
use crate::rebuild::Rebuild;
use crate::removals;
use crate::session;
use crate::session::{Commands, SessionView, WorkView};
use crate::session_laws;
use crate::site::SiteView;
use crate::storage::StorageView;
use crate::storing;
use crate::storing::Storing;
use crate::supply;
use crate::supply::SupplierView;
use vstd::prelude::*;

verus! {

/// Nothing comes behind the entering of an environment.
pub open spec fn enters_last(route: Seq<Phase>) -> bool {
    forall|i: int| 0 <= i < route.len() - 1 ==> #[trigger] route[i] != Phase::Enter
}

/// A command on one environment.
pub open spec fn on_one(s: SessionView, env: Seq<char>) -> bool {
    &&& s.plan.envs.len() == 0
    &&& s.plan.env == env
    &&& !(s.plan.task is Update)
    &&& enters_last(s.plan.route)
}

/// A part is still to come.
pub open spec fn ahead(plan: PlanView, part: Phase) -> bool {
    plan.ending is None && plan.route.contains(part)
}

/// A command has not left a part out: that is still to come, or the command has ended
/// otherwise than by finishing.
spec fn owes(s: SessionView, part: Phase, env: Seq<char>) -> bool {
    &&& on_one(s, env)
    &&& s.plan.ending is None ==> ahead(s.plan, part)
    &&& s.plan.ending != Some(Ending::Finished)
}

/// Parts that need nothing from outside to be done.
spec fn may_be_done_at_once(part: Phase) -> bool {
    part is AddPackages || part is RemovePackages || part is RefreshSources
}

proof fn lemma_drop_first_keeps(route: Seq<Phase>, part: Phase)
    requires
        route.contains(part),
        route.first() != part,
    ensures
        route.drop_first().contains(part),
{
    let i = choose|i: int| 0 <= i < route.len() && route[i] == part;
    assert(route.drop_first()[i - 1] == part);
}

proof fn lemma_past_owes(s: SessionView, end: PhaseEnd<Seq<Seq<char>>>, part: Phase, env: Seq<char>)
    requires
        on_one(s, env),
        ahead(s.plan, part),
        s.plan.route.first() != part,
    ensures
        owes(s.past(end), part, env),
{
    lemma_drop_first_keeps(s.plan.route, part);
    let rest = s.plan.route.drop_first();
    let i = choose|i: int| 0 <= i < rest.len() && rest[i] == part;
    let more = seq![Phase::Tidy, Phase::Rebuild] + rest;
    assert(more[i + 2] == part);
    assert forall|k: int| 0 <= k < rest.len() - 1 implies #[trigger] rest[k] != Phase::Enter by {
        assert(s.plan.route[k + 1] != Phase::Enter);
    }
    assert(enters_last(rest));
    assert forall|k: int| 0 <= k < more.len() - 1 implies #[trigger] more[k] != Phase::Enter by {
        if k >= 2 {
            assert(rest[k - 2] != Phase::Enter);
        }
    }
    assert(enters_last(more));
}

proof fn lemma_entered_owes(s: SessionView, part: Phase, env: Seq<char>)
    requires
        owes(s, part, env),
        !may_be_done_at_once(part),
    ensures
        owes(s.entered().0, part, env),
    decreases s.plan.envs.len(), s.plan.route.len(),
{
    if let Some(phase) = s.plan.phase() {
        match phase {
            Phase::AddPackages => {
                if AdderView::facing(s.pkgs, false).0.stage is Finished {
                    lemma_past_owes(s, PhaseEnd::Done, part, env);
                    lemma_entered_owes(s.past(PhaseEnd::Done), part, env);
                }
            },
            Phase::RemovePackages => {
                let here = s.holding(removals::all_removed(s.site.storage, s.pkgs));
                lemma_past_owes(here, PhaseEnd::Done, part, env);
                lemma_entered_owes(here.past(PhaseEnd::Done), part, env);
            },
            Phase::RefreshSources => {
                let items = supply::needed(s.site.sources, s.site.storage.packages);
                if SupplierView::facing(items, true).0.stage is Supplied {
                    lemma_past_owes(s, PhaseEnd::Done, part, env);
                    lemma_entered_owes(s.past(PhaseEnd::Done), part, env);
                }
            },
            _ => {},
        }
    }
}

proof fn lemma_finished_owes(
    s: SessionView,
    end: PhaseEnd<Seq<Seq<char>>>,
    part: Phase,
    env: Seq<char>,
)
    requires
        on_one(s, env),
        ahead(s.plan, part),
        s.plan.route.first() != part,
        !may_be_done_at_once(part),
    ensures
        owes(s.finished(end).0, part, env),
{
    lemma_past_owes(s, end, part, env);
    lemma_entered_owes(s.past(end), part, env);
}

/// While other parts are at hand, a part is not left out.
proof fn lemma_other_parts_owe(s: SessionView, reply: AnswerView, part: Phase, env: Seq<char>)
    requires
        session_laws::sound(s),
        on_one(s, env),
        ahead(s.plan, part),
        s.plan.route.first() != part,
        !may_be_done_at_once(part),
    ensures
        owes(s.after(reply), part, env),
{
    match s.work {
        WorkView::Add { adder } => {
            let here = s.holding(adder.moved(s.site.storage, s.site.sources, reply).storage);
            lemma_finished_owes(here, PhaseEnd::Done, part, env);
            lemma_finished_owes(here, PhaseEnd::Lacking, part, env);
        },
        WorkView::ListEnvs => {
            if let Reply::Names(files) = reply {
                let envs = session::envs_of(files);
                lemma_finished_owes(SessionView { queue: envs, ..s }, PhaseEnd::Done, part, env);
            }
        },
        WorkView::Load => {
            if let Reply::File(file) = reply {
                let site = SiteView::loaded(s.cache_dir, s.config_dir, s.plan.env, file);
                let here = SessionView { site, ..s };
                lemma_finished_owes(here, PhaseEnd::Done, part, env);
                lemma_finished_owes(here, PhaseEnd::Lacking, part, env);
            }
        },
        _ => {
            lemma_finished_owes(s, PhaseEnd::Done, part, env);
            lemma_finished_owes(s, PhaseEnd::Lacking, part, env);
        },
    }
}

/// Among some replies to a command is the one that a build of the environment ended well.
pub open spec fn was_built(begun: SessionView, replies: Seq<AnswerView>, env: Seq<char>) -> bool {
    exists|j: int|
        #![trigger replies.take(j)]
        0 <= j < replies.len() && builds(
            session_laws::run(begun, replies.take(j)),
            replies[j],
            env,
        )
}

/// The environment is built by nix, and the reply is that this went well.
pub open spec fn builds(s: SessionView, reply: AnswerView, env: Seq<char>) -> bool {
    &&& s.site.env == env
    &&& s.wants() matches Some(Effect::Run { invocation })
    &&& invocation.program == "nix-build"@
    &&& reply matches Reply::Ran(Some(ran))
    &&& ran.success
}

/// Among some replies to a command is the one that the file of the environment was
/// written, with the packages at hand.
pub open spec fn was_saved(begun: SessionView, replies: Seq<AnswerView>, env: Seq<char>) -> bool {
    exists|j: int|
        #![trigger replies.take(j)]
        0 <= j < replies.len() && saves(
            session_laws::run(begun, replies.take(j)),
            replies[j],
            env,
        )
}

/// The packages at hand are written to the file of the environment, and the reply is
/// that this went well.
pub open spec fn saves(s: SessionView, reply: AnswerView, env: Seq<char>) -> bool {
    &&& s.plan.phase() == Some(Phase::Save)
    &&& s.wants() matches Some(Effect::WriteFile { path, content })
    &&& path == paths::joined_path(s.config_dir, "env."@ + env)
    &&& content == s.site.storage.written()
    &&& reply == AnswerView::Stored(None)
}

/// A command that has a build to come and has finished has built its environment.
pub proof fn law_finished_command_has_built(
    begun: SessionView,
    replies: Seq<AnswerView>,
    env: Seq<char>,
)
    requires
        session_laws::sound(begun),
        on_one(begun, env),
        ahead(begun.plan, Phase::Rebuild),
    ensures
        session_laws::run(begun, replies).plan.ending == Some(Ending::Finished) ==> was_built(
            begun,
            replies,
            env,
        ),
{
    lemma_built_or_owed(begun, replies, env);
}

proof fn lemma_building_step(s: SessionView, reply: AnswerView, env: Seq<char>)
    requires
        session_laws::sound(s),
        on_one(s, env),
        s.plan.phase() == Some(Phase::Rebuild),
    ensures
        builds(s, reply, env) || owes(s.after(reply), Phase::Rebuild, env),
{
    assert(s.plan.route[0] == Phase::Rebuild);
    let builder = s.work->builder;
    if builder.after(s.site, reply) is Built {
        assert(builder is Build);
    }
}

proof fn lemma_built_stays(
    begun: SessionView,
    replies: Seq<AnswerView>,
    reply: AnswerView,
    env: Seq<char>,
)
    requires
        was_built(begun, replies, env),
    ensures
        was_built(begun, replies.push(reply), env),
{
    let j = choose|j: int|
        #![trigger replies.take(j)]
        0 <= j < replies.len() && builds(
            session_laws::run(begun, replies.take(j)),
            replies[j],
            env,
        );
    assert(replies.push(reply).take(j) =~= replies.take(j));
}

#[verifier::rlimit(40)]
proof fn lemma_built_or_owed(begun: SessionView, replies: Seq<AnswerView>, env: Seq<char>)
    requires
        session_laws::sound(begun),
        on_one(begun, env),
        ahead(begun.plan, Phase::Rebuild),
    ensures
        was_built(begun, replies, env) || owes(
            session_laws::run(begun, replies),
            Phase::Rebuild,
            env,
        ),
    decreases replies.len(),
{
    if replies.len() > 0 {
        let front = replies.drop_last();
        let reply = replies.last();
        let s = session_laws::run(begun, front);
        lemma_built_or_owed(begun, front, env);
        session_laws::lemma_run(begun, front);
        assert(replies.take(front.len() as int) =~= front);
        assert(replies =~= front.push(reply));
        if was_built(begun, front, env) {
            lemma_built_stays(begun, front, reply, env);
        } else if s.plan.ending is None {
            if s.plan.route.first() != Phase::Rebuild {
                lemma_other_parts_owe(s, reply, Phase::Rebuild, env);
            } else {
                lemma_building_step(s, reply, env);
            }
        } else {
            session_laws::law_ended_commands_rest(s, reply);
        }
    }
}

/// A command that has its environment to save and has finished has saved it.
pub proof fn law_finished_command_has_saved(
    begun: SessionView,
    replies: Seq<AnswerView>,
    env: Seq<char>,
)
    requires
        session_laws::sound(begun),
        on_one(begun, env),
        ahead(begun.plan, Phase::Save),
    ensures
        session_laws::run(begun, replies).plan.ending == Some(Ending::Finished) ==> was_saved(
            begun,
            replies,
            env,
        ),
{
    lemma_saved_or_owed(begun, replies, env);
}

proof fn lemma_saving_step(s: SessionView, reply: AnswerView, env: Seq<char>)
    requires
        session_laws::sound(s),
        on_one(s, env),
        s.plan.phase() == Some(Phase::Save),
    ensures
        saves(s, reply, env) || owes(s.after(reply), Phase::Save, env),
{
    assert(s.plan.route[0] == Phase::Save);
    let all = storing::saving(s.config_dir, s.site.storage)->rest;
    let rest = s.work->storer->rest;
    assert(rest.first() == all[all.len() - rest.len()]);
    match s.work->storer.after(reply) {
        Storing::Going { rest: behind } => {
            if behind.len() == 0 {
                assert(rest.len() == 1);
                assert(saves(s, reply, env));
            }
        },
        Storing::Failed { .. } => {},
    }
}

proof fn lemma_saved_stays(
    begun: SessionView,
    replies: Seq<AnswerView>,
    reply: AnswerView,
    env: Seq<char>,
)
    requires
        was_saved(begun, replies, env),
    ensures
        was_saved(begun, replies.push(reply), env),
{
    let j = choose|j: int|
        #![trigger replies.take(j)]
        0 <= j < replies.len() && saves(
            session_laws::run(begun, replies.take(j)),
            replies[j],
            env,
        );
    assert(replies.push(reply).take(j) =~= replies.take(j));
}

#[verifier::rlimit(40)]
proof fn lemma_saved_or_owed(begun: SessionView, replies: Seq<AnswerView>, env: Seq<char>)
    requires
        session_laws::sound(begun),
        on_one(begun, env),
        ahead(begun.plan, Phase::Save),
    ensures
        was_saved(begun, replies, env) || owes(
            session_laws::run(begun, replies),
            Phase::Save,
            env,
        ),
    decreases replies.len(),
{
    if replies.len() > 0 {
        let front = replies.drop_last();
        let reply = replies.last();
        let s = session_laws::run(begun, front);
        lemma_saved_or_owed(begun, front, env);
        session_laws::lemma_run(begun, front);
        assert(replies.take(front.len() as int) =~= front);
        assert(replies =~= front.push(reply));
        if was_saved(begun, front, env) {
            lemma_saved_stays(begun, front, reply, env);
        } else if s.plan.ending is None {
            if s.plan.route.first() != Phase::Save {
                lemma_other_parts_owe(s, reply, Phase::Save, env);
            } else {
                lemma_saving_step(s, reply, env);
            }
        } else {
            session_laws::law_ended_commands_rest(s, reply);
        }
    }
}

/// Whatever comes back: where packages were added or removed and the command has
/// finished, the environment was saved, and it was built unless that was turned down.
/// Where the command was to build, it has built.
pub proof fn law_finished_commands_saved_and_built(
    cache_dir: Seq<char>,
    config_dir: Seq<char>,
    env: Seq<char>,
    command: Option<Commands<Seq<Seq<char>>, Seq<char>>>,
    no_rebuild: bool,
    replies: Seq<AnswerView>,
)
    ensures
        ({
            let begun = SessionView::begun(cache_dir, config_dir, env, command, no_rebuild).0;
            let end = session_laws::run(begun, replies);
            let changes = match command {
                Some(Commands::Add { .. }) => true,
                Some(Commands::Rm { .. }) => true,
                _ => false,
            };
            let builds = command matches Some(Commands::Rebuild);
            end.plan.ending == Some(Ending::Finished) ==> {
                &&& changes ==> was_saved(begun, replies, env)
                &&& changes && !no_rebuild ==> was_built(begun, replies, env)
                &&& builds ==> was_built(begun, replies, env)
            }
        }),
{
    let begun = SessionView::begun(cache_dir, config_dir, env, command, no_rebuild).0;
    session_laws::law_commands_begin_sound(cache_dir, config_dir, env, command, no_rebuild);
    match command {
        Some(Commands::Add { .. }) => {
            assert(begun.plan.route[5] == Phase::Save);
            law_finished_command_has_saved(begun, replies, env);
            if !no_rebuild {
                assert(begun.plan.route[6] == Phase::Rebuild);
                law_finished_command_has_built(begun, replies, env);
            }
        },
        Some(Commands::Rm { .. }) => {
            assert(begun.plan.route[5] == Phase::Save);
            law_finished_command_has_saved(begun, replies, env);
            if !no_rebuild {
                assert(begun.plan.route[6] == Phase::Rebuild);
                law_finished_command_has_built(begun, replies, env);
            }
        },
        Some(Commands::Rebuild) => {
            assert(begun.plan.route[4] == Phase::Rebuild);
            law_finished_command_has_built(begun, replies, env);
        },
        _ => {},
    }
}

/// Among some replies to a command is the one that the program of the environment is
/// there.
pub open spec fn was_found(begun: SessionView, replies: Seq<AnswerView>, env: Seq<char>) -> bool {
    exists|j: int|
        #![trigger replies.take(j)]
        0 <= j < replies.len() && finds(
            session_laws::run(begun, replies.take(j)),
            replies[j],
            env,
        )
}

/// The program of the environment is looked for, and the reply is that it is there.
pub open spec fn finds(s: SessionView, reply: AnswerView, env: Seq<char>) -> bool {
    &&& s.site.env == env
    &&& s.wants() matches Some(Effect::Exists { path })
    &&& s.site.entrance() matches Effect::Enter { program, .. }
    &&& path == program
    &&& reply == AnswerView::Found(true)
}

proof fn lemma_found_stays(
    begun: SessionView,
    replies: Seq<AnswerView>,
    reply: AnswerView,
    env: Seq<char>,
)
    requires
        was_found(begun, replies, env),
    ensures
        was_found(begun, replies.push(reply), env),
{
    let j = choose|j: int|
        #![trigger replies.take(j)]
        0 <= j < replies.len() && finds(
            session_laws::run(begun, replies.take(j)),
            replies[j],
            env,
        );
    assert(replies.push(reply).take(j) =~= replies.take(j));
}

/// The program is there, or the build comes up where it is wanted, or the command ends.
proof fn lemma_probing_step(s: SessionView, reply: AnswerView, env: Seq<char>)
    requires
        session_laws::sound(s),
        on_one(s, env),
        s.plan.phase() == Some(Phase::ProbeBinary),
    ensures
        finds(s, reply, env) || owes(s.after(reply), Phase::ProbeBinary, env) || owes(
            s.after(reply),
            Phase::Rebuild,
            env,
        ),
{
    assert(s.plan.route[0] == Phase::ProbeBinary);
    if reply == AnswerView::Found(false) && s.plan.auto_rebuild {
        let rest = s.plan.route.drop_first();
        let more = seq![Phase::Tidy, Phase::Rebuild] + rest;
        assert(more[1] == Phase::Rebuild);
        assert forall|k: int| 0 <= k < more.len() - 1 implies #[trigger] more[k]
            != Phase::Enter by {
            if k >= 2 {
                assert(s.plan.route[k - 1] != Phase::Enter);
            }
        }
    }
}

/// How a command that enters an environment stands: the program was found, or was built,
/// or one of these is still to come.
spec fn entitled(begun: SessionView, replies: Seq<AnswerView>, env: Seq<char>) -> bool {
    let s = session_laws::run(begun, replies);
    ||| was_found(begun, replies, env)
    ||| was_built(begun, replies, env)
    ||| owes(s, Phase::ProbeBinary, env)
    ||| owes(s, Phase::Rebuild, env)
}

/// One reply more to a command that still has to find the program or to build it.
proof fn lemma_entitled_step(s: SessionView, reply: AnswerView, env: Seq<char>)
    requires
        session_laws::sound(s),
        owes(s, Phase::ProbeBinary, env) || owes(s, Phase::Rebuild, env),
    ensures
        finds(s, reply, env) || builds(s, reply, env) || owes(
            s.after(reply),
            Phase::ProbeBinary,
            env,
        ) || owes(s.after(reply), Phase::Rebuild, env),
{
    if s.plan.ending is Some {
        session_laws::law_ended_commands_rest(s, reply);
    } else if s.plan.route.first() == Phase::ProbeBinary {
        lemma_probing_step(s, reply, env);
    } else if s.plan.route.first() == Phase::Rebuild {
        lemma_building_step(s, reply, env);
    } else if ahead(s.plan, Phase::ProbeBinary) {
        lemma_other_parts_owe(s, reply, Phase::ProbeBinary, env);
    } else {
        lemma_other_parts_owe(s, reply, Phase::Rebuild, env);
    }
}

#[verifier::rlimit(40)]
proof fn lemma_entitled(begun: SessionView, replies: Seq<AnswerView>, env: Seq<char>)
    requires
        session_laws::sound(begun),
        on_one(begun, env),
        ahead(begun.plan, Phase::ProbeBinary),
    ensures
        entitled(begun, replies, env),
    decreases replies.len(),
{
    if replies.len() > 0 {
        let front = replies.drop_last();
        let reply = replies.last();
        lemma_entitled(begun, front, env);
        session_laws::lemma_run(begun, front);
        assert(replies.take(front.len() as int) =~= front);
        assert(replies =~= front.push(reply));
        if was_found(begun, front, env) {
            lemma_found_stays(begun, front, reply, env);
        } else if was_built(begun, front, env) {
            lemma_built_stays(begun, front, reply, env);
        } else {
            lemma_entitled_step(session_laws::run(begun, front), reply, env);
        }
    }
}

/// Where an environment is entered, nothing is owed any more.
proof fn lemma_entering_owes_nothing(s: SessionView, part: Phase, env: Seq<char>)
    requires
        s.plan.phase() == Some(Phase::Enter),
        part != Phase::Enter,
    ensures
        !owes(s, part, env),
{
    if owes(s, part, env) {
        let i = choose|i: int| 0 <= i < s.plan.route.len() && s.plan.route[i] == part;
        assert(s.plan.route[0] == Phase::Enter);
    }
}

proof fn lemma_entering_begins(
    cache_dir: Seq<char>,
    config_dir: Seq<char>,
    env: Seq<char>,
    no_rebuild: bool,
)
    ensures
        ({
            let begun = SessionView::begun(cache_dir, config_dir, env, None, no_rebuild).0;
            session_laws::sound(begun) && on_one(begun, env) && ahead(
                begun.plan,
                Phase::ProbeBinary,
            )
        }),
{
    let begun = SessionView::begun(cache_dir, config_dir, env, None, no_rebuild).0;
    session_laws::law_commands_begin_sound(cache_dir, config_dir, env, None, no_rebuild);
    assert(begun.plan.route[3] == Phase::ProbeBinary);
}

/// Whatever comes back, an environment is entered only where its program was found, or
/// where it was built on the way.
pub proof fn law_only_built_environments_are_entered(
    cache_dir: Seq<char>,
    config_dir: Seq<char>,
    env: Seq<char>,
    no_rebuild: bool,
    replies: Seq<AnswerView>,
)
    ensures
        ({
            let begun = SessionView::begun(cache_dir, config_dir, env, None, no_rebuild).0;
            let s = session_laws::run(begun, replies);
            s.plan.phase() == Some(Phase::Enter) ==> was_found(begun, replies, env) || was_built(
                begun,
                replies,
                env,
            )
        }),
{
    let begun = SessionView::begun(cache_dir, config_dir, env, None, no_rebuild).0;
    let s = session_laws::run(begun, replies);
    lemma_entering_begins(cache_dir, config_dir, env, no_rebuild);
    lemma_entitled(begun, replies, env);
    if s.plan.phase() == Some(Phase::Enter) {
        lemma_entering_owes_nothing(s, Phase::ProbeBinary, env);
        lemma_entering_owes_nothing(s, Phase::Rebuild, env);
    }
}

/// None of some packages is held.
pub open spec fn without_all(storage: StorageView, pkgs: Seq<Seq<char>>) -> bool {
    forall|i: int| 0 <= i < pkgs.len() ==> !storage.packages.contains(#[trigger] pkgs[i])
}

/// A command that removes packages is on its way: the parts to come are the last of its
/// own, and the packages are gone once it is past their removal.
spec fn removing(s: SessionView) -> bool {
    let all = plan::rm_route(s.plan.auto_rebuild);
    &&& s.plan.task is Rm
    &&& s.plan.envs.len() == 0
    &&& s.plan.ending is None ==> {
        &&& 0 < s.plan.route.len() <= all.len()
        &&& s.plan.route == all.skip(all.len() - s.plan.route.len())
        &&& s.plan.route.len() + 4 <= all.len() ==> without_all(s.site.storage, s.pkgs)
    }
}

proof fn lemma_rm_route(auto_rebuild: bool)
    ensures
        ({
            let all = plan::rm_route(auto_rebuild);
            &&& all.len() == if auto_rebuild {
                7int
            } else {
                6int
            }
            &&& all[0] == Phase::Load
            &&& all[1] == Phase::OpenSources
            &&& all[2] == Phase::OpenGlobal
            &&& all[3] == Phase::RemovePackages
            &&& all[4] == Phase::Tidy
            &&& all[5] == Phase::Save
            &&& auto_rebuild ==> all[6] == Phase::Rebuild
        }),
{
}

/// A command that removes packages comes to one of its parts.
proof fn lemma_removing_enters(t: SessionView, k: int)
    requires
        t.plan.task is Rm,
        t.plan.envs.len() == 0,
        t.plan.ending is None,
        0 <= k < plan::rm_route(t.plan.auto_rebuild).len(),
        t.plan.route == plan::rm_route(t.plan.auto_rebuild).skip(k),
        k >= 4 ==> without_all(t.site.storage, t.pkgs),
    ensures
        removing(t.entered().0),
    decreases 10 - k,
{
    let all = plan::rm_route(t.plan.auto_rebuild);
    lemma_rm_route(t.plan.auto_rebuild);
    assert(t.plan.route.first() == all[k]);
    if k == 3 {
        let gone = removals::all_removed(t.site.storage, t.pkgs);
        assert forall|i: int| 0 <= i < t.pkgs.len() implies !gone.packages.contains(
            #[trigger] t.pkgs[i],
        ) by {
            removals::law_named_package_is_gone(t.site.storage, t.pkgs, i);
        }
        assert(t.plan.route.drop_first() =~= all.skip(4));
        lemma_removing_enters(t.holding(gone).past(PhaseEnd::Done), 4);
    }
}

/// A command that removes packages goes on from one of its parts to the next.
proof fn lemma_removing_finished(s: SessionView, end: PhaseEnd<Seq<Seq<char>>>)
    requires
        removing(s),
        s.plan.ending is None,
        s.plan.phase() != Some(Phase::RemovePackages),
        end is Done || end is Lacking,
    ensures
        removing(s.finished(end).0),
{
    let all = plan::rm_route(s.plan.auto_rebuild);
    let k = all.len() - s.plan.route.len();
    lemma_rm_route(s.plan.auto_rebuild);
    assert(s.plan.route.first() == all[k]);
    assert(s.plan.route.drop_first() =~= all.skip(k + 1));
    if k + 1 < all.len() {
        lemma_removing_enters(s.past(end), k + 1);
    }
}

proof fn lemma_removing_goes_on(s: SessionView, reply: AnswerView)
    requires
        session_laws::sound(s),
        removing(s),
    ensures
        removing(s.after(reply)),
{
    if s.plan.ending is None {
        let all = plan::rm_route(s.plan.auto_rebuild);
        let k = all.len() - s.plan.route.len();
        lemma_rm_route(s.plan.auto_rebuild);
        assert(s.plan.route.first() == all[k]);
        if let (WorkView::Load, Reply::File(file)) = (s.work, reply) {
            let site = SiteView::loaded(s.cache_dir, s.config_dir, s.plan.env, file);
            lemma_removing_finished(SessionView { site, ..s }, PhaseEnd::Done);
            lemma_removing_finished(SessionView { site, ..s }, PhaseEnd::Lacking);
        } else {
            lemma_removing_finished(s, PhaseEnd::Done);
            lemma_removing_finished(s, PhaseEnd::Lacking);
        }
    } else {
        session_laws::law_ended_commands_rest(s, reply);
    }
}

/// Whatever comes back, what a command that removes packages tidies up for, saves and
/// builds holds none of the packages that it names.
pub proof fn law_removed_packages_are_gone(
    cache_dir: Seq<char>,
    config_dir: Seq<char>,
    env: Seq<char>,
    pkgs: Seq<Seq<char>>,
    no_rebuild: bool,
    replies: Seq<AnswerView>,
)
    ensures
        ({
            let rm = Some(Commands::Rm { pkgs });
            let begun = SessionView::begun(cache_dir, config_dir, env, rm, no_rebuild).0;
            let s = session_laws::run(begun, replies);
            let phase = s.plan.phase();
            phase == Some(Phase::Tidy) || phase == Some(Phase::Save) || phase == Some(
                Phase::Rebuild,
            ) ==> without_all(s.site.storage, pkgs)
        }),
{
    let rm = Some(Commands::Rm { pkgs });
    let begun = SessionView::begun(cache_dir, config_dir, env, rm, no_rebuild).0;
    session_laws::law_commands_begin_sound(cache_dir, config_dir, env, rm, no_rebuild);
    let all = plan::rm_route(!no_rebuild);
    assert(all.skip(0) =~= all);
    lemma_run_removing(begun, replies);
    session_laws::lemma_run(begun, replies);
    let s = session_laws::run(begun, replies);
    if s.plan.ending is None {
        assert(s.plan.route.first() == all[all.len() - s.plan.route.len()]);
        lemma_rm_route(!no_rebuild);
    }
}

proof fn lemma_run_removing(begun: SessionView, replies: Seq<AnswerView>)
    requires
        session_laws::sound(begun),
        removing(begun),
    ensures
        removing(session_laws::run(begun, replies)),
    decreases replies.len(),
{
    if replies.len() > 0 {
        let front = replies.drop_last();
        lemma_run_removing(begun, front);
        session_laws::lemma_run(begun, front);
        lemma_removing_goes_on(session_laws::run(begun, front), replies.last());
    }
}

} // verus!
