//! What commands are made of, and what they have done once they have finished.

use crate::effect::{AnswerView, Effect, Reply, RequestView};
use crate::notice::Notice;
use crate::paths;
use crate::plan;
use crate::plan::{Phase, PhaseEnd, PlanView};
use crate::process;
use crate::session;
use crate::session::{Commands, SessionView, WorkView};
use crate::session_laws;
use crate::source_laws;
use crate::storage;
use crate::storage::EnvFile;
use crate::storage_laws;
use crate::supply::Item;
use vstd::prelude::*;

verus! {

/// Both parts come up, and never the second before the first.
pub open spec fn in_turn(route: Seq<Phase>, first: Phase, second: Phase) -> bool {
    &&& route.contains(first)
    &&& route.contains(second)
    &&& forall|i: int, j: int|
        0 <= i < route.len() && 0 <= j < route.len() && #[trigger] route[i] == first
            && #[trigger] route[j] == second ==> i < j
}

/// A build comes up exactly where it is wanted, and then as the last part.
pub open spec fn ends_with_build(route: Seq<Phase>, wanted: bool) -> bool {
    &&& route.len() > 0
    &&& route.last() == Phase::Rebuild <==> wanted
    &&& route.contains(Phase::Rebuild) <==> wanted
}

/// Adding packages and removing them both end with the build exactly where that was not
/// turned down; that is all that turning it down changes. A command that builds by its
/// name heeds nothing else.
pub proof fn law_wanted_build_is_the_last_part(
    cache_dir: Seq<char>,
    config_dir: Seq<char>,
    env: Seq<char>,
    pkgs: Seq<Seq<char>>,
    no_rebuild: bool,
)
    ensures
        ({
            let add = Some(Commands::Add { pkgs });
            let with = SessionView::begun(cache_dir, config_dir, env, add, no_rebuild).0.plan;
            let without = SessionView::begun(cache_dir, config_dir, env, add, true).0.plan;
            &&& ends_with_build(with.route, !no_rebuild)
            &&& !no_rebuild ==> with.route == without.route.push(Phase::Rebuild)
        }),
        ({
            let rm = Some(Commands::Rm { pkgs });
            let with = SessionView::begun(cache_dir, config_dir, env, rm, no_rebuild).0.plan;
            let without = SessionView::begun(cache_dir, config_dir, env, rm, true).0.plan;
            &&& ends_with_build(with.route, !no_rebuild)
            &&& !no_rebuild ==> with.route == without.route.push(Phase::Rebuild)
        }),
        ({
            let build = Some(Commands::<Seq<Seq<char>>, Seq<char>>::Rebuild);
            let begun = SessionView::begun(cache_dir, config_dir, env, build, no_rebuild);
            &&& ends_with_build(begun.0.plan.route, true)
            &&& begun == SessionView::begun(cache_dir, config_dir, env, build, true)
        }),
{
    let adding = plan::add_route(!no_rebuild);
    let removing = plan::rm_route(!no_rebuild);
    let building = plan::rebuild_route();
    assert(!no_rebuild ==> adding[6] == Phase::Rebuild);
    assert(!no_rebuild ==> removing[6] == Phase::Rebuild);
    assert(building[4] == Phase::Rebuild);
}

/// The parts of updating the next environment end with its build exactly where builds
/// are wanted.
pub proof fn law_updated_environments_are_built(plan: PlanView)
    requires
        plan.phase() is Some,
        plan.route.len() == 1,
        plan.envs.len() > 0,
    ensures
        ({
            let next = plan.after(PhaseEnd::Done);
            &&& next.env == plan.envs.first()
            &&& next.phase() == Some(Phase::Load)
            &&& ends_with_build(next.route, plan.auto_rebuild)
            &&& in_turn(next.route, Phase::Load, Phase::OpenSources)
            &&& in_turn(next.route, Phase::OpenSources, Phase::Tidy)
            &&& in_turn(next.route, Phase::Tidy, Phase::RefreshSources)
            &&& plan.auto_rebuild ==> in_turn(next.route, Phase::RefreshSources, Phase::Rebuild)
        }),
{
    let next = plan.after(PhaseEnd::Done);
    assert(next.route[0] == Phase::Load);
    assert(next.route[1] == Phase::OpenSources);
    assert(next.route[2] == Phase::Tidy);
    assert(next.route[3] == Phase::RefreshSources);
    assert(plan.auto_rebuild ==> next.route[4] == Phase::Rebuild);
}

/// Every command that changes, builds or enters an environment has its file read first
/// and its directories made before anything lies in them. Packages are added behind the
/// tidying, and removed before it, so that it finds the packages of before and of after;
/// both are saved behind, and the build comes behind the saving.
pub proof fn law_parts_come_in_turn(
    cache_dir: Seq<char>,
    config_dir: Seq<char>,
    env: Seq<char>,
    pkgs: Seq<Seq<char>>,
    name: Option<Seq<char>>,
)
    ensures
        ({
            let add = Some(Commands::Add { pkgs });
            let route = SessionView::begun(cache_dir, config_dir, env, add, false).0.plan.route;
            &&& in_turn(route, Phase::Load, Phase::OpenSources)
            &&& in_turn(route, Phase::OpenSources, Phase::OpenGlobal)
            &&& in_turn(route, Phase::OpenGlobal, Phase::Tidy)
            &&& in_turn(route, Phase::Tidy, Phase::AddPackages)
            &&& in_turn(route, Phase::AddPackages, Phase::Save)
            &&& in_turn(route, Phase::Save, Phase::Rebuild)
            &&& !route.contains(Phase::RemovePackages)
        }),
        ({
            let rm = Some(Commands::Rm { pkgs });
            let route = SessionView::begun(cache_dir, config_dir, env, rm, false).0.plan.route;
            &&& in_turn(route, Phase::Load, Phase::OpenSources)
            &&& in_turn(route, Phase::OpenSources, Phase::OpenGlobal)
            &&& in_turn(route, Phase::OpenGlobal, Phase::RemovePackages)
            &&& in_turn(route, Phase::RemovePackages, Phase::Tidy)
            &&& in_turn(route, Phase::Tidy, Phase::Save)
            &&& in_turn(route, Phase::Save, Phase::Rebuild)
            &&& !route.contains(Phase::AddPackages)
        }),
        ({
            let build = Some(Commands::Rebuild);
            let route = SessionView::begun(cache_dir, config_dir, env, build, false).0.plan.route;
            &&& in_turn(route, Phase::Load, Phase::OpenSources)
            &&& in_turn(route, Phase::OpenSources, Phase::OpenGlobal)
            &&& in_turn(route, Phase::OpenGlobal, Phase::Tidy)
            &&& in_turn(route, Phase::Tidy, Phase::Rebuild)
        }),
        ({
            let enter = Some(Commands::Enter { name });
            let route = SessionView::begun(cache_dir, config_dir, env, enter, false).0.plan.route;
            &&& in_turn(route, Phase::Load, Phase::OpenSources)
            &&& in_turn(route, Phase::OpenSources, Phase::OpenGlobal)
            &&& in_turn(route, Phase::OpenGlobal, Phase::ProbeBinary)
            &&& in_turn(route, Phase::ProbeBinary, Phase::Enter)
            &&& route.last() == Phase::Enter
        }),
{
    lemma_adding_in_turn();
    lemma_removing_in_turn();
    lemma_building_in_turn();
    lemma_entering_in_turn();
}

proof fn lemma_adding_in_turn()
    ensures
        ({
            let route = plan::add_route(true);
            &&& in_turn(route, Phase::Load, Phase::OpenSources)
            &&& in_turn(route, Phase::OpenSources, Phase::OpenGlobal)
            &&& in_turn(route, Phase::OpenGlobal, Phase::Tidy)
            &&& in_turn(route, Phase::Tidy, Phase::AddPackages)
            &&& in_turn(route, Phase::AddPackages, Phase::Save)
            &&& in_turn(route, Phase::Save, Phase::Rebuild)
            &&& !route.contains(Phase::RemovePackages)
        }),
{
    let route = plan::add_route(true);
    assert(route[0] == Phase::Load && route[1] == Phase::OpenSources);
    assert(route[2] == Phase::OpenGlobal && route[3] == Phase::Tidy);
    assert(route[4] == Phase::AddPackages && route[5] == Phase::Save);
    assert(route[6] == Phase::Rebuild);
}

proof fn lemma_removing_in_turn()
    ensures
        ({
            let route = plan::rm_route(true);
            &&& in_turn(route, Phase::Load, Phase::OpenSources)
            &&& in_turn(route, Phase::OpenSources, Phase::OpenGlobal)
            &&& in_turn(route, Phase::OpenGlobal, Phase::RemovePackages)
            &&& in_turn(route, Phase::RemovePackages, Phase::Tidy)
            &&& in_turn(route, Phase::Tidy, Phase::Save)
            &&& in_turn(route, Phase::Save, Phase::Rebuild)
            &&& !route.contains(Phase::AddPackages)
        }),
{
    let route = plan::rm_route(true);
    assert(route[0] == Phase::Load && route[1] == Phase::OpenSources);
    assert(route[2] == Phase::OpenGlobal && route[3] == Phase::RemovePackages);
    assert(route[4] == Phase::Tidy && route[5] == Phase::Save);
    assert(route[6] == Phase::Rebuild);
}

proof fn lemma_building_in_turn()
    ensures
        ({
            let route = plan::rebuild_route();
            &&& in_turn(route, Phase::Load, Phase::OpenSources)
            &&& in_turn(route, Phase::OpenSources, Phase::OpenGlobal)
            &&& in_turn(route, Phase::OpenGlobal, Phase::Tidy)
            &&& in_turn(route, Phase::Tidy, Phase::Rebuild)
        }),
{
    let route = plan::rebuild_route();
    assert(route[0] == Phase::Load && route[1] == Phase::OpenSources);
    assert(route[2] == Phase::OpenGlobal && route[3] == Phase::Tidy);
    assert(route[4] == Phase::Rebuild);
}

proof fn lemma_entering_in_turn()
    ensures
        ({
            let route = plan::enter_route();
            &&& in_turn(route, Phase::Load, Phase::OpenSources)
            &&& in_turn(route, Phase::OpenSources, Phase::OpenGlobal)
            &&& in_turn(route, Phase::OpenGlobal, Phase::ProbeBinary)
            &&& in_turn(route, Phase::ProbeBinary, Phase::Enter)
            &&& route.last() == Phase::Enter
        }),
{
    let route = plan::enter_route();
    assert(route[0] == Phase::Load && route[1] == Phase::OpenSources);
    assert(route[2] == Phase::OpenGlobal && route[3] == Phase::ProbeBinary);
    assert(route[4] == Phase::Enter);
}

/// What each command asks for first: those on one environment for its own file, the
/// list for the directory of such files, and the others as they were told.
pub proof fn law_first_requests(
    cache_dir: Seq<char>,
    config_dir: Seq<char>,
    env: Seq<char>,
    command: Option<Commands<Seq<Seq<char>>, Seq<char>>>,
    no_rebuild: bool,
)
    ensures
        ({
            let begun = SessionView::begun(cache_dir, config_dir, env, command, no_rebuild);
            let file = |name: Seq<char>| paths::joined_path(config_dir, "env."@ + name);
            let global = paths::joined_path(cache_dir, "global"@);
            match command {
                Some(Commands::List { .. }) => begun.0.wants() == Some(
                    RequestView::ListDir { path: config_dir },
                ),
                Some(Commands::UpdateGlobal) => begun.0.wants() == Some(
                    RequestView::CreateDir { path: global },
                ),
                Some(Commands::Update { fetch, .. }) => if fetch {
                    &&& begun.0.wants() matches Some(Effect::Run { invocation })
                    &&& invocation.program == "nix-channel"@
                    &&& invocation.args.contains("--update"@)
                    &&& begun.1 == seq![Notice::<Seq<char>>::FetchingChannels]
                } else {
                    begun.0.wants() == Some(RequestView::CreateDir { path: global })
                },
                Some(Commands::Enter { name: Some(name) }) => begun.0.wants() == Some(
                    RequestView::ReadEnv { path: file(name) },
                ),
                _ => begun.0.wants() == Some(RequestView::ReadEnv { path: file(env) }),
            }
        }),
{
    match command {
        Some(Commands::Update { fetch, all }) => {
            let route = plan::update_route(fetch, all);
            assert(fetch ==> route[0] == Phase::FetchChannels);
            assert(!fetch ==> route[0] == Phase::OpenGlobal);
            assert(process::channels_fetch().args[0] == "--update"@);
        },
        _ => {},
    }
}

/// To enter an environment by its name is to enter it as the one at hand.
pub proof fn law_entering_by_name(
    cache_dir: Seq<char>,
    config_dir: Seq<char>,
    env: Seq<char>,
    name: Seq<char>,
    no_rebuild: bool,
)
    ensures
        SessionView::begun(
            cache_dir,
            config_dir,
            env,
            Some(Commands::Enter { name: Some(name) }),
            no_rebuild,
        ) == SessionView::begun(cache_dir, config_dir, name, None, no_rebuild),
        SessionView::begun(
            cache_dir,
            config_dir,
            env,
            Some(Commands::Enter { name: None }),
            no_rebuild,
        ) == SessionView::begun(cache_dir, config_dir, env, None, no_rebuild),
{
}

/// Where there is no such environment, building it, telling of it and entering it end at
/// once, with a word of the environment that is missing.
pub proof fn law_missing_environment_ends(
    cache_dir: Seq<char>,
    config_dir: Seq<char>,
    env: Seq<char>,
    json: bool,
    no_rebuild: bool,
)
    ensures
        ends_for_want_of(
            SessionView::begun(cache_dir, config_dir, env, Some(Commands::Rebuild), no_rebuild).0,
            env,
        ),
        ends_for_want_of(
            SessionView::begun(
                cache_dir,
                config_dir,
                env,
                Some(Commands::Info { json }),
                no_rebuild,
            ).0,
            env,
        ),
        ends_for_want_of(
            SessionView::begun(cache_dir, config_dir, env, None, no_rebuild).0,
            env,
        ),
{
    let build = Some(Commands::<Seq<Seq<char>>, Seq<char>>::Rebuild);
    let info = Some(Commands::<Seq<Seq<char>>, Seq<char>>::Info { json });
    lemma_want_ends(SessionView::begun(cache_dir, config_dir, env, build, no_rebuild).0);
    lemma_want_ends(SessionView::begun(cache_dir, config_dir, env, info, no_rebuild).0);
    lemma_want_ends(SessionView::begun(cache_dir, config_dir, env, None, no_rebuild).0);
}

/// Updating ends at the first environment that is missing, with a word of it.
pub proof fn law_missing_environment_ends_an_update(s: SessionView)
    requires
        s.work is Load,
        s.plan.phase() == Some(Phase::Load),
        s.plan.task is Update,
    ensures
        ends_for_want_of(s, s.plan.env),
{
    lemma_want_ends(s);
}

proof fn lemma_want_ends(s: SessionView)
    requires
        s.work is Load,
        s.plan.phase() == Some(Phase::Load),
        plan::needs_env(s.plan.task),
    ensures
        ends_for_want_of(s, s.plan.env),
{
}

/// Where there is no such environment, adding packages and removing them go on all the
/// same.
pub proof fn law_missing_environment_may_be_changed(
    cache_dir: Seq<char>,
    config_dir: Seq<char>,
    env: Seq<char>,
    command: Option<Commands<Seq<Seq<char>>, Seq<char>>>,
    no_rebuild: bool,
)
    requires
        command matches Some(Commands::Add { .. }) || command matches Some(Commands::Rm { .. }),
    ensures
        ({
            let begun = SessionView::begun(cache_dir, config_dir, env, command, no_rebuild).0;
            let next = begun.after(Reply::File(EnvFile::Missing));
            next.wants() is Some && next.site.storage.packages.len() == 0
        }),
{
    let begun = SessionView::begun(cache_dir, config_dir, env, command, no_rebuild).0;
    assert(begun.plan.route[1] == Phase::OpenSources);
    assert(begun.plan.route.drop_first()[0] == Phase::OpenSources);
}

/// A command ends where the file of the environment is missing, and says so.
pub open spec fn ends_for_want_of(s: SessionView, env: Seq<char>) -> bool {
    let next = s.moved(Reply::File(EnvFile::Missing));
    &&& next.0.wants() is None
    &&& next.1 == seq![Notice::EnvMissing { env }]
    &&& !next.0.plan.went_well()
}

/// Where the program of an environment is there, the environment is entered by it. Where
/// it is not, it is tidied up and built first, and entered only behind that; or that
/// is refused, with a word of the environment, where builds are not wanted.
pub proof fn law_unbuilt_environment_is_built_first(s: SessionView)
    requires
        session_laws::sound(s),
        s.plan.phase() == Some(Phase::ProbeBinary),
        s.plan.route.len() == 2,
        s.plan.route[1] == Phase::Enter,
    ensures
        s.wants() matches Some(Effect::Exists { path }) && ({
            let there = s.after(Reply::Found(true));
            let missing = s.moved(Reply::Found(false));
            &&& there.wants() matches Some(Effect::Enter { program, nix_dev, .. })
            &&& program == path
            &&& nix_dev == s.plan.env
            &&& s.plan.auto_rebuild ==> missing.0.plan.route == seq![
                Phase::Tidy,
                Phase::Rebuild,
                Phase::Enter,
            ] && missing.0.plan.ending is None
            &&& !s.plan.auto_rebuild ==> {
                &&& missing.0.wants() is None
                &&& missing.1 == seq![Notice::NeedsRebuild { env: s.plan.env }]
                &&& !missing.0.plan.went_well()
            }
        }),
{
    assert(seq![Phase::Tidy, Phase::Rebuild] + s.plan.route.drop_first() =~= seq![
        Phase::Tidy,
        Phase::Rebuild,
        Phase::Enter,
    ]);
}

/// Updating takes the environment at hand, or all whose files are there; the channels
/// are fetched before exactly where that was asked for.
pub proof fn law_updating(
    cache_dir: Seq<char>,
    config_dir: Seq<char>,
    env: Seq<char>,
    fetch: bool,
    all: bool,
    no_rebuild: bool,
)
    ensures
        ({
            let update = Some(Commands::Update { fetch, all });
            let plan = SessionView::begun(cache_dir, config_dir, env, update, no_rebuild).0.plan;
            &&& plan.auto_rebuild == !no_rebuild
            &&& plan.route.contains(Phase::FetchChannels) <==> fetch
            &&& plan.route.first() == Phase::FetchChannels <==> fetch
            &&& plan.route.contains(Phase::OpenGlobal)
            &&& plan.route.contains(Phase::ListEnvs) <==> all
            &&& plan.route.last() == Phase::ListEnvs <==> all
            &&& plan.envs == if all {
                Seq::<Seq<char>>::empty()
            } else {
                seq![env]
            }
        }),
{
    let route = plan::update_route(fetch, all);
    if fetch {
        assert(route[0] == Phase::FetchChannels && route[1] == Phase::OpenGlobal);
        assert(all ==> route[2] == Phase::ListEnvs);
    } else {
        assert(route[0] == Phase::OpenGlobal);
        assert(all ==> route[1] == Phase::ListEnvs);
    }
}

/// A file of the configuration directory stands for an environment exactly where its
/// name is `env.` and that of the environment.
pub proof fn law_environments_are_those_with_files(files: Seq<Seq<char>>, env: Seq<char>)
    ensures
        session::envs_of(files).contains(env) <==> files.contains("env."@ + env),
{
    let f = |name: Seq<char>| paths::env_of_file(name);
    let envs = session::envs_of(files);
    if envs.contains(env) {
        files.lemma_filter_map_contains(f, env);
        let name = choose|name: Seq<char>| #[trigger] files.contains(name) && f(name) == Some(env);
        let n = "env."@.len() as int;
        assert(name =~= "env."@ + env) by {
            assert("env."@.is_prefix_of(name));
            assert(name.take(n) == "env."@);
            assert(name.skip(n) == env);
            assert(name =~= name.take(n) + name.skip(n));
        }
    }
    if files.contains("env."@ + env) {
        paths::law_env_file_names_env(env);
        let i = choose|i: int| 0 <= i < files.len() && files[i] == "env."@ + env;
        assert(f(files[i]) == Some(env));
        storage_laws::lemma_filter_map_takes(files, f, i);
    }
}

/// The directories that are made before anything is fetched are those that the roots of
/// the environment's sources, and of the global nixpkgs, lie in.
pub proof fn law_directories_are_made_for_the_roots(s: SessionView, name: Seq<char>)
    requires
        s.plan.ending is None,
        s.plan.route.len() > 0,
    ensures
        s.plan.route.first() == Phase::OpenSources ==> {
            let first = s.entered().0;
            let second = first.after(Reply::Stored(None));
            &&& first.wants() matches Some(Effect::CreateDir { path: channels })
            &&& second.wants() matches Some(Effect::CreateDir { path: flakes })
            &&& s.site.sources.channel_root(name) == paths::joined_path(channels, name)
            &&& s.site.sources.flake_root(name) == paths::joined_path(flakes, name)
        },
        s.plan.route.first() == Phase::OpenGlobal ==> (s.entered().0.wants() matches Some(
            Effect::CreateDir { path },
        ) && s.site.global.update().root == paths::joined_path(path, "nixpkgs"@)),
{
}

/// Tidying up is done for the packages at hand: it looks for roots that no package
/// needs, and fetches the sources that packages name.
pub proof fn law_tidying_is_for_the_packages_at_hand(
    s: SessionView,
    name: Seq<char>,
    item: Item<Seq<char>>,
)
    requires
        s.plan.phase() == Some(Phase::Tidy),
    ensures
        s.entered().0.work matches WorkView::Tidy { housekeeping } && ({
            let packages = s.site.storage.packages;
            &&& housekeeping.sources == s.site.sources
            &&& housekeeping.channels.contains(name) <==> source_laws::needs_channel(
                packages,
                name,
            )
            &&& housekeeping.flakes.contains(name) <==> source_laws::needs_flake(packages, name)
            &&& housekeeping.needed.contains(item) <==> source_laws::is_needed(
                item,
                s.site.sources,
                packages,
            )
            &&& s.entered().0.wants() == Some(
                RequestView::ListDir { path: s.site.sources.channels_path },
            )
        }),
{
    source_laws::law_sources_of_packages(s.site.storage.packages, name);
    source_laws::law_named_sources_are_fetched(s.site.sources, s.site.storage.packages, item);
}

/// An update fetches every source that a package of the environment names, even where it
/// is there: nothing is looked for first, and all of them are ahead. The environment is
/// told.
pub proof fn law_update_fetches_every_source_anew(s: SessionView, item: Item<Seq<char>>)
    requires
        s.plan.phase() == Some(Phase::RefreshSources),
        source_laws::is_needed(item, s.site.sources, s.site.storage.packages),
    ensures
        s.entered().0.work matches WorkView::Supply { supplier } && ({
            &&& supplier.refresh
            &&& supplier.rest.contains(item)
            &&& supplier.stage is Fetch
            &&& s.entered().0.wants() matches Some(Effect::Run { .. })
            &&& s.entered().1[0] == Notice::UpdatingEnv { env: s.plan.env }
        }),
{
    source_laws::law_named_sources_are_fetched(s.site.sources, s.site.storage.packages, item);
}

/// The file that is written at the end is the one that was read at the beginning, and
/// the packages at hand are those that it was found to hold.
pub proof fn law_file_written_is_the_file_read(s: SessionView, text: Seq<char>)
    requires
        s.work is Load,
        s.plan.phase() == Some(Phase::Load),
        s.plan.route.len() > 1,
        s.plan.route[1] == Phase::OpenSources,
    ensures
        s.wants() matches Some(Effect::ReadEnv { path }) && ({
            let found = s.after(Reply::File(EnvFile::Text(text)));
            let saving = SessionView {
                plan: PlanView { route: seq![Phase::Save], ..found.plan },
                ..found
            }.entered().0;
            &&& found.site.storage.packages == storage::listed_in(text)
            &&& found.site.env == s.plan.env
            &&& saving.wants() == Some(RequestView::CreateDir { path: s.config_dir })
            &&& saving.after(Reply::Stored(None)).wants() == Some(
                RequestView::WriteFile { path, content: found.site.storage.written() },
            )
        }),
{
    let rest = s.plan.route.drop_first();
    assert(rest[0] == Phase::OpenSources);
}

/// Where all environments are to be updated, those whose files are there are updated one
/// behind the other, from the first to the last.
pub proof fn law_all_environments_are_updated(s: SessionView, files: Seq<Seq<char>>)
    requires
        s.work is ListEnvs,
        s.plan.phase() == Some(Phase::ListEnvs),
        s.plan.route.len() == 1,
        s.plan.task is Update,
    ensures
        ({
            let envs = session::envs_of(files);
            let next = s.after(Reply::Names(files));
            &&& envs.len() > 0 ==> {
                &&& next.plan.env == envs[0]
                &&& next.plan.envs == envs.skip(1)
                &&& next.plan.phase() == Some(Phase::Load)
            }
            &&& envs.len() == 0 ==> next.plan.went_well() == !s.plan.had_errors
                && next.wants() is None
        }),
{
    let envs = session::envs_of(files);
    if envs.len() > 0 {
        assert(envs.drop_first() =~= envs.skip(1));
    }
}

/// Whatever comes back, a command stays with the packages that it was given, with the
/// form of its report, and with the wish for builds.
pub proof fn law_commands_keep_what_they_were_told(
    cache_dir: Seq<char>,
    config_dir: Seq<char>,
    env: Seq<char>,
    command: Option<Commands<Seq<Seq<char>>, Seq<char>>>,
    no_rebuild: bool,
    replies: Seq<AnswerView>,
)
    ensures
        ({
            let begun = SessionView::begun(cache_dir, config_dir, env, command, no_rebuild).0;
            let s = session_laws::run(begun, replies);
            &&& s.cache_dir == cache_dir
            &&& s.config_dir == config_dir
            &&& match command {
                Some(Commands::Add { pkgs }) => s.pkgs == pkgs && s.plan.auto_rebuild
                    == !no_rebuild,
                Some(Commands::Rm { pkgs }) => s.pkgs == pkgs && s.plan.auto_rebuild
                    == !no_rebuild,
                Some(Commands::Rebuild) => s.plan.auto_rebuild,
                Some(Commands::Info { json }) => s.json == json,
                Some(Commands::List { json }) => s.json == json,
                Some(Commands::Update { .. }) => s.plan.auto_rebuild == !no_rebuild,
                Some(Commands::UpdateGlobal) => true,
                Some(Commands::Enter { .. }) => s.plan.auto_rebuild == !no_rebuild,
                None => s.plan.auto_rebuild == !no_rebuild,
            }
        }),
{
    let begun = SessionView::begun(cache_dir, config_dir, env, command, no_rebuild).0;
    session_laws::law_commands_begin_sound(cache_dir, config_dir, env, command, no_rebuild);
    session_laws::lemma_run(begun, replies);
    if let Some(Commands::Update { fetch, all }) = command {
        let route = plan::update_route(fetch, all);
        assert(fetch ==> route[0] == Phase::FetchChannels);
        assert(!fetch ==> route[0] == Phase::OpenGlobal);
    }
}

} // verus!
