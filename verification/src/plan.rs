//! The commands: the parts that each is made of, and their order.

use crate::notice::Notice;
use crate::text;
use vstd::prelude::*;
use vstd::string::*;

verus! {

/// A command.
#[derive(Clone, Copy, Debug, PartialEq, Eq, Structural)]
pub enum Task {
    Add,
    Rm,
    Rebuild,
    Update,
    Info,
    List,
    Enter,
    UpdateGlobal,
}

/// A part of a command.
#[derive(Clone, Copy, Debug, PartialEq, Eq, Structural)]
pub enum Phase {
    /// The channels of the system are fetched.
    FetchChannels,
    /// The directory of the global sources is made.
    OpenGlobal,
    /// The environments are listed.
    ListEnvs,
    /// The file of the environment is read.
    Load,
    /// The directories of the environment's sources are made.
    OpenSources,
    /// The sources of the environment are brought in step with its packages.
    Tidy,
    /// Packages are added.
    AddPackages,
    /// Packages are removed.
    RemovePackages,
    /// The file of the environment is written.
    Save,
    /// The program that enters the environment may be missing.
    ProbeBinary,
    /// The environment is built.
    Rebuild,
    /// The sources of the environment are fetched anew.
    RefreshSources,
    /// The global nixpkgs is fetched anew.
    UpdateGlobal,
    /// The environment is entered.
    Enter,
    /// What there is to tell is told.
    Report,
}

/// How a part of a command ended.
pub enum PhaseEnd<L> {
    Done,
    /// It was done, but the environment is new, a package could not be added, or
    /// the program that enters the environment is missing.
    Lacking,
    /// It failed.
    Failed,
    /// These environments were listed.
    Envs(L),
}

/// How a command ended.
#[derive(Clone, Copy, Debug, PartialEq, Eq, Structural)]
pub enum Ending {
    /// All its parts were done.
    Finished,
    /// There is no such environment.
    EnvMissing,
    /// The environment is not built, and is not to be.
    NeedsRebuild,
    /// A part failed.
    Aborted,
}

/// A command on its way. `route` holds the parts that are still to come, the one at
/// hand first; `env` is the environment at hand, empty where there is none; `envs`
/// are the environments that are still to be updated.
pub struct Plan {
    pub task: Task,
    pub auto_rebuild: bool,
    pub env: String,
    pub envs: Vec<String>,
    pub had_errors: bool,
    pub route: Vec<Phase>,
    pub ending: Option<Ending>,
}

/// What is known of a command on its way.
pub struct PlanView {
    pub task: Task,
    pub auto_rebuild: bool,
    pub env: Seq<char>,
    pub envs: Seq<Seq<char>>,
    pub had_errors: bool,
    pub route: Seq<Phase>,
    pub ending: Option<Ending>,
}

impl View for Plan {
    type V = PlanView;

    open spec fn view(&self) -> PlanView {
        PlanView {
            task: self.task,
            auto_rebuild: self.auto_rebuild,
            env: self.env@,
            envs: text::texts(self.envs@),
            had_errors: self.had_errors,
            route: self.route@,
            ending: self.ending,
        }
    }
}

/// How a part of a command ended, in specifications.
pub open spec fn end_view(end: PhaseEnd<Vec<String>>) -> PhaseEnd<Seq<Seq<char>>> {
    match end {
        PhaseEnd::Done => PhaseEnd::Done,
        PhaseEnd::Lacking => PhaseEnd::Lacking,
        PhaseEnd::Failed => PhaseEnd::Failed,
        PhaseEnd::Envs(list) => PhaseEnd::Envs(text::texts(list@)),
    }
}

/// Parts, with the build behind them where it is wanted.
pub open spec fn with_build(route: Seq<Phase>, auto_rebuild: bool) -> Seq<Phase> {
    if auto_rebuild {
        route.push(Phase::Rebuild)
    } else {
        route
    }
}

/// The parts of adding packages.
pub open spec fn add_route(auto_rebuild: bool) -> Seq<Phase> {
    with_build(
        seq![
            Phase::Load,
            Phase::OpenSources,
            Phase::OpenGlobal,
            Phase::Tidy,
            Phase::AddPackages,
            Phase::Save,
        ],
        auto_rebuild,
    )
}

/// The parts of removing packages.
pub open spec fn rm_route(auto_rebuild: bool) -> Seq<Phase> {
    with_build(
        seq![
            Phase::Load,
            Phase::OpenSources,
            Phase::OpenGlobal,
            Phase::RemovePackages,
            Phase::Tidy,
            Phase::Save,
        ],
        auto_rebuild,
    )
}

/// The parts of building an environment.
pub open spec fn rebuild_route() -> Seq<Phase> {
    seq![
        Phase::Load,
        Phase::OpenSources,
        Phase::OpenGlobal,
        Phase::Tidy,
        Phase::Rebuild,
    ]
}

/// The parts of entering an environment that is built.
pub open spec fn enter_route() -> Seq<Phase> {
    seq![
        Phase::Load,
        Phase::OpenSources,
        Phase::OpenGlobal,
        Phase::ProbeBinary,
        Phase::Enter,
    ]
}

/// The parts of updating, before any environment.
pub open spec fn update_route(fetch: bool, all: bool) -> Seq<Phase> {
    (if fetch {
        seq![Phase::FetchChannels]
    } else {
        seq![]
    }) + seq![Phase::OpenGlobal] + (if all {
        seq![Phase::ListEnvs]
    } else {
        seq![]
    })
}

/// The parts of updating one environment.
pub open spec fn update_env_route(auto_rebuild: bool) -> Seq<Phase> {
    with_build(
        seq![Phase::Load, Phase::OpenSources, Phase::Tidy, Phase::RefreshSources],
        auto_rebuild,
    )
}

/// Commands that need their environment to be there.
pub open spec fn needs_env(task: Task) -> bool {
    task is Rebuild || task is Update || task is Info || task is Enter
}

impl PlanView {
    /// A command at its beginning.
    pub open spec fn begun(
        task: Task,
        auto_rebuild: bool,
        env: Seq<char>,
        envs: Seq<Seq<char>>,
        route: Seq<Phase>,
    ) -> PlanView {
        PlanView { task, auto_rebuild, env, envs, had_errors: false, route, ending: None }
    }

    /// The part at hand; none where the command has ended.
    pub open spec fn phase(self) -> Option<Phase> {
        if self.ending is None && self.route.len() > 0 {
            Some(self.route.first())
        } else {
            None
        }
    }

    /// The command, ended.
    pub open spec fn ended(self, ending: Ending) -> PlanView {
        PlanView { ending: Some(ending), ..self }
    }

    /// The command with the part at hand behind it: the next part, or the first
    /// part for the next environment, or the end.
    pub open spec fn onward(self) -> PlanView {
        let rest = self.route.drop_first();
        if rest.len() > 0 {
            PlanView { route: rest, ..self }
        } else if self.envs.len() > 0 {
            PlanView {
                env: self.envs.first(),
                envs: self.envs.drop_first(),
                route: update_env_route(self.auto_rebuild),
                ..self
            }
        } else {
            PlanView { route: rest, ending: Some(Ending::Finished), ..self }
        }
    }

    /// The command once the part at hand has ended.
    pub open spec fn after(self, end: PhaseEnd<Seq<Seq<char>>>) -> PlanView {
        match self.phase() {
            None => self,
            Some(phase) => match end {
                PhaseEnd::Done => self.onward(),
                PhaseEnd::Failed => self.ended(Ending::Aborted),
                PhaseEnd::Envs(list) => if phase is ListEnvs && self.task is Update {
                    PlanView { envs: list, ..self }.onward()
                } else {
                    self.onward()
                },
                PhaseEnd::Lacking => match phase {
                    Phase::Load => if needs_env(self.task) {
                        self.ended(Ending::EnvMissing)
                    } else {
                        self.onward()
                    },
                    Phase::AddPackages => PlanView { had_errors: true, ..self }.onward(),
                    Phase::ProbeBinary => if self.auto_rebuild {
                        PlanView {
                            route: seq![Phase::Tidy, Phase::Rebuild] + self.route.drop_first(),
                            ..self
                        }
                    } else {
                        self.ended(Ending::NeedsRebuild)
                    },
                    _ => self.onward(),
                },
            },
        }
    }

    /// The command once `n` parts were done, one behind the other.
    pub open spec fn after_done(self, n: nat) -> PlanView
        decreases n,
    {
        if n == 0 {
            self
        } else {
            self.after(PhaseEnd::Done).after_done((n - 1) as nat)
        }
    }

    /// Nothing is built where that is not wanted.
    pub open spec fn builds_only_if_wanted(self) -> bool {
        self.auto_rebuild || !self.route.contains(Phase::Rebuild)
    }

    /// What is said at the end.
    pub open spec fn closing(self) -> Option<Notice<Seq<char>>> {
        match self.ending {
            Some(Ending::EnvMissing) => Some(Notice::EnvMissing { env: self.env }),
            Some(Ending::NeedsRebuild) => Some(Notice::NeedsRebuild { env: self.env }),
            Some(Ending::Finished) => if self.task is UpdateGlobal {
                Some(Notice::GlobalUpdated)
            } else {
                None
            },
            _ => None,
        }
    }

    /// The command went well: all its parts were done, and no package was left out.
    pub open spec fn went_well(self) -> bool {
        self.ending == Some(Ending::Finished) && !self.had_errors
    }
}

/// What an optional notice says.
pub open spec fn notice_view(notice: Option<Notice<String>>) -> Option<Notice<Seq<char>>> {
    match notice {
        Some(n) => Some(n@),
        None => None,
    }
}

fn begin(task: Task, auto_rebuild: bool, env: &str, route: Vec<Phase>) -> (r: Plan)
    ensures
        r@ == PlanView::begun(task, auto_rebuild, env@, Seq::empty(), route@),
{
    let envs: Vec<String> = Vec::new();
    assert(text::texts(envs@) =~= Seq::empty());
    Plan {
        task,
        auto_rebuild,
        env: env.to_owned(),
        envs,
        had_errors: false,
        route,
        ending: None,
    }
}

/// The plan of adding packages to an environment.
pub fn plan_add(env: &str, auto_rebuild: bool) -> (r: Plan)
    ensures
        r@ == PlanView::begun(Task::Add, auto_rebuild, env@, Seq::empty(), add_route(auto_rebuild)),
{
    let mut route: Vec<Phase> = Vec::new();
    route.push(Phase::Load);
    route.push(Phase::OpenSources);
    route.push(Phase::OpenGlobal);
    route.push(Phase::Tidy);
    route.push(Phase::AddPackages);
    route.push(Phase::Save);
    if auto_rebuild {
        route.push(Phase::Rebuild);
    }
    assert(route@ =~= add_route(auto_rebuild));
    begin(Task::Add, auto_rebuild, env, route)
}

/// The plan of removing packages from an environment.
pub fn plan_rm(env: &str, auto_rebuild: bool) -> (r: Plan)
    ensures
        r@ == PlanView::begun(Task::Rm, auto_rebuild, env@, Seq::empty(), rm_route(auto_rebuild)),
{
    let mut route: Vec<Phase> = Vec::new();
    route.push(Phase::Load);
    route.push(Phase::OpenSources);
    route.push(Phase::OpenGlobal);
    route.push(Phase::RemovePackages);
    route.push(Phase::Tidy);
    route.push(Phase::Save);
    if auto_rebuild {
        route.push(Phase::Rebuild);
    }
    assert(route@ =~= rm_route(auto_rebuild));
    begin(Task::Rm, auto_rebuild, env, route)
}

/// The plan of building an environment.
pub fn plan_rebuild(env: &str) -> (r: Plan)
    ensures
        r@ == PlanView::begun(Task::Rebuild, true, env@, Seq::empty(), rebuild_route()),
{
    let mut route: Vec<Phase> = Vec::new();
    route.push(Phase::Load);
    route.push(Phase::OpenSources);
    route.push(Phase::OpenGlobal);
    route.push(Phase::Tidy);
    route.push(Phase::Rebuild);
    assert(route@ =~= rebuild_route());
    begin(Task::Rebuild, true, env, route)
}

/// The plan of updating an environment, or all of them; the channels of the system
/// are fetched before where `fetch` is set.
pub fn plan_update(env: &str, fetch: bool, all: bool, auto_rebuild: bool) -> (r: Plan)
    ensures
        r@ == PlanView::begun(
            Task::Update,
            auto_rebuild,
            env@,
            if all {
                Seq::empty()
            } else {
                seq![env@]
            },
            update_route(fetch, all),
        ),
{
    let mut route: Vec<Phase> = Vec::new();
    let mut envs: Vec<String> = Vec::new();
    if fetch {
        route.push(Phase::FetchChannels);
    }
    route.push(Phase::OpenGlobal);
    if all {
        route.push(Phase::ListEnvs);
        assert(text::texts(envs@) =~= Seq::empty());
    } else {
        envs.push(env.to_owned());
        assert(text::texts(envs@) =~= seq![env@]);
    }
    assert(route@ =~= update_route(fetch, all));
    Plan {
        task: Task::Update,
        auto_rebuild,
        env: env.to_owned(),
        envs,
        had_errors: false,
        route,
        ending: None,
    }
}

/// The plan of telling of one environment.
pub fn plan_info(env: &str) -> (r: Plan)
    ensures
        r@ == PlanView::begun(
            Task::Info,
            false,
            env@,
            Seq::empty(),
            seq![Phase::Load, Phase::Report],
        ),
{
    let mut route: Vec<Phase> = Vec::new();
    route.push(Phase::Load);
    route.push(Phase::Report);
    assert(route@ =~= seq![Phase::Load, Phase::Report]);
    begin(Task::Info, false, env, route)
}

/// The plan of telling of all environments.
pub fn plan_list() -> (r: Plan)
    ensures
        r@ == PlanView::begun(
            Task::List,
            false,
            Seq::empty(),
            Seq::empty(),
            seq![Phase::ListEnvs, Phase::Report],
        ),
{
    let mut route: Vec<Phase> = Vec::new();
    route.push(Phase::ListEnvs);
    route.push(Phase::Report);
    assert(route@ =~= seq![Phase::ListEnvs, Phase::Report]);
    proof {
        reveal_strlit("");
        assert(""@ =~= Seq::<char>::empty());
    }
    begin(Task::List, false, "", route)
}

/// The plan of updating the global nixpkgs.
pub fn plan_update_global() -> (r: Plan)
    ensures
        r@ == PlanView::begun(
            Task::UpdateGlobal,
            false,
            Seq::empty(),
            Seq::empty(),
            seq![Phase::OpenGlobal, Phase::UpdateGlobal],
        ),
{
    let mut route: Vec<Phase> = Vec::new();
    route.push(Phase::OpenGlobal);
    route.push(Phase::UpdateGlobal);
    assert(route@ =~= seq![Phase::OpenGlobal, Phase::UpdateGlobal]);
    proof {
        reveal_strlit("");
        assert(""@ =~= Seq::<char>::empty());
    }
    begin(Task::UpdateGlobal, false, "", route)
}

/// The plan of entering an environment.
pub fn plan_enter(env: &str, auto_rebuild: bool) -> (r: Plan)
    ensures
        r@ == PlanView::begun(Task::Enter, auto_rebuild, env@, Seq::empty(), enter_route()),
{
    let mut route: Vec<Phase> = Vec::new();
    route.push(Phase::Load);
    route.push(Phase::OpenSources);
    route.push(Phase::OpenGlobal);
    route.push(Phase::ProbeBinary);
    route.push(Phase::Enter);
    assert(route@ =~= enter_route());
    begin(Task::Enter, auto_rebuild, env, route)
}

impl Plan {
    /// The part at hand.
    pub fn phase(&self) -> (r: Option<Phase>)
        ensures
            r == self@.phase(),
    {
        if self.ending.is_none() && self.route.len() > 0 {
            Some(self.route[0])
        } else {
            None
        }
    }

    /// Leaves the part at hand behind.
    fn onward(&mut self)
        requires
            old(self).route@.len() > 0,
        ensures
            final(self)@ == old(self)@.onward(),
    {
        let ghost before = self@;
        self.route.remove(0);
        assert(self.route@ =~= before.route.drop_first());
        if self.route.len() == 0 {
            if self.envs.len() > 0 {
                self.env = self.envs.remove(0);
                assert(text::texts(self.envs@) =~= before.envs.drop_first());
                self.route.push(Phase::Load);
                self.route.push(Phase::OpenSources);
                self.route.push(Phase::Tidy);
                self.route.push(Phase::RefreshSources);
                if self.auto_rebuild {
                    self.route.push(Phase::Rebuild);
                }
                assert(self.route@ =~= update_env_route(before.auto_rebuild));
            } else {
                self.ending = Some(Ending::Finished);
            }
        }
    }

    /// Goes on once the part at hand has ended.
    pub fn advance(&mut self, end: PhaseEnd<Vec<String>>)
        ensures
            final(self)@ == old(self)@.after(end_view(end)),
    {
        let ghost before = self@;
        match self.phase() {
            None => {},
            Some(phase) => match end {
                PhaseEnd::Done => self.onward(),
                PhaseEnd::Failed => {
                    self.ending = Some(Ending::Aborted);
                },
                PhaseEnd::Envs(list) => {
                    if phase == Phase::ListEnvs && self.task == Task::Update {
                        self.envs = list;
                    }
                    self.onward();
                },
                PhaseEnd::Lacking => match phase {
                    Phase::Load => match self.task {
                        Task::Rebuild | Task::Update | Task::Info | Task::Enter => {
                            self.ending = Some(Ending::EnvMissing);
                        },
                        _ => self.onward(),
                    },
                    Phase::AddPackages => {
                        self.had_errors = true;
                        self.onward();
                    },
                    Phase::ProbeBinary => if self.auto_rebuild {
                        self.route.remove(0);
                        self.route.insert(0, Phase::Rebuild);
                        self.route.insert(0, Phase::Tidy);
                        assert(self.route@ =~= seq![Phase::Tidy, Phase::Rebuild]
                            + before.route.drop_first());
                    } else {
                        self.ending = Some(Ending::NeedsRebuild);
                    },
                    _ => self.onward(),
                },
            },
        }
    }

    /// What to say at the end.
    pub fn close(&self) -> (r: Option<Notice<String>>)
        ensures
            notice_view(r) == self@.closing(),
    {
        match self.ending {
            Some(Ending::EnvMissing) => Some(Notice::EnvMissing { env: self.env.clone() }),
            Some(Ending::NeedsRebuild) => Some(Notice::NeedsRebuild { env: self.env.clone() }),
            Some(Ending::Finished) => if self.task == Task::UpdateGlobal {
                Some(Notice::GlobalUpdated)
            } else {
                None
            },
            _ => None,
        }
    }

    /// The exit code of the tool.
    pub fn exit_code(&self) -> (r: i32)
        ensures
            r == if self@.went_well() {
                0i32
            } else {
                1i32
            },
    {
        match self.ending {
            Some(Ending::Finished) => if self.had_errors {
                1
            } else {
                0
            },
            _ => 1,
        }
    }
}

/// The commands begin without a build where none is wanted.
pub proof fn law_commands_begin_without_unwanted_build(
    auto_rebuild: bool,
    fetch: bool,
    all: bool,
)
    requires
        !auto_rebuild,
    ensures
        !add_route(auto_rebuild).contains(Phase::Rebuild),
        !rm_route(auto_rebuild).contains(Phase::Rebuild),
        !update_route(fetch, all).contains(Phase::Rebuild),
        !update_env_route(auto_rebuild).contains(Phase::Rebuild),
        !enter_route().contains(Phase::Rebuild),
{
}

/// Where no build is wanted, none comes up, however the parts of a command end.
pub proof fn law_no_unwanted_build(plan: PlanView, end: PhaseEnd<Seq<Seq<char>>>)
    requires
        plan.builds_only_if_wanted(),
    ensures
        plan.after(end).builds_only_if_wanted(),
        plan.after(end).auto_rebuild == plan.auto_rebuild,
{
    if plan.phase() is Some && !plan.auto_rebuild {
        let rest = plan.route.drop_first();
        if rest.contains(Phase::Rebuild) {
            let i = choose|i: int| 0 <= i < rest.len() && rest[i] == Phase::Rebuild;
            assert(plan.route[i + 1] == Phase::Rebuild);
        }
        assert(!update_env_route(false).contains(Phase::Rebuild));
    }
}

/// A command that needs its environment does nothing more where that is missing.
pub proof fn law_missing_env_stops(plan: PlanView)
    requires
        plan.phase() == Some(Phase::Load),
        needs_env(plan.task),
    ensures
        plan.after(PhaseEnd::Lacking).phase() is None,
        plan.after(PhaseEnd::Lacking).closing() == Some(
            Notice::<Seq<char>>::EnvMissing { env: plan.env },
        ),
        !plan.after(PhaseEnd::Lacking).went_well(),
{
}

/// Where a part fails, nothing more is done, and the command did not go well.
pub proof fn law_failure_stops(plan: PlanView)
    requires
        plan.phase() is Some,
    ensures
        plan.after(PhaseEnd::Failed).phase() is None,
        !plan.after(PhaseEnd::Failed).went_well(),
{
}

/// A command that has ended stays so.
pub proof fn law_ended_stays_ended(plan: PlanView, end: PhaseEnd<Seq<Seq<char>>>)
    requires
        plan.phase() is None,
    ensures
        plan.after(end) == plan,
{
}

/// A package that could not be added makes the command fail at its end, whatever
/// comes behind.
pub proof fn law_errors_show_at_the_end(plan: PlanView, end: PhaseEnd<Seq<Seq<char>>>)
    ensures
        plan.phase() == Some(Phase::AddPackages) ==> plan.after(PhaseEnd::Lacking).had_errors,
        plan.had_errors ==> plan.after(end).had_errors,
        plan.had_errors ==> !plan.went_well(),
{
}

/// Where all its parts are done, the first environment of those to update is
/// followed by the next.
pub proof fn law_every_env_is_updated(plan: PlanView)
    requires
        plan.phase() is Some,
        plan.envs.len() > 0,
    ensures
        ({
            let next = plan.after_done(plan.route.len());
            &&& next.env == plan.envs.first()
            &&& next.envs == plan.envs.drop_first()
            &&& next.route == update_env_route(plan.auto_rebuild)
            &&& next.ending is None
        }),
    decreases plan.route.len(),
{
    reveal_with_fuel(PlanView::after_done, 2);
    if plan.route.len() > 1 {
        law_every_env_is_updated(plan.after(PhaseEnd::Done));
    }
}

/// Where all its parts are done and no environment is left, a command has finished.
pub proof fn law_all_done_is_finished(plan: PlanView)
    requires
        plan.phase() is Some,
        plan.envs.len() == 0,
    ensures
        plan.after_done(plan.route.len()).ending == Some(Ending::Finished),
        plan.after_done(plan.route.len()).had_errors == plan.had_errors,
    decreases plan.route.len(),
{
    reveal_with_fuel(PlanView::after_done, 2);
    if plan.route.len() > 1 {
        law_all_done_is_finished(plan.after(PhaseEnd::Done));
    }
}

/// Whatever packages are added or removed are saved: the file is written behind
/// the change, and only the build comes behind that.
pub proof fn law_changes_are_saved(auto_rebuild: bool)
    ensures
        add_route(auto_rebuild)[4] == Phase::AddPackages,
        add_route(auto_rebuild)[5] == Phase::Save,
        rm_route(auto_rebuild)[3] == Phase::RemovePackages,
        rm_route(auto_rebuild)[5] == Phase::Save,
        forall|i: int|
            6 <= i < add_route(auto_rebuild).len() ==> add_route(auto_rebuild)[i]
                == Phase::Rebuild,
        forall|i: int|
            6 <= i < rm_route(auto_rebuild).len() ==> rm_route(auto_rebuild)[i] == Phase::Rebuild,
{
}

} // verus!
