//! A command from its beginning to its end: what is asked for, one thing at a time,
//! and what is made of the replies.

use crate::additions;
use crate::additions::{AddStage, Adder, AdderView};
use crate::effect;
use crate::effect::{Answer, AnswerView, Effect, Reply, Request, RequestView};
use crate::failure::Failure;
use crate::housekeeping;
use crate::housekeeping::{Chore, Housekeeping, HousekeepingView};
use crate::notice;
use crate::notice::Notice;
use crate::paths;
use crate::plan;
use crate::plan::{Phase, PhaseEnd, Plan, PlanView, Task};
use crate::process;
use crate::rebuild;
use crate::rebuild::{Builder, BuilderView, Rebuild};
use crate::removals;
use crate::report;
use crate::report::{Listing, ListingView};
use crate::site::{Site, SiteView};
use crate::storage;
use crate::storage::{EnvFile, StorageView};
use crate::storing;
use crate::storing::{Storer, StorerView, Storing};
use crate::supply;
use crate::supply::{Supplier, SupplierView, Supply, SupplyStage};
use crate::text;
use crate::update::{SourceUpdate, UpdateStage};
use vstd::prelude::*;
use vstd::string::*;

verus! {

/// The commands of the tool.
pub enum Commands<L, T> {
    /// Add one or more packages.
    Add { pkgs: L },
    /// Remove one or more packages.
    Rm { pkgs: L },
    /// Rebuild an environment.
    Rebuild,
    /// Update an environment, or all of them, fetching channels before or not.
    Update { fetch: bool, all: bool },
    /// Tell of an environment.
    Info { json: bool },
    /// List all environments.
    List { json: bool },
    /// Enter an environment: the one that is named, or else the one at hand.
    Enter { name: Option<T> },
    /// Update the global nixpkgs.
    UpdateGlobal,
}

/// What a command says.
pub open spec fn command_view(command: Commands<Vec<String>, String>) -> Commands<
    Seq<Seq<char>>,
    Seq<char>,
> {
    match command {
        Commands::Add { pkgs } => Commands::Add { pkgs: text::texts(pkgs@) },
        Commands::Rm { pkgs } => Commands::Rm { pkgs: text::texts(pkgs@) },
        Commands::Rebuild => Commands::Rebuild,
        Commands::Update { fetch, all } => Commands::Update { fetch, all },
        Commands::Info { json } => Commands::Info { json },
        Commands::List { json } => Commands::List { json },
        Commands::Enter { name } => Commands::Enter {
            name: match name {
                Some(name) => Some(name@),
                None => None,
            },
        },
        Commands::UpdateGlobal => Commands::UpdateGlobal,
    }
}

/// The work on the part of the command at hand.
pub enum Work {
    /// The command has ended.
    Ended,
    /// Something is put on disk.
    Store { storer: Storer },
    /// The channels of the system are fetched.
    FetchChannels,
    /// The files of the environments are listed.
    ListEnvs,
    /// The file of the environment is read.
    Load,
    /// The sources are brought in step with the packages.
    Tidy { housekeeping: Housekeeping },
    /// Packages are added.
    Add { adder: Adder },
    /// The program that enters the environment may be missing.
    Probe,
    /// The environment is built.
    Build { builder: Builder },
    /// The sources of the environment are fetched.
    Supply { supplier: Supplier },
    /// The global nixpkgs is fetched.
    Update { update: SourceUpdate<String> },
    /// The files of the environments are read, one behind the other.
    LoadNext,
    /// A report is put out.
    Print { content: String },
    /// The environment is entered.
    Enter,
}

/// What is known of the work on the part of the command at hand.
pub enum WorkView {
    Ended,
    Store { storer: StorerView },
    FetchChannels,
    ListEnvs,
    Load,
    Tidy { housekeeping: HousekeepingView },
    Add { adder: AdderView },
    Probe,
    Build { builder: BuilderView },
    Supply { supplier: SupplierView },
    Update { update: SourceUpdate<Seq<char>> },
    LoadNext,
    Print { content: Seq<char> },
    Enter,
}

impl View for Work {
    type V = WorkView;

    open spec fn view(&self) -> WorkView {
        match self {
            Work::Ended => WorkView::Ended,
            Work::Store { storer } => WorkView::Store { storer: storer@ },
            Work::FetchChannels => WorkView::FetchChannels,
            Work::ListEnvs => WorkView::ListEnvs,
            Work::Load => WorkView::Load,
            Work::Tidy { housekeeping } => WorkView::Tidy { housekeeping: housekeeping@ },
            Work::Add { adder } => WorkView::Add { adder: adder@ },
            Work::Probe => WorkView::Probe,
            Work::Build { builder } => WorkView::Build { builder: builder@ },
            Work::Supply { supplier } => WorkView::Supply { supplier: supplier@ },
            Work::Update { update } => WorkView::Update { update: update@ },
            Work::LoadNext => WorkView::LoadNext,
            Work::Print { content } => WorkView::Print { content: content@ },
            Work::Enter => WorkView::Enter,
        }
    }
}

/// A command on its way. `pkgs` are the packages that it names; `json` says how a
/// report is written; `queue` are the environments that are still to be read for a
/// list, and `listings` those that were.
pub struct Session {
    pub cache_dir: String,
    pub config_dir: String,
    pub pkgs: Vec<String>,
    pub json: bool,
    pub plan: Plan,
    pub site: Site,
    pub queue: Vec<String>,
    pub listings: Vec<Listing>,
    pub work: Work,
}

/// What is known of a command on its way.
pub struct SessionView {
    pub cache_dir: Seq<char>,
    pub config_dir: Seq<char>,
    pub pkgs: Seq<Seq<char>>,
    pub json: bool,
    pub plan: PlanView,
    pub site: SiteView,
    pub queue: Seq<Seq<char>>,
    pub listings: Seq<ListingView>,
    pub work: WorkView,
}

impl View for Session {
    type V = SessionView;

    open spec fn view(&self) -> SessionView {
        SessionView {
            cache_dir: self.cache_dir@,
            config_dir: self.config_dir@,
            pkgs: text::texts(self.pkgs@),
            json: self.json,
            plan: self.plan@,
            site: self.site@,
            queue: text::texts(self.queue@),
            listings: report::listings_view(self.listings@),
            work: self.work@,
        }
    }
}

/// A notice, where there is one, as a list.
pub open spec fn told(notice: Option<Notice<Seq<char>>>) -> Seq<Notice<Seq<char>>> {
    match notice {
        Some(n) => seq![n],
        None => seq![],
    }
}

/// The environments that the files of the configuration directory are for.
pub open spec fn envs_of(files: Seq<Seq<char>>) -> Seq<Seq<char>> {
    files.filter_map(|name: Seq<char>| paths::env_of_file(name))
}

/// The plan of a command. Without a command the environment is entered.
pub open spec fn plan_of(
    command: Option<Commands<Seq<Seq<char>>, Seq<char>>>,
    env: Seq<char>,
    auto_rebuild: bool,
) -> PlanView {
    let none = Seq::<Seq<char>>::empty();
    match command {
        Some(Commands::Add { .. }) => PlanView::begun(
            Task::Add,
            auto_rebuild,
            env,
            none,
            plan::add_route(auto_rebuild),
        ),
        Some(Commands::Rm { .. }) => PlanView::begun(
            Task::Rm,
            auto_rebuild,
            env,
            none,
            plan::rm_route(auto_rebuild),
        ),
        Some(Commands::Rebuild) => PlanView::begun(
            Task::Rebuild,
            true,
            env,
            none,
            plan::rebuild_route(),
        ),
        Some(Commands::Update { fetch, all }) => PlanView::begun(
            Task::Update,
            auto_rebuild,
            env,
            if all {
                none
            } else {
                seq![env]
            },
            plan::update_route(fetch, all),
        ),
        Some(Commands::Info { .. }) => PlanView::begun(
            Task::Info,
            false,
            env,
            none,
            seq![Phase::Load, Phase::Report],
        ),
        Some(Commands::List { .. }) => PlanView::begun(
            Task::List,
            false,
            Seq::empty(),
            none,
            seq![Phase::ListEnvs, Phase::Report],
        ),
        Some(Commands::UpdateGlobal) => PlanView::begun(
            Task::UpdateGlobal,
            false,
            Seq::empty(),
            none,
            seq![Phase::OpenGlobal, Phase::UpdateGlobal],
        ),
        Some(Commands::Enter { .. }) | None => PlanView::begun(
            Task::Enter,
            auto_rebuild,
            env,
            none,
            plan::enter_route(),
        ),
    }
}

/// The environment of a command: the one at hand, where it does not name another.
pub open spec fn env_of(
    command: Option<Commands<Seq<Seq<char>>, Seq<char>>>,
    env: Seq<char>,
) -> Seq<char> {
    match command {
        Some(Commands::Enter { name: Some(name) }) => name,
        _ => env,
    }
}

/// The packages that a command names.
pub open spec fn pkgs_of(command: Option<Commands<Seq<Seq<char>>, Seq<char>>>) -> Seq<Seq<char>> {
    match command {
        Some(Commands::Add { pkgs }) => pkgs,
        Some(Commands::Rm { pkgs }) => pkgs,
        _ => Seq::empty(),
    }
}

/// Commands that report in JSON.
pub open spec fn json_of(command: Option<Commands<Seq<Seq<char>>, Seq<char>>>) -> bool {
    match command {
        Some(Commands::Info { json }) => json,
        Some(Commands::List { json }) => json,
        _ => false,
    }
}

impl SessionView {
    /// A command at the beginning of a plan, and what is said of it.
    pub open spec fn planned(
        cache_dir: Seq<char>,
        config_dir: Seq<char>,
        plan: PlanView,
        pkgs: Seq<Seq<char>>,
        json: bool,
    ) -> (SessionView, Seq<Notice<Seq<char>>>) {
        SessionView {
            cache_dir,
            config_dir,
            pkgs,
            json,
            plan,
            site: SiteView::loaded(cache_dir, config_dir, plan.env, EnvFile::Missing),
            queue: Seq::empty(),
            listings: Seq::empty(),
            work: WorkView::Ended,
        }.entered()
    }

    /// A command at its beginning, and what is said of it.
    pub open spec fn begun(
        cache_dir: Seq<char>,
        config_dir: Seq<char>,
        env: Seq<char>,
        command: Option<Commands<Seq<Seq<char>>, Seq<char>>>,
        no_rebuild: bool,
    ) -> (SessionView, Seq<Notice<Seq<char>>>) {
        Self::planned(
            cache_dir,
            config_dir,
            plan_of(command, env_of(command, env), !no_rebuild),
            pkgs_of(command),
            json_of(command),
        )
    }

    /// The same command with other work at hand.
    pub open spec fn at(self, work: WorkView) -> SessionView {
        SessionView { work, ..self }
    }

    /// The same command with other packages in the storage.
    pub open spec fn holding(self, storage: StorageView) -> SessionView {
        SessionView { site: SiteView { storage, ..self.site }, ..self }
    }

    /// The command with the part at hand behind it, before the next is begun.
    pub open spec fn past(self, end: PhaseEnd<Seq<Seq<char>>>) -> SessionView {
        SessionView { plan: self.plan.after(end), work: WorkView::Ended, ..self }
    }

    /// The command at the beginning of the part at hand, and what is said of it. A
    /// part with nothing to ask for is done at once.
    pub open spec fn entered(self) -> (SessionView, Seq<Notice<Seq<char>>>)
        decreases self.plan.envs.len(), self.plan.route.len(),
    {
        match self.plan.phase() {
            None => (self.at(WorkView::Ended), told(self.plan.closing())),
            Some(phase) => match phase {
                Phase::FetchChannels => (
                    self.at(WorkView::FetchChannels),
                    seq![Notice::FetchingChannels],
                ),
                Phase::OpenGlobal => (
                    self.at(WorkView::Store { storer: storing::global_dir(self.site.global) }),
                    seq![],
                ),
                Phase::ListEnvs => (self.at(WorkView::ListEnvs), seq![]),
                Phase::Load => (self.at(WorkView::Load), seq![]),
                Phase::OpenSources => (
                    self.at(WorkView::Store { storer: storing::source_dirs(self.site.sources) }),
                    seq![],
                ),
                Phase::Tidy => (
                    self.at(
                        WorkView::Tidy {
                            housekeeping: HousekeepingView::begun(
                                self.site.sources,
                                self.site.storage.packages,
                            ),
                        },
                    ),
                    seq![],
                ),
                Phase::AddPackages => {
                    let next = AdderView::facing(self.pkgs, false);
                    if next.0.stage is Finished {
                        let following = self.past(PhaseEnd::Done).entered();
                        (following.0, next.1 + following.1)
                    } else {
                        (self.at(WorkView::Add { adder: next.0 }), next.1)
                    }
                },
                Phase::RemovePackages => {
                    let storage = removals::all_removed(self.site.storage, self.pkgs);
                    let said = removals::removal_notices(self.site.storage, self.pkgs);
                    let following = self.holding(storage).past(PhaseEnd::Done).entered();
                    (following.0, said + following.1)
                },
                Phase::Save => (
                    self.at(
                        WorkView::Store {
                            storer: storing::saving(self.config_dir, self.site.storage),
                        },
                    ),
                    seq![],
                ),
                Phase::ProbeBinary => (self.at(WorkView::Probe), seq![]),
                Phase::Rebuild => (
                    self.at(WorkView::Build { builder: Rebuild::MakeDir }),
                    seq![],
                ),
                Phase::RefreshSources => {
                    let next = SupplierView::facing(
                        supply::needed(self.site.sources, self.site.storage.packages),
                        true,
                    );
                    let said = seq![Notice::UpdatingEnv { env: self.plan.env }] + next.1;
                    if next.0.stage is Supplied {
                        let following = self.past(PhaseEnd::Done).entered();
                        (following.0, said + following.1)
                    } else {
                        (self.at(WorkView::Supply { supplier: next.0 }), said)
                    }
                },
                Phase::UpdateGlobal => (
                    self.at(WorkView::Update { update: self.site.global.update() }),
                    seq![Notice::UpdatingGlobal],
                ),
                Phase::Enter => (self.at(WorkView::Enter), seq![]),
                Phase::Report => (self.at(self.report()), seq![]),
            },
        }
    }

    /// The work of a report: that of one environment is put out, that of all once
    /// their files were read.
    pub open spec fn report(self) -> WorkView {
        if self.plan.task is Info {
            WorkView::Print {
                content: report::info_output(
                    self.plan.env,
                    self.site.storage.packages,
                    self.json,
                ),
            }
        } else if self.queue.len() == 0 {
            WorkView::Print { content: report::list_output(self.listings, self.json) }
        } else {
            WorkView::LoadNext
        }
    }

    /// The command once the part at hand has ended, and what is said of it.
    pub open spec fn finished(self, end: PhaseEnd<Seq<Seq<char>>>) -> (
        SessionView,
        Seq<Notice<Seq<char>>>,
    ) {
        self.past(end).entered()
    }

    /// The command once the part at hand has failed, and what is said of it.
    pub open spec fn failed(self, failure: Failure<Seq<char>>) -> (
        SessionView,
        Seq<Notice<Seq<char>>>,
    ) {
        (
            self.past(PhaseEnd::Failed).at(WorkView::Ended),
            seq![Notice::Aborted { detail: failure.said() }],
        )
    }

    /// A command with something said before what it says itself.
    pub open spec fn saying(
        said: Seq<Notice<Seq<char>>>,
        next: (SessionView, Seq<Notice<Seq<char>>>),
    ) -> (SessionView, Seq<Notice<Seq<char>>>) {
        (next.0, said + next.1)
    }

    /// The path of the file of an environment.
    pub open spec fn file_of(self, env: Seq<char>) -> Seq<char> {
        paths::joined_path(self.config_dir, paths::env_file_name(env))
    }

    /// What is to be done next; nothing where the command has ended.
    pub open spec fn wants(self) -> Option<RequestView> {
        match self.work {
            WorkView::Ended => None,
            WorkView::Store { storer } => storer.wants(),
            WorkView::FetchChannels => Some(
                Effect::Run { invocation: process::channels_fetch() },
            ),
            WorkView::ListEnvs => Some(Effect::ListDir { path: self.config_dir }),
            WorkView::Load => Some(Effect::ReadEnv { path: self.file_of(self.plan.env) }),
            WorkView::Tidy { housekeeping } => housekeeping.wants(),
            WorkView::Add { adder } => adder.wants(self.site.sources),
            WorkView::Probe => Some(Effect::Exists { path: self.site.binary() }),
            WorkView::Build { builder } => builder.wants(self.site),
            WorkView::Supply { supplier } => supplier.wants(),
            WorkView::Update { update } => update.wants(),
            WorkView::LoadNext => if self.queue.len() > 0 {
                Some(Effect::ReadEnv { path: self.file_of(self.queue.first()) })
            } else {
                None
            },
            WorkView::Print { content } => Some(Effect::Print { content }),
            WorkView::Enter => Some(self.site.entrance()),
        }
    }

    /// The command behind a reply, and what is said of it.
    pub open spec fn moved(self, reply: AnswerView) -> (SessionView, Seq<Notice<Seq<char>>>) {
        match (self.work, reply) {
            (WorkView::Store { storer }, reply) => match storer.after(reply) {
                Storing::Failed { failure } => self.failed(failure),
                Storing::Going { rest } => if rest.len() == 0 {
                    self.finished(PhaseEnd::Done)
                } else {
                    (self.at(WorkView::Store { storer: Storing::Going { rest } }), seq![])
                },
            },
            (WorkView::FetchChannels, Reply::Ran(ran)) => if ran is None {
                self.failed(Failure::Spawn { program: "nix-channel"@ })
            } else {
                self.finished(PhaseEnd::Done)
            },
            (WorkView::ListEnvs, Reply::Names(files)) => if self.plan.task is Update {
                self.finished(PhaseEnd::Envs(envs_of(files)))
            } else {
                SessionView { queue: envs_of(files), ..self }.finished(PhaseEnd::Done)
            },
            (WorkView::Load, Reply::File(file)) => SessionView {
                site: SiteView::loaded(self.cache_dir, self.config_dir, self.plan.env, file),
                ..self
            }.finished(
                if file is Missing {
                    PhaseEnd::Lacking
                } else {
                    PhaseEnd::Done
                },
            ),
            (WorkView::Tidy { housekeeping }, reply) => {
                let next = housekeeping.after(reply);
                let said = housekeeping.moved(reply).1;
                match next.chore {
                    Chore::Fetch { supply } => match supply.stage {
                        SupplyStage::Supplied => Self::saying(said, self.finished(PhaseEnd::Done)),
                        SupplyStage::Failed { failure } => Self::saying(
                            said,
                            self.failed(failure),
                        ),
                        _ => (self.at(WorkView::Tidy { housekeeping: next }), said),
                    },
                    _ => (self.at(WorkView::Tidy { housekeeping: next }), said),
                }
            },
            (WorkView::Add { adder }, reply) => {
                let next = adder.moved(self.site.storage, self.site.sources, reply);
                let here = self.holding(next.storage);
                if next.adder.stage is Finished {
                    Self::saying(
                        next.said,
                        here.finished(
                            if next.adder.had_errors {
                                PhaseEnd::Lacking
                            } else {
                                PhaseEnd::Done
                            },
                        ),
                    )
                } else {
                    (here.at(WorkView::Add { adder: next.adder }), next.said)
                }
            },
            (WorkView::Probe, Reply::Found(found)) => self.finished(
                if found {
                    PhaseEnd::Done
                } else {
                    PhaseEnd::Lacking
                },
            ),
            (WorkView::Build { builder }, reply) => {
                let next = builder.after(self.site, reply);
                let said = builder.moved(self.site, reply).1;
                match next {
                    Rebuild::Built => Self::saying(said, self.finished(PhaseEnd::Done)),
                    Rebuild::Failed { failure } => Self::saying(said, self.failed(failure)),
                    _ => (self.at(WorkView::Build { builder: next }), said),
                }
            },
            (WorkView::Supply { supplier }, reply) => {
                let next = supplier.after(reply);
                let said = supplier.moved(reply).1;
                match next.stage {
                    SupplyStage::Supplied => Self::saying(said, self.finished(PhaseEnd::Done)),
                    SupplyStage::Failed { failure } => Self::saying(said, self.failed(failure)),
                    _ => (self.at(WorkView::Supply { supplier: next }), said),
                }
            },
            (WorkView::Update { update }, reply) => {
                let next = update.after(reply);
                let said = update.moved(reply).1;
                match next.stage {
                    UpdateStage::Updated => Self::saying(said, self.finished(PhaseEnd::Done)),
                    UpdateStage::Failed { failure } => Self::saying(said, self.failed(failure)),
                    _ => (self.at(WorkView::Update { update: next }), said),
                }
            },
            (WorkView::LoadNext, Reply::File(file)) => if self.queue.len() == 0 {
                (self, seq![])
            } else {
                let here = SessionView {
                    listings: self.listings.push(
                        ListingView {
                            name: self.queue.first(),
                            packages: storage::found_in(file),
                        },
                    ),
                    queue: self.queue.drop_first(),
                    ..self
                };
                (here.at(here.report()), seq![])
            },
            (WorkView::Print { .. }, Reply::Printed) => self.finished(PhaseEnd::Done),
            (WorkView::Enter, Reply::Refused(detail)) => self.failed(Failure::Exec { detail }),
            _ => (self, seq![]),
        }
    }

    /// The command behind a reply.
    pub open spec fn after(self, reply: AnswerView) -> SessionView {
        self.moved(reply).0
    }
}

/// A command and what is to be said of it.
pub open spec fn outcome(r: (Session, Vec<Notice<String>>)) -> (
    SessionView,
    Seq<Notice<Seq<char>>>,
) {
    (r.0@, notice::notices_view(r.1@))
}

/// No notice, or one, as a list.
fn tell(notice: Option<Notice<String>>) -> (r: Vec<Notice<String>>)
    ensures
        notice::notices_view(r@) == told(plan::notice_view(notice)),
{
    let mut said: Vec<Notice<String>> = Vec::new();
    if let Some(n) = notice {
        said.push(n);
    }
    assert(notice::notices_view(said@) =~= told(plan::notice_view(notice)));
    said
}

/// Nothing to say.
fn silence() -> (r: Vec<Notice<String>>)
    ensures
        notice::notices_view(r@) == Seq::<Notice<Seq<char>>>::empty(),
{
    let said: Vec<Notice<String>> = Vec::new();
    assert(notice::notices_view(said@) =~= Seq::empty());
    said
}

/// One thing to say.
fn say(notice: Notice<String>) -> (r: Vec<Notice<String>>)
    ensures
        notice::notices_view(r@) == seq![notice@],
{
    let mut said: Vec<Notice<String>> = Vec::new();
    said.push(notice);
    assert(notice::notices_view(said@) =~= seq![notice@]);
    said
}

/// What an optional command says.
pub open spec fn optional_command(command: Option<Commands<Vec<String>, String>>) -> Option<
    Commands<Seq<Seq<char>>, Seq<char>>,
> {
    match command {
        Some(command) => Some(command_view(command)),
        None => None,
    }
}

/// Adds packages to an environment.
pub fn cmd_add(
    cache_dir: &str,
    config_dir: &str,
    env: &str,
    pkgs: Vec<String>,
    auto_rebuild: bool,
) -> (r: (Session, Vec<Notice<String>>))
    ensures
        outcome(r) == SessionView::planned(
            cache_dir@,
            config_dir@,
            PlanView::begun(
                Task::Add,
                auto_rebuild,
                env@,
                Seq::empty(),
                plan::add_route(auto_rebuild),
            ),
            text::texts(pkgs@),
            false,
        ),
{
    Session::begin(cache_dir, config_dir, plan::plan_add(env, auto_rebuild), pkgs, false)
}

/// Removes packages from an environment.
pub fn cmd_rm(
    cache_dir: &str,
    config_dir: &str,
    env: &str,
    pkgs: Vec<String>,
    auto_rebuild: bool,
) -> (r: (Session, Vec<Notice<String>>))
    ensures
        outcome(r) == SessionView::planned(
            cache_dir@,
            config_dir@,
            PlanView::begun(
                Task::Rm,
                auto_rebuild,
                env@,
                Seq::empty(),
                plan::rm_route(auto_rebuild),
            ),
            text::texts(pkgs@),
            false,
        ),
{
    Session::begin(cache_dir, config_dir, plan::plan_rm(env, auto_rebuild), pkgs, false)
}

/// Builds an environment.
pub fn cmd_rebuild(
    cache_dir: &str,
    config_dir: &str,
    env: &str,
) -> (r: (Session, Vec<Notice<String>>))
    ensures
        outcome(r) == SessionView::planned(
            cache_dir@,
            config_dir@,
            PlanView::begun(Task::Rebuild, true, env@, Seq::empty(), plan::rebuild_route()),
            Seq::empty(),
            false,
        ),
{
    let none: Vec<String> = Vec::new();
    assert(text::texts(none@) =~= Seq::empty());
    Session::begin(cache_dir, config_dir, plan::plan_rebuild(env), none, false)
}

/// Updates an environment, or all of them; the channels of the system are fetched
/// before where `fetch` is set.
pub fn cmd_update(
    cache_dir: &str,
    config_dir: &str,
    env: &str,
    fetch: bool,
    all: bool,
    auto_rebuild: bool,
) -> (r: (Session, Vec<Notice<String>>))
    ensures
        outcome(r) == SessionView::planned(
            cache_dir@,
            config_dir@,
            PlanView::begun(
                Task::Update,
                auto_rebuild,
                env@,
                if all {
                    Seq::empty()
                } else {
                    seq![env@]
                },
                plan::update_route(fetch, all),
            ),
            Seq::empty(),
            false,
        ),
{
    let none: Vec<String> = Vec::new();
    assert(text::texts(none@) =~= Seq::empty());
    let plan = plan::plan_update(env, fetch, all, auto_rebuild);
    Session::begin(cache_dir, config_dir, plan, none, false)
}

/// Tells of one environment, in JSON where `json` is set.
pub fn cmd_info(
    cache_dir: &str,
    config_dir: &str,
    env: &str,
    json: bool,
) -> (r: (Session, Vec<Notice<String>>))
    ensures
        outcome(r) == SessionView::planned(
            cache_dir@,
            config_dir@,
            PlanView::begun(
                Task::Info,
                false,
                env@,
                Seq::empty(),
                seq![Phase::Load, Phase::Report],
            ),
            Seq::empty(),
            json,
        ),
{
    let none: Vec<String> = Vec::new();
    assert(text::texts(none@) =~= Seq::empty());
    Session::begin(cache_dir, config_dir, plan::plan_info(env), none, json)
}

/// Tells of all environments, in JSON where `json` is set.
pub fn cmd_list(
    cache_dir: &str,
    config_dir: &str,
    json: bool,
) -> (r: (Session, Vec<Notice<String>>))
    ensures
        outcome(r) == SessionView::planned(
            cache_dir@,
            config_dir@,
            PlanView::begun(
                Task::List,
                false,
                Seq::empty(),
                Seq::empty(),
                seq![Phase::ListEnvs, Phase::Report],
            ),
            Seq::empty(),
            json,
        ),
{
    let none: Vec<String> = Vec::new();
    assert(text::texts(none@) =~= Seq::empty());
    Session::begin(cache_dir, config_dir, plan::plan_list(), none, json)
}

/// Updates the global nixpkgs.
pub fn cmd_update_global(
    cache_dir: &str,
    config_dir: &str,
) -> (r: (Session, Vec<Notice<String>>))
    ensures
        outcome(r) == SessionView::planned(
            cache_dir@,
            config_dir@,
            PlanView::begun(
                Task::UpdateGlobal,
                false,
                Seq::empty(),
                Seq::empty(),
                seq![Phase::OpenGlobal, Phase::UpdateGlobal],
            ),
            Seq::empty(),
            false,
        ),
{
    let none: Vec<String> = Vec::new();
    assert(text::texts(none@) =~= Seq::empty());
    Session::begin(cache_dir, config_dir, plan::plan_update_global(), none, false)
}

/// Enters an environment, which is built before where it is not and `auto_rebuild`
/// is set.
pub fn cmd_enter(
    cache_dir: &str,
    config_dir: &str,
    env: &str,
    auto_rebuild: bool,
) -> (r: (Session, Vec<Notice<String>>))
    ensures
        outcome(r) == SessionView::planned(
            cache_dir@,
            config_dir@,
            PlanView::begun(Task::Enter, auto_rebuild, env@, Seq::empty(), plan::enter_route()),
            Seq::empty(),
            false,
        ),
{
    let none: Vec<String> = Vec::new();
    assert(text::texts(none@) =~= Seq::empty());
    Session::begin(cache_dir, config_dir, plan::plan_enter(env, auto_rebuild), none, false)
}

impl Session {
    /// Begins a plan.
    fn begin(cache_dir: &str, config_dir: &str, plan: Plan, pkgs: Vec<String>, json: bool) -> (r: (
        Session,
        Vec<Notice<String>>,
    ))
        ensures
            outcome(r) == SessionView::planned(
                cache_dir@,
                config_dir@,
                plan@,
                text::texts(pkgs@),
                json,
            ),
    {
        let site = Site::new(cache_dir, config_dir, plan.env.as_str(), EnvFile::Missing);
        let queue: Vec<String> = Vec::new();
        assert(text::texts(queue@) =~= Seq::empty());
        let listings: Vec<Listing> = Vec::new();
        assert(report::listings_view(listings@) =~= Seq::empty());
        let session = Session {
            cache_dir: cache_dir.to_owned(),
            config_dir: config_dir.to_owned(),
            pkgs,
            json,
            plan,
            site,
            queue,
            listings,
            work: Work::Ended,
        };
        session.enter()
    }

    /// Begins a command. Without a command the environment is entered; a build
    /// that is not asked for by name is left out where `no_rebuild` is set. The first
    /// part may need nothing from outside, so that something may be to say at once.
    pub fn start(
        cache_dir: &str,
        config_dir: &str,
        env: &str,
        command: Option<Commands<Vec<String>, String>>,
        no_rebuild: bool,
    ) -> (r: (Session, Vec<Notice<String>>))
        ensures
            outcome(r) == SessionView::begun(
                cache_dir@,
                config_dir@,
                env@,
                optional_command(command),
                no_rebuild,
            ),
    {
        let auto_rebuild = !no_rebuild;
        match command {
            Some(Commands::Add { pkgs }) => cmd_add(cache_dir, config_dir, env, pkgs, auto_rebuild),
            Some(Commands::Rm { pkgs }) => cmd_rm(cache_dir, config_dir, env, pkgs, auto_rebuild),
            Some(Commands::Rebuild) => cmd_rebuild(cache_dir, config_dir, env),
            Some(Commands::Update { fetch, all }) => cmd_update(
                cache_dir,
                config_dir,
                env,
                fetch,
                all,
                auto_rebuild,
            ),
            Some(Commands::Info { json }) => cmd_info(cache_dir, config_dir, env, json),
            Some(Commands::List { json }) => cmd_list(cache_dir, config_dir, json),
            Some(Commands::UpdateGlobal) => cmd_update_global(cache_dir, config_dir),
            Some(Commands::Enter { name: Some(name) }) => cmd_enter(
                cache_dir,
                config_dir,
                name.as_str(),
                auto_rebuild,
            ),
            Some(Commands::Enter { name: None }) | None => cmd_enter(
                cache_dir,
                config_dir,
                env,
                auto_rebuild,
            ),
        }
    }

    /// The work of a report.
    fn report(&self) -> (r: Work)
        ensures
            r@ == self@.report(),
    {
        if self.plan.task == Task::Info {
            Work::Print {
                content: report::write_info(self.plan.env.as_str(), &self.site.storage, self.json),
            }
        } else if self.queue.len() == 0 {
            Work::Print { content: report::write_list(&self.listings, self.json) }
        } else {
            Work::LoadNext
        }
    }

    /// Leaves the part at hand behind.
    fn leave(&mut self, end: PhaseEnd<Vec<String>>)
        ensures
            final(self)@ == old(self)@.past(plan::end_view(end)),
            end is Done && old(self)@.plan.phase() is Some ==> ({
                let before = old(self).plan;
                let after = final(self).plan;
                ||| after.envs@.len() < before.envs@.len()
                ||| after.envs@.len() == before.envs@.len() && after.route@.len()
                    < before.route@.len()
            }),
    {
        let ghost before = self@;
        self.plan.advance(end);
        self.work = Work::Ended;
        assert(self.plan@.envs.len() == self.plan.envs@.len());
        assert(before.plan.envs.len() == old(self).plan.envs@.len());
    }

    /// Begins the part at hand.
    fn enter(self) -> (r: (Session, Vec<Notice<String>>))
        ensures
            outcome(r) == self@.entered(),
        decreases self.plan.envs@.len(), self.plan.route@.len(),
    {
        let mut here = self;
        match here.plan.phase() {
            None => {
                let said = tell(here.plan.close());
                here.work = Work::Ended;
                (here, said)
            },
            Some(phase) => match phase {
                Phase::FetchChannels => {
                    here.work = Work::FetchChannels;
                    (here, say(Notice::FetchingChannels))
                },
                Phase::OpenGlobal => {
                    here.work = Work::Store { storer: storing::open_global(&here.site.global) };
                    (here, silence())
                },
                Phase::ListEnvs => {
                    here.work = Work::ListEnvs;
                    (here, silence())
                },
                Phase::Load => {
                    here.work = Work::Load;
                    (here, silence())
                },
                Phase::OpenSources => {
                    here.work = Work::Store { storer: storing::open_sources(&here.site.sources) };
                    (here, silence())
                },
                Phase::Tidy => {
                    here.work = Work::Tidy {
                        housekeeping: housekeeping::routine_stuff(
                            &here.site.storage,
                            &here.site.sources,
                        ),
                    };
                    (here, silence())
                },
                Phase::AddPackages => {
                    let (adder, said) = additions::add_packages(text::copy_texts(&here.pkgs));
                    if let AddStage::Finished = adder.stage {
                        here.leave(PhaseEnd::Done);
                        let (next, more) = here.enter();
                        (next, notice::append_all(said, more))
                    } else {
                        here.work = Work::Add { adder };
                        (here, said)
                    }
                },
                Phase::RemovePackages => {
                    let said = removals::remove_packages(&mut here.site.storage, &here.pkgs);
                    here.leave(PhaseEnd::Done);
                    let (next, more) = here.enter();
                    (next, notice::append_all(said, more))
                },
                Phase::Save => {
                    here.work = Work::Store {
                        storer: storing::save(here.config_dir.as_str(), &here.site.storage),
                    };
                    (here, silence())
                },
                Phase::ProbeBinary => {
                    here.work = Work::Probe;
                    (here, silence())
                },
                Phase::Rebuild => {
                    here.work = Work::Build { builder: rebuild::rebuild() };
                    (here, silence())
                },
                Phase::RefreshSources => {
                    let items = supply::needed_items(&here.site.sources, &here.site.storage);
                    let (supplier, more) = Supply::face(items, true);
                    let said = notice::append_all(
                        say(Notice::UpdatingEnv { env: here.plan.env.clone() }),
                        more,
                    );
                    if let SupplyStage::Supplied = supplier.stage {
                        here.leave(PhaseEnd::Done);
                        let (next, more) = here.enter();
                        (next, notice::append_all(said, more))
                    } else {
                        here.work = Work::Supply { supplier };
                        (here, said)
                    }
                },
                Phase::UpdateGlobal => {
                    let update = here.site.global.update_nixpkgs();
                    let said = say(update.announce());
                    here.work = Work::Update { update };
                    (here, said)
                },
                Phase::Enter => {
                    here.work = Work::Enter;
                    (here, silence())
                },
                Phase::Report => {
                    here.work = here.report();
                    (here, silence())
                },
            },
        }
    }

    /// Goes on once the part at hand has ended.
    fn finish(self, end: PhaseEnd<Vec<String>>) -> (r: (Session, Vec<Notice<String>>))
        ensures
            outcome(r) == self@.finished(plan::end_view(end)),
    {
        let mut here = self;
        here.leave(end);
        here.enter()
    }

    /// Ends the command where the part at hand has failed.
    fn fail(self, failure: Failure<String>) -> (r: (Session, Vec<Notice<String>>))
        ensures
            outcome(r) == self@.failed(failure@),
    {
        let mut here = self;
        here.leave(PhaseEnd::Failed);
        (here, say(Notice::Aborted { detail: failure.message() }))
    }

    /// What is to be done next; nothing where the command has ended.
    pub fn request(&self) -> (r: Option<Request>)
        ensures
            effect::request_view(r) == self@.wants(),
    {
        match &self.work {
            Work::Ended => None,
            Work::Store { storer } => storer.request(),
            Work::FetchChannels => Some(Effect::Run { invocation: process::fetch_channels() }),
            Work::ListEnvs => Some(Effect::ListDir { path: self.config_dir.clone() }),
            Work::Load => Some(
                Effect::ReadEnv {
                    path: paths::env_file(self.config_dir.as_str(), self.plan.env.as_str()),
                },
            ),
            Work::Tidy { housekeeping } => housekeeping.request(),
            Work::Add { adder } => adder.request(&self.site.sources),
            Work::Probe => Some(self.site.has_binary()),
            Work::Build { builder } => builder.request(&self.site),
            Work::Supply { supplier } => supplier.request(),
            Work::Update { update } => update.request(),
            Work::LoadNext => if self.queue.len() > 0 {
                Some(
                    Effect::ReadEnv {
                        path: paths::env_file(self.config_dir.as_str(), self.queue[0].as_str()),
                    },
                )
            } else {
                None
            },
            Work::Print { content } => Some(Effect::Print { content: content.clone() }),
            Work::Enter => Some(self.site.enter()),
        }
    }

    /// The exit code of the tool, once the command has ended.
    pub fn exit_code(&self) -> (r: i32)
        ensures
            r == if self@.plan.went_well() {
                0i32
            } else {
                1i32
            },
    {
        self.plan.exit_code()
    }

    /// Goes on once the part at hand has ended, with something to say before.
    fn finish_saying(self, said: Vec<Notice<String>>, end: PhaseEnd<Vec<String>>) -> (r: (
        Session,
        Vec<Notice<String>>,
    ))
        ensures
            outcome(r) == SessionView::saying(
                notice::notices_view(said@),
                self@.finished(plan::end_view(end)),
            ),
    {
        let (next, more) = self.finish(end);
        (next, notice::append_all(said, more))
    }

    /// Ends the command where the part at hand has failed, with something to say
    /// before.
    fn fail_saying(self, said: Vec<Notice<String>>, failure: Failure<String>) -> (r: (
        Session,
        Vec<Notice<String>>,
    ))
        ensures
            outcome(r) == SessionView::saying(
                notice::notices_view(said@),
                self@.failed(failure@),
            ),
    {
        let (next, more) = self.fail(failure);
        (next, notice::append_all(said, more))
    }

    /// Goes on putting something on disk.
    fn go_on_storing(self, storer: Storer, reply: Answer) -> (r: (Session, Vec<Notice<String>>))
        ensures
            outcome(r) == self@.at(WorkView::Store { storer: storer@ }).moved(reply@),
    {
        let mut here = self;
        match storer.advance(reply) {
            Storing::Failed { failure } => here.fail(failure),
            Storing::Going { rest } => if rest.len() == 0 {
                here.finish(PhaseEnd::Done)
            } else {
                here.work = Work::Store { storer: Storing::Going { rest } };
                (here, silence())
            },
        }
    }

    /// Goes on bringing the sources in step with the packages.
    fn go_on_tidying(self, housekeeping: Housekeeping, reply: Answer) -> (r: (
        Session,
        Vec<Notice<String>>,
    ))
        ensures
            outcome(r) == self@.at(WorkView::Tidy { housekeeping: housekeeping@ }).moved(reply@),
    {
        let mut here = self;
        let mut housekeeping = housekeeping;
        let said = housekeeping.advance(reply);
        let Housekeeping { sources, channels, flakes, needed, chore } = housekeeping;
        match chore {
            Chore::Fetch { supply: Supply { rest, refresh, stage } } => match stage {
                SupplyStage::Supplied => here.finish_saying(said, PhaseEnd::Done),
                SupplyStage::Failed { failure } => here.fail_saying(said, failure),
                stage => {
                    let chore = Chore::Fetch { supply: Supply { rest, refresh, stage } };
                    here.work = Work::Tidy {
                        housekeeping: Housekeeping { sources, channels, flakes, needed, chore },
                    };
                    (here, said)
                },
            },
            chore => {
                here.work = Work::Tidy {
                    housekeeping: Housekeeping { sources, channels, flakes, needed, chore },
                };
                (here, said)
            },
        }
    }

    /// Goes on adding packages.
    fn go_on_adding(self, adder: Adder, reply: Answer) -> (r: (Session, Vec<Notice<String>>))
        ensures
            outcome(r) == self@.at(WorkView::Add { adder: adder@ }).moved(reply@),
    {
        let mut here = self;
        let (adder, said) = adder.advance(&mut here.site.storage, &here.site.sources, reply);
        if let AddStage::Finished = adder.stage {
            if adder.had_errors {
                here.finish_saying(said, PhaseEnd::Lacking)
            } else {
                here.finish_saying(said, PhaseEnd::Done)
            }
        } else {
            here.work = Work::Add { adder };
            (here, said)
        }
    }

    /// Goes on building the environment.
    fn go_on_building(self, builder: Builder, reply: Answer) -> (r: (Session, Vec<Notice<String>>))
        ensures
            outcome(r) == self@.at(WorkView::Build { builder: builder@ }).moved(reply@),
    {
        let mut here = self;
        let (builder, said) = builder.advance(&here.site, reply);
        match builder {
            Rebuild::Built => here.finish_saying(said, PhaseEnd::Done),
            Rebuild::Failed { failure } => here.fail_saying(said, failure),
            builder => {
                here.work = Work::Build { builder };
                (here, said)
            },
        }
    }

    /// Goes on fetching the sources of the environment.
    fn go_on_supplying(self, supplier: Supplier, reply: Answer) -> (r: (
        Session,
        Vec<Notice<String>>,
    ))
        ensures
            outcome(r) == self@.at(WorkView::Supply { supplier: supplier@ }).moved(reply@),
    {
        let mut here = self;
        let (supplier, said) = supplier.advance(reply);
        let Supply { rest, refresh, stage } = supplier;
        match stage {
            SupplyStage::Supplied => here.finish_saying(said, PhaseEnd::Done),
            SupplyStage::Failed { failure } => here.fail_saying(said, failure),
            stage => {
                here.work = Work::Supply { supplier: Supply { rest, refresh, stage } };
                (here, said)
            },
        }
    }

    /// Goes on fetching the global nixpkgs.
    fn go_on_updating(self, update: SourceUpdate<String>, reply: Answer) -> (r: (
        Session,
        Vec<Notice<String>>,
    ))
        ensures
            outcome(r) == self@.at(WorkView::Update { update: update@ }).moved(reply@),
    {
        let mut here = self;
        let (update, said) = update.advance(reply);
        let SourceUpdate { target, root, stage } = update;
        match stage {
            UpdateStage::Updated => here.finish_saying(said, PhaseEnd::Done),
            UpdateStage::Failed { failure } => here.fail_saying(said, failure),
            stage => {
                here.work = Work::Update { update: SourceUpdate { target, root, stage } };
                (here, said)
            },
        }
    }

    /// Takes in the files of the environments.
    fn take_envs(self, files: Vec<String>) -> (r: (Session, Vec<Notice<String>>))
        ensures
            outcome(r) == self@.at(WorkView::ListEnvs).moved(Reply::Names(text::texts(files@))),
    {
        let mut here = self;
        let envs = paths::env_names(&files);
        if here.plan.task == Task::Update {
            here.finish(PhaseEnd::Envs(envs))
        } else {
            here.queue = envs;
            here.finish(PhaseEnd::Done)
        }
    }

    /// Takes in the file of the environment.
    fn take_file(self, file: EnvFile<String>) -> (r: (Session, Vec<Notice<String>>))
        ensures
            outcome(r) == self@.at(WorkView::Load).moved(Reply::File(file@)),
    {
        let mut here = self;
        let missing = match &file {
            EnvFile::Missing => true,
            _ => false,
        };
        here.site = Site::new(
            here.cache_dir.as_str(),
            here.config_dir.as_str(),
            here.plan.env.as_str(),
            file,
        );
        if missing {
            here.finish(PhaseEnd::Lacking)
        } else {
            here.finish(PhaseEnd::Done)
        }
    }

    /// Takes in the file of the next environment of a list.
    fn take_next(self, file: EnvFile<String>) -> (r: (Session, Vec<Notice<String>>))
        ensures
            outcome(r) == self@.at(WorkView::LoadNext).moved(Reply::File(file@)),
    {
        let ghost this = self@;
        let mut here = self;
        if here.queue.len() == 0 {
            here.work = Work::LoadNext;
            return (here, silence());
        }
        let name = here.queue.remove(0);
        assert(text::texts(here.queue@) =~= this.queue.drop_first());
        let loaded = storage::Storage::new(here.config_dir.as_str(), name.as_str(), file);
        let listing = Listing { name, packages: loaded.packages };
        let ghost told = listing@;
        here.listings.push(listing);
        assert(report::listings_view(here.listings@) =~= this.listings.push(told));
        here.work = here.report();
        (here, silence())
    }

    /// Goes on with a reply.
    pub fn advance(self, reply: Answer) -> (r: (Session, Vec<Notice<String>>))
        ensures
            outcome(r) == self@.moved(reply@),
    {
        let mut here = self;
        let mut work = Work::Ended;
        std::mem::swap(&mut work, &mut here.work);
        assert(here@.at(work@) == self@);
        match work {
            Work::Store { storer } => here.go_on_storing(storer, reply),
            Work::Tidy { housekeeping } => here.go_on_tidying(housekeeping, reply),
            Work::Add { adder } => here.go_on_adding(adder, reply),
            Work::Build { builder } => here.go_on_building(builder, reply),
            Work::Supply { supplier } => here.go_on_supplying(supplier, reply),
            Work::Update { update } => here.go_on_updating(update, reply),
            work => match (work, reply) {
                (Work::FetchChannels, Reply::Ran(ran)) => match process::fetch_failure(&ran) {
                    Some(failure) => here.fail(failure),
                    None => here.finish(PhaseEnd::Done),
                },
                (Work::ListEnvs, Reply::Names(files)) => here.take_envs(files),
                (Work::Load, Reply::File(file)) => here.take_file(file),
                (Work::LoadNext, Reply::File(file)) => here.take_next(file),
                (Work::Probe, Reply::Found(found)) => if found {
                    here.finish(PhaseEnd::Done)
                } else {
                    here.finish(PhaseEnd::Lacking)
                },
                (Work::Print { .. }, Reply::Printed) => here.finish(PhaseEnd::Done),
                (Work::Enter, Reply::Refused(detail)) => here.fail(Failure::Exec { detail }),
                (work, _) => {
                    here.work = work;
                    (here, silence())
                },
            },
        }
    }
}

} // verus!
