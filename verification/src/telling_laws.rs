//! What the user is told: whatever a notice or a failure is about stands in its text.

use crate::additions::{AddStage, AdderView};
use crate::check::{CheckStage, PackageCheck};
use crate::effect::{AnswerView, Effect, Reply, RequestView};
use crate::failure::Failure;
use crate::housekeeping;
use crate::housekeeping::{HousekeepingView, Kind};
use crate::nix;
use crate::notice;
use crate::notice::Notice;
use crate::package;
use crate::process;
use crate::rebuild::{BuilderView, Rebuild};
use crate::session::{SessionView, WorkView};
use crate::site::SiteView;
use crate::sources::SourcesView;
use crate::storage::StorageView;
use crate::supply;
use crate::supply::{Item, SupplierView, SupplyStage};
use crate::update::{SourceUpdate, Target, UpdateStage};
use vstd::prelude::*;

verus! {

/// What a notice is about, where it is about something. An environment that is missing
/// is told as `{:?}` shows it.
pub open spec fn subject(n: Notice<Seq<char>>) -> Option<Seq<char>> {
    match n {
        Notice::UpdatingChannel { name } => Some(name),
        Notice::UpdatingFlake { name } => Some(name),
        Notice::UpdatingGlobal => None,
        Notice::UsingChannel => None,
        Notice::TryingFlake => None,
        Notice::ChannelCheckFailed { detail } => Some(detail),
        Notice::FlakeCheckFailed { detail } => Some(detail),
        Notice::FlakesNotEnabled => None,
        Notice::GeneratingNix => None,
        Notice::GeneratedNix { content } => Some(content),
        Notice::Rebuilding { env } => Some(env),
        Notice::CollectingChannel { name } => Some(name),
        Notice::CollectingFlake { name } => Some(name),
        Notice::NoSourcePrefix { pkg } => Some(pkg),
        Notice::FoundInChannel { pkg } => Some(pkg),
        Notice::NotInChannel { pkg } => Some(pkg),
        Notice::FoundInFlake { pkg } => Some(pkg),
        Notice::NotFound { pkg } => Some(pkg),
        Notice::AddingSource { name } => Some(name),
        Notice::SourceFailed { pkg, .. } => Some(pkg),
        Notice::Removing { pkg } => Some(pkg),
        Notice::NotInstalled { pkg } => Some(pkg),
        Notice::FetchingChannels => None,
        Notice::UpdatingEnv { env } => Some(env),
        Notice::GlobalUpdated => None,
        Notice::Aborted { detail } => Some(detail),
        Notice::EnvMissing { env } => Some(notice::debug_text(env)),
        Notice::NeedsRebuild { .. } => None,
    }
}

/// A text holds what stands between two others.
proof fn lemma_stands_between(before: Seq<char>, part: Seq<char>, after: Seq<char>)
    ensures
        nix::occurs(part, before + part + after),
        nix::occurs(part, before + part),
        nix::occurs(part, part + after),
        nix::occurs(part, part),
{
    let none = Seq::<char>::empty();
    assert(before + part =~= before + part + none);
    assert(part + after =~= none + part + after);
    assert(part =~= none + part + none);
}

/// Whatever a notice is about stands in its text: the package, the source, the
/// environment, or what nix said.
pub proof fn law_notices_tell_their_subject(n: Notice<Seq<char>>)
    ensures
        subject(n) matches Some(about) ==> nix::occurs(about, n.said()),
{
    match n {
        Notice::UpdatingChannel { name } => {
            lemma_stands_between("Updating channel: "@, name, Seq::empty());
        },
        Notice::UpdatingFlake { name } => {
            lemma_stands_between("Updating flake: "@, name, Seq::empty());
        },
        Notice::ChannelCheckFailed { detail } => {
            lemma_stands_between("channel check failed: "@, detail, Seq::empty());
        },
        Notice::FlakeCheckFailed { detail } => {
            lemma_stands_between("flake check failed: "@, detail, Seq::empty());
        },
        Notice::GeneratedNix { content } => {
            lemma_stands_between("Generated nix:\n"@, content, Seq::empty());
        },
        Notice::Rebuilding { env } => {
            lemma_stands_between("rebuilding "@, env, "..."@);
        },
        Notice::CollectingChannel { name } => {
            lemma_stands_between("GC channel: "@, name, Seq::empty());
        },
        Notice::CollectingFlake { name } => {
            lemma_stands_between("GC flake: "@, name, Seq::empty());
        },
        Notice::NoSourcePrefix { pkg } => {
            lemma_stands_between(pkg + ": no source prefix, trying nixpkgs."@, pkg, Seq::empty());
        },
        Notice::FoundInChannel { pkg } => {
            lemma_stands_between(pkg + ": found as nixpkgs."@, pkg, Seq::empty());
        },
        Notice::NotInChannel { pkg } => {
            lemma_stands_between(pkg + ": not in channel, trying nixpkgs#"@, pkg, Seq::empty());
        },
        Notice::FoundInFlake { pkg } => {
            lemma_stands_between(pkg + ": found as nixpkgs#"@, pkg, Seq::empty());
        },
        Notice::NotFound { pkg } => {
            lemma_stands_between(Seq::empty(), pkg, ": does not exist or fails to evaluate"@);
        },
        Notice::AddingSource { name } => {
            lemma_stands_between("Adding source: "@, name, Seq::empty());
        },
        Notice::SourceFailed { pkg, detail } => {
            let text = ": failed to add source: "@;
            lemma_stands_between(Seq::empty(), pkg, text + detail);
            assert(pkg + text + detail =~= pkg + (text + detail));
        },
        Notice::Removing { pkg } => {
            lemma_stands_between("Removing: "@, pkg, Seq::empty());
        },
        Notice::NotInstalled { pkg } => {
            lemma_stands_between(Seq::empty(), pkg, ": not installed"@);
        },
        Notice::UpdatingEnv { env } => {
            lemma_stands_between("Updating environment: "@, env, Seq::empty());
        },
        Notice::Aborted { detail } => {
            lemma_stands_between("Error: "@, detail, Seq::empty());
        },
        Notice::EnvMissing { env } => {
            let shown = notice::debug_text(env);
            let text = " does not exist, please create it by adding packages\n"@;
            let line = notice::hint("add"@, env, " <package>"@);
            lemma_stands_between("Environment "@, shown, text + line);
            assert("Environment "@ + shown + text + line =~= "Environment "@ + shown + (text
                + line));
        },
        _ => {},
    }
}

/// A package that names no source is told with the source where it is looked for and
/// where it was found; a source that failed is told with what was said of it; and the
/// command lines that are proposed name the environment, unless it is the one that needs
/// no name.
pub proof fn law_notices_tell_what_to_do(pkg: Seq<char>, detail: Seq<char>, env: Seq<char>)
    ensures
        nix::occurs("nixpkgs."@ + pkg, Notice::NoSourcePrefix { pkg }.said()),
        nix::occurs("nixpkgs."@ + pkg, Notice::FoundInChannel { pkg }.said()),
        nix::occurs("nixpkgs#"@ + pkg, Notice::NotInChannel { pkg }.said()),
        nix::occurs("nixpkgs#"@ + pkg, Notice::FoundInFlake { pkg }.said()),
        nix::occurs(detail, Notice::SourceFailed { pkg, detail }.said()),
        env != "default"@ ==> nix::occurs(
            "fhs add -e "@ + env,
            Notice::EnvMissing { env }.said(),
        ),
        env != "default"@ ==> nix::occurs(
            "fhs rebuild -e "@ + env,
            Notice::NeedsRebuild { env }.said(),
        ),
        nix::occurs("fhs add"@, Notice::EnvMissing { env }.said()),
        nix::occurs("fhs rebuild"@, Notice::NeedsRebuild { env }.said()),
{
    lemma_proposals(env);
    reveal_strlit("nixpkgs.");
    reveal_strlit("nixpkgs#");
    reveal_strlit(": no source prefix, trying nixpkgs.");
    reveal_strlit(": found as nixpkgs.");
    reveal_strlit(": not in channel, trying nixpkgs#");
    reveal_strlit(": found as nixpkgs#");
    let none = Seq::<char>::empty();
    let a = ": no source prefix, trying nixpkgs."@;
    assert(a =~= a.take(a.len() - 8) + "nixpkgs."@);
    assert(pkg + a + pkg =~= (pkg + a.take(a.len() - 8)) + ("nixpkgs."@ + pkg) + none);
    let b = ": found as nixpkgs."@;
    assert(b =~= b.take(b.len() - 8) + "nixpkgs."@);
    assert(pkg + b + pkg =~= (pkg + b.take(b.len() - 8)) + ("nixpkgs."@ + pkg) + none);
    let c = ": not in channel, trying nixpkgs#"@;
    assert(c =~= c.take(c.len() - 8) + "nixpkgs#"@);
    assert(pkg + c + pkg =~= (pkg + c.take(c.len() - 8)) + ("nixpkgs#"@ + pkg) + none);
    let d = ": found as nixpkgs#"@;
    assert(d =~= d.take(d.len() - 8) + "nixpkgs#"@);
    assert(pkg + d + pkg =~= (pkg + d.take(d.len() - 8)) + ("nixpkgs#"@ + pkg) + none);
    lemma_stands_between(pkg + ": failed to add source: "@, detail, none);
}

proof fn lemma_proposals(env: Seq<char>)
    ensures
        env != "default"@ ==> nix::occurs(
            "fhs add -e "@ + env,
            Notice::EnvMissing { env }.said(),
        ),
        env != "default"@ ==> nix::occurs(
            "fhs rebuild -e "@ + env,
            Notice::NeedsRebuild { env }.said(),
        ),
        nix::occurs("fhs add"@, Notice::EnvMissing { env }.said()),
        nix::occurs("fhs rebuild"@, Notice::NeedsRebuild { env }.said()),
{
    reveal_strlit(" $ fhs ");
    reveal_strlit(" -e ");
    reveal_strlit("add");
    reveal_strlit("rebuild");
    reveal_strlit("fhs add");
    reveal_strlit("fhs rebuild");
    reveal_strlit("fhs add -e ");
    reveal_strlit("fhs rebuild -e ");
    let lead = seq![' ', '$', ' '];
    let none = Seq::<char>::empty();
    let shown = notice::debug_text(env);
    let head = "Environment "@ + shown
        + " does not exist, please create it by adding packages\n"@;
    let text = "Environment needs rebuild, auto-rebuild disabled\n"@;
    let add = notice::hint("add"@, env, " <package>"@);
    let build = notice::hint("rebuild"@, env, none);
    if env == "default"@ {
        assert(head + add =~= (head + lead) + "fhs add"@ + " <package>"@);
        assert(text + build =~= (text + lead) + "fhs rebuild"@ + none);
    } else {
        let named = seq![' ', '-', 'e', ' '] + env;
        assert(head + add =~= (head + lead) + "fhs add"@ + (named + " <package>"@));
        assert(text + build =~= (text + lead) + "fhs rebuild"@ + named);
        assert(head + add =~= (head + lead) + ("fhs add -e "@ + env) + " <package>"@);
        assert(text + build =~= (text + lead) + ("fhs rebuild -e "@ + env) + none);
    }
}

/// Whatever a failure is about stands in its text, and so does what was said of it.
pub proof fn law_failures_tell_their_subject(name: Seq<char>, detail: Seq<char>)
    ensures
        nix::occurs(name, Failure::Spawn { program: name }.said()),
        nix::occurs(detail, Failure::Nix { detail }.said()),
        nix::occurs(name, Failure::ChannelUpdate { name, detail }.said()),
        nix::occurs(detail, Failure::ChannelUpdate { name, detail }.said()),
        nix::occurs(name, Failure::FlakeUpdate { name, detail }.said()),
        nix::occurs(detail, Failure::FlakeUpdate { name, detail }.said()),
        nix::occurs(detail, Failure::GlobalUpdate { detail }.said()),
        nix::occurs(detail, Failure::Exec { detail }.said()),
        nix::occurs(detail, Failure::System { detail }.said()),
{
    let none = Seq::<char>::empty();
    lemma_stands_between("Failed to spawn "@, name, none);
    lemma_stands_between("nix: "@, detail, none);
    let a = "Failed to update channel "@;
    let b = "Failed to update flake "@;
    let colon = ": "@;
    lemma_stands_between(a, name, colon + detail);
    assert(a + name + colon + detail =~= a + name + (colon + detail));
    lemma_stands_between(a + name + colon, detail, none);
    lemma_stands_between(b, name, colon + detail);
    assert(b + name + colon + detail =~= b + name + (colon + detail));
    lemma_stands_between(b + name + colon, detail, none);
    lemma_stands_between("Failed to update global nixpkgs: "@, detail, none);
    lemma_stands_between("Failed to exec: "@, detail, none);
}

/// A notice tells that something was not done.
pub open spec fn tells_trouble(n: Notice<Seq<char>>) -> bool {
    match n {
        Notice::NotFound { .. } => true,
        Notice::SourceFailed { .. } => true,
        Notice::NotInstalled { .. } => true,
        Notice::Aborted { .. } => true,
        Notice::EnvMissing { .. } => true,
        Notice::NeedsRebuild { .. } => true,
        _ => false,
    }
}

/// A notice tells of work that takes its time, or of its success.
pub open spec fn tells_news(n: Notice<Seq<char>>) -> bool {
    match n {
        Notice::Rebuilding { .. } => true,
        Notice::FetchingChannels => true,
        Notice::UpdatingEnv { .. } => true,
        Notice::GlobalUpdated => true,
        _ => false,
    }
}

/// What was not done is told to every user, and so are the news, which are a part of the
/// output; all else is for those who want to hear everything. Of what was not done, only
/// a package that was not there to be removed is a part of the output.
pub proof fn law_trouble_is_never_held_back(n: Notice<Seq<char>>)
    ensures
        n.is_detail() <==> !tells_trouble(n) && !tells_news(n),
        n.is_output() <==> tells_news(n) || n is NotInstalled,
        n.is_output() ==> !n.is_detail(),
{
}

/// Some notice tells of a package that it was left out, by the name that it is written
/// with.
pub open spec fn tells_left_out(said: Seq<Notice<Seq<char>>>, pkg: Seq<char>) -> bool {
    exists|i: int|
        0 <= i < said.len() && tells_trouble(#[trigger] said[i]) && !said[i].is_detail()
            && nix::occurs(pkg, said[i].said())
}

/// A package that is left out is told, by its name, to every user; one whose source
/// could not be fetched is told with the reason.
pub proof fn law_left_out_packages_are_told(
    adder: AdderView,
    storage: StorageView,
    sources: SourcesView,
    reply: AnswerView,
)
    requires
        adder.verdict(reply) == Some(None::<package::PackageRefView>),
    ensures
        ({
            let next = adder.moved(storage, sources, reply);
            &&& next.storage == storage
            &&& next.adder.had_errors
            &&& match adder.stage {
                AddStage::Flake { pkg, .. } => tells_left_out(next.said, pkg),
                AddStage::Fetch { pkg_ref, .. } => tells_left_out(next.said, pkg_ref.written()),
                AddStage::Verify { pkg_ref, .. } => tells_left_out(next.said, pkg_ref.written()),
                _ => false,
            }
        }),
{
    let next = adder.moved(storage, sources, reply);
    match adder.stage {
        AddStage::Flake { pkg, check } => {
            let k = check.moved(reply).1.len() as int;
            assert(next.said[k] == Notice::NotFound { pkg });
            law_notices_tell_their_subject(next.said[k]);
        },
        AddStage::Fetch { pkg_ref, update } => {
            let k = update.moved(reply).1.len() as int;
            assert(next.said[k] is SourceFailed);
            law_notices_tell_their_subject(next.said[k]);
        },
        AddStage::Verify { pkg_ref, check } => {
            let k = check.moved(reply).1.len() as int;
            assert(next.said[k] == Notice::NotFound { pkg: pkg_ref.written() });
            law_notices_tell_their_subject(next.said[k]);
        },
        _ => {},
    }
}

/// A notice tells that a source is fetched, by its name where it has one.
pub open spec fn announces(n: Notice<Seq<char>>, target: Target<Seq<char>>) -> bool {
    match target {
        Target::Channel { name } => n == (Notice::UpdatingChannel { name }),
        Target::Flake { name } => n == (Notice::UpdatingFlake { name }),
        Target::Nixpkgs => n is UpdatingGlobal,
    }
}

/// Each source is announced by its own name when its fetching begins, and that is the
/// one that is fetched.
pub proof fn law_fetching_is_announced(
    supply: SupplierView,
    reply: AnswerView,
    rest: Seq<Item<Seq<char>>>,
)
    ensures
        supply.wf() && (supply.stage is Probe || supply.after(reply).rest != supply.rest) ==> (
        supply.after(reply).stage matches SupplyStage::Fetch { update } ==> {
            let said = supply.moved(reply).1;
            &&& said.len() > 0
            &&& announces(said.last(), update.target)
            &&& update.target == supply.after(reply).rest.first().target
            &&& update.root == supply.after(reply).rest.first().root
        }),
        rest.len() > 0 ==> {
            let begun = SupplierView::facing(rest, true);
            &&& begun.0.stage matches SupplyStage::Fetch { update }
            &&& update.target == rest.first().target
            &&& update.root == rest.first().root
            &&& begun.1.len() == 1
            &&& announces(begun.1[0], update.target)
        },
{
    if supply.wf() {
        supply::law_supply_stays_well_formed(supply, reply);
    }
}

/// A root that no package needs is told by the name of its source before it is looked
/// for, and that is the one that is looked for.
pub proof fn law_collecting_is_told(
    work: HousekeepingView,
    kind: Kind,
    unused: Seq<Seq<char>>,
)
    requires
        unused.len() > 0,
    ensures
        ({
            let next = work.facing(kind, unused);
            let looking = HousekeepingView { chore: next.0, ..work };
            &&& next.1.len() == 1
            &&& match kind {
                Kind::Channel => {
                    &&& next.1[0] == (Notice::CollectingChannel { name: unused[0] })
                    &&& looking.wants() == Some(
                        RequestView::Exists { path: work.sources.channel_root(unused[0]) },
                    )
                    &&& looking.after(Reply::Found(true)).wants() == Some(
                        RequestView::RemoveFile { path: work.sources.channel_root(unused[0]) },
                    )
                },
                Kind::Flake => {
                    &&& next.1[0] == (Notice::CollectingFlake { name: unused[0] })
                    &&& looking.wants() == Some(
                        RequestView::Exists { path: work.sources.flake_root(unused[0]) },
                    )
                    &&& looking.after(Reply::Found(true)).wants() == Some(
                        RequestView::RemoveFile { path: work.sources.flake_root(unused[0]) },
                    )
                },
            }
        }),
{
}

/// Roots are looked for in both directories of the environment, those of channels first.
pub proof fn law_both_kinds_of_roots_are_listed(
    sources: SourcesView,
    packages: Seq<Seq<char>>,
)
    ensures
        ({
            let begun = HousekeepingView::begun(sources, packages);
            let next = begun.after(Reply::Names(Seq::empty()));
            &&& begun.wants() == Some(RequestView::ListDir { path: sources.channels_path })
            &&& next.wants() == Some(RequestView::ListDir { path: sources.flakes_path })
            &&& next.after(Reply::Names(Seq::empty())).chore is Fetch
        }),
{
    let none = Seq::<Seq<char>>::empty();
    let begun = HousekeepingView::begun(sources, packages);
    reveal(Seq::filter);
    assert(none.filter(housekeeping::not_in(begun.channels)).len() == 0);
    assert(none.filter(housekeeping::not_in(begun.flakes)).len() == 0);
}

/// A build is told by the name of its environment, and the expression that is told is
/// the one that was written.
pub proof fn law_building_is_told(site: SiteView, content: Seq<char>)
    ensures
        ({
            let written = BuilderView::Write { content };
            let said = written.moved(site, Reply::Stored(None)).1;
            &&& written.wants(site) matches Some(Effect::WriteFile { content: told, .. })
            &&& said.contains(Notice::GeneratedNix { content: told })
            &&& said.contains(Notice::Rebuilding { env: site.env })
        }),
{
    let said = BuilderView::Write { content }.moved(site, Reply::Stored(None)).1;
    assert(said[0] == Notice::GeneratedNix { content });
    assert(said[1] == Notice::Rebuilding { env: site.env });
}

/// The adding of a package is told by its name: that it names no source, where it was
/// found, and which source is fetched for it, which is its own.
pub proof fn law_adding_is_told(
    adder: AdderView,
    pkgs: Seq<Seq<char>>,
    storage: StorageView,
    sources: SourcesView,
    reply: AnswerView,
)
    ensures
        pkgs.len() > 0 && package::parsed(pkgs[0]) is None ==> AdderView::facing(pkgs, false).1
            == seq![Notice::NoSourcePrefix { pkg: pkgs[0] }],
        ({
            let next = adder.moved(storage, sources, reply);
            match adder.stage {
                AddStage::Channel { pkg, check } => check.after(reply).stage is Known ==> {
                    &&& next.said.len() > 0
                    &&& next.adder.stage is Probe ==> next.said.last() == (
                    Notice::FoundInChannel { pkg })
                    &&& next.adder.stage is Flake ==> next.said.last() == (
                    Notice::NotInChannel { pkg })
                },
                AddStage::Flake { pkg, check } => check.after(reply).stage == (CheckStage::Known {
                    found: true,
                }) ==> next.said.len() > 0 && next.said.last() == (Notice::FoundInFlake { pkg }),
                AddStage::Probe { pkg_ref } => reply == AnswerView::Found(false) ==> {
                    &&& next.said.len() == 2
                    &&& next.said[0] == (Notice::AddingSource { name: pkg_ref.source() })
                    &&& next.adder.stage matches AddStage::Fetch { update, .. }
                    &&& announces(next.said[1], update.target)
                    &&& update.root == sources.root_of(pkg_ref)
                },
                _ => true,
            }
        }),
{
}

/// A question to nix that failed is told with what nix said of it.
pub proof fn law_failed_questions_are_told(
    check: PackageCheck<Seq<char>>,
    ran: process::SpawnView,
)
    requires
        check.stage is Channel || check.stage is Packages,
        !ran.success,
    ensures
        ({
            let said = check.moved(Reply::Ran(Some(ran))).1;
            &&& check.after(Reply::Ran(Some(ran))).stage == (CheckStage::Known { found: false })
            &&& said.len() == 1
            &&& nix::occurs(process::complaint(ran), said[0].said())
        }),
{
    let said = check.moved(Reply::Ran(Some(ran))).1;
    law_notices_tell_their_subject(said[0]);
}

/// A failure ends the command, and what is said of it is told to every user.
pub proof fn law_failures_are_told(s: SessionView, failure: Failure<Seq<char>>)
    requires
        s.plan.phase() is Some,
    ensures
        ({
            let next = s.failed(failure);
            &&& next.0.wants() is None
            &&& !next.0.plan.went_well()
            &&& next.1.len() == 1
            &&& !next.1[0].is_detail()
            &&& nix::occurs(failure.said(), next.1[0].said())
        }),
{
    law_notices_tell_their_subject(s.failed(failure).1[0]);
}

/// What the system said of a directory that could not be made, and of an environment
/// that could not be entered, is told.
pub proof fn law_complaints_are_told(s: SessionView, detail: Seq<char>)
    requires
        s.plan.phase() is Some,
    ensures
        s.work is Enter ==> told_at_the_end(s.moved(Reply::Refused(detail)), detail),
        s.work is Store && (s.wants() matches Some(Effect::CreateDir { .. })) ==> told_at_the_end(
            s.moved(Reply::Stored(Some(detail))),
            detail,
        ),
        (s.work matches WorkView::Build { builder } && (builder is MakeDir || builder is Write))
            ==> told_at_the_end(s.moved(Reply::Stored(Some(detail))), detail),
{
    let none = Seq::<char>::empty();
    let exec = Failure::Exec { detail };
    let system = Failure::System { detail };
    law_failures_tell_their_subject(none, detail);
    law_failures_are_told(s, exec);
    law_failures_are_told(s, system);
    nix::lemma_occurs_through(detail, exec.said(), s.failed(exec).1[0].said());
    nix::lemma_occurs_through(detail, system.said(), s.failed(system).1[0].said());
    let empty = Seq::<Notice<Seq<char>>>::empty();
    assert(empty + s.failed(system).1 =~= s.failed(system).1);
}

/// A command has ended, and something is told of it.
pub open spec fn told_at_the_end(
    next: (SessionView, Seq<Notice<Seq<char>>>),
    detail: Seq<char>,
) -> bool {
    &&& next.0.wants() is None
    &&& !next.0.plan.went_well()
    &&& next.1.len() == 1
    &&& !next.1[0].is_detail()
    &&& nix::occurs(detail, next.1[0].said())
}

/// A program that could not be started is told by its own name: by that of the program
/// that was to run.
pub proof fn law_programs_that_do_not_start_are_told(
    update: SourceUpdate<Seq<char>>,
    builder: BuilderView,
    site: SiteView,
    s: SessionView,
)
    ensures
        update.wants() matches Some(Effect::Run { invocation }) ==> (update.after(
            Reply::Ran(None),
        ).stage matches UpdateStage::Failed { failure } ==> (
        failure matches Failure::Spawn { program } ==> program == invocation.program)),
        !(builder is FetchGlobal) ==> (builder.wants(site) matches Some(Effect::Run { invocation })
            ==> (builder.after(site, Reply::Ran(None)) matches Rebuild::Failed { failure }
            && failure == (Failure::Spawn { program: invocation.program }))),
        s.work is FetchChannels ==> (s.wants() matches Some(Effect::Run { invocation })
            && s.moved(Reply::Ran(None)) == s.failed(
            Failure::Spawn { program: invocation.program },
        )),
{
}

} // verus!
