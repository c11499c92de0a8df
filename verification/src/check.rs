//! Finding out whether a package exists.

use crate::effect;
use crate::effect::{Answer, AnswerView, Effect, Reply, Request, RequestView};
use crate::failure::Failure;
use crate::notice;
use crate::notice::Notice;
use crate::package;
use crate::package::PackageRef;
use crate::process;
use crate::text;
use vstd::prelude::*;
use vstd::string::*;

verus! {

/// How far the search for a package has come.
#[derive(Clone, Copy, Debug, PartialEq, Eq, Structural)]
pub enum CheckStage {
    /// The channel is asked.
    Channel,
    /// Nix is asked whether it has flakes.
    Support,
    /// The flake is asked for its standard output.
    Legacy,
    /// The flake is asked for its other output.
    Packages,
    /// The package is known to exist, or not.
    Known { found: bool },
}

/// The search for attribute `attr` of source `source`. The texts are strings in
/// running code and sequences of characters in specifications.
pub struct PackageCheck<T> {
    pub source: T,
    pub attr: T,
    pub stage: CheckStage,
}

impl View for PackageCheck<String> {
    type V = PackageCheck<Seq<char>>;

    open spec fn view(&self) -> PackageCheck<Seq<char>> {
        PackageCheck { source: self.source@, attr: self.attr@, stage: self.stage }
    }
}

/// What is said where nix could not be started.
pub open spec fn not_started() -> Seq<char> {
    Failure::Spawn { program: "nix"@ }.said()
}

/// A channel or flake that was asked for a package knows it.
pub open spec fn confirmed(ran: Option<process::SpawnView>) -> bool {
    ran matches Some(r) && r.success && process::says_true(r)
}

/// A flake that was asked for a package knows it: nix has flakes and could be asked,
/// and one of the flake's two outputs has the package.
pub open spec fn flake_confirmed(
    support: Option<process::SpawnView>,
    legacy: Option<process::SpawnView>,
    packages: Option<process::SpawnView>,
) -> bool {
    process::succeeded(support) && legacy is Some && (confirmed(legacy) || confirmed(packages))
}

/// What there is to complain of where nix was asked for a package.
pub open spec fn trouble(ran: Option<process::SpawnView>) -> Option<Seq<char>> {
    match ran {
        None => Some(not_started()),
        Some(r) => if r.success {
            None
        } else {
            Some(process::complaint(r))
        },
    }
}

impl PackageCheck<Seq<char>> {
    /// The search for a package, before anything was done.
    pub open spec fn begun(p: package::PackageRefView) -> Self {
        PackageCheck {
            source: p.source(),
            attr: p.attr(),
            stage: if p is Channel {
                CheckStage::Channel
            } else {
                CheckStage::Support
            },
        }
    }

    /// What is to be done next; nothing where it is known whether the package
    /// exists.
    pub open spec fn wants(self) -> Option<RequestView> {
        match self.stage {
            CheckStage::Channel => Some(
                Effect::Run {
                    invocation: process::evaluation(
                        process::channel_has_expr(self.source, self.attr),
                        false,
                        None,
                    ),
                },
            ),
            CheckStage::Support => Some(Effect::Run { invocation: process::flakes_probe() }),
            CheckStage::Legacy => Some(
                Effect::Run {
                    invocation: process::evaluation(
                        process::flake_has_expr(self.source, "legacyPackages"@, self.attr),
                        false,
                        None,
                    ),
                },
            ),
            CheckStage::Packages => Some(
                Effect::Run {
                    invocation: process::evaluation(
                        process::flake_has_expr(self.source, "packages"@, self.attr),
                        false,
                        None,
                    ),
                },
            ),
            CheckStage::Known { .. } => None,
        }
    }

    /// The stage behind a reply, and what is said of it. A channel that cannot be
    /// asked does not have the package; nor has a flake, where nix has no flakes,
    /// where nix cannot be started, or where neither of its outputs has it.
    pub open spec fn moved(self, reply: AnswerView) -> (CheckStage, Seq<Notice<Seq<char>>>) {
        match (self.stage, reply) {
            (CheckStage::Channel, Reply::Ran(ran)) => (
                CheckStage::Known { found: confirmed(ran) },
                match trouble(ran) {
                    Some(detail) => seq![Notice::ChannelCheckFailed { detail }],
                    None => seq![],
                },
            ),
            (CheckStage::Support, Reply::Ran(ran)) => if process::succeeded(ran) {
                (CheckStage::Legacy, seq![])
            } else {
                (CheckStage::Known { found: false }, seq![Notice::FlakesNotEnabled])
            },
            (CheckStage::Legacy, Reply::Ran(ran)) => if ran is None {
                (
                    CheckStage::Known { found: false },
                    seq![Notice::FlakeCheckFailed { detail: not_started() }],
                )
            } else if confirmed(ran) {
                (CheckStage::Known { found: true }, seq![])
            } else {
                (CheckStage::Packages, seq![])
            },
            (CheckStage::Packages, Reply::Ran(ran)) => (
                CheckStage::Known { found: confirmed(ran) },
                match trouble(ran) {
                    Some(detail) => seq![Notice::FlakeCheckFailed { detail }],
                    None => seq![],
                },
            ),
            (stage, _) => (stage, seq![]),
        }
    }

    /// The search behind a reply.
    pub open spec fn after(self, reply: AnswerView) -> Self {
        PackageCheck { stage: self.moved(reply).0, ..self }
    }
}

/// What there is to complain of where nix was asked for a package.
fn trouble_of(ran: &Option<process::SpawnResult>) -> (r: Option<String>)
    ensures
        crate::paths::optional(r) == trouble(process::ran_view(*ran)),
{
    match ran {
        None => {
            let failure: Failure<String> = Failure::Spawn { program: "nix".to_owned() };
            Some(failure.message())
        },
        Some(result) => if result.success {
            None
        } else {
            Some(text::trim(result.stderr.as_str()))
        },
    }
}

/// Whether a channel or flake that was asked for a package knows it.
fn confirms(ran: &Option<process::SpawnResult>) -> (r: bool)
    ensures
        r == confirmed(process::ran_view(*ran)),
{
    match ran {
        None => false,
        Some(result) => result.success && process::answers_true(result),
    }
}

/// Begins to search a channel for a package.
pub fn check_channel_package_exists(channel: &str, attr: &str) -> (r: PackageCheck<String>)
    ensures
        r@ == PackageCheck::begun(
            package::PackageRefView::Channel { source: channel@, attr: attr@ },
        ),
{
    PackageCheck { source: channel.to_owned(), attr: attr.to_owned(), stage: CheckStage::Channel }
}

/// Begins to search a flake for a package.
pub fn check_flake_package_exists(flake: &str, attr: &str) -> (r: PackageCheck<String>)
    ensures
        r@ == PackageCheck::begun(package::PackageRefView::Flake { source: flake@, attr: attr@ }),
{
    PackageCheck { source: flake.to_owned(), attr: attr.to_owned(), stage: CheckStage::Support }
}

/// Begins to search for a package.
pub fn check_package_exists(pkg_ref: &PackageRef) -> (r: PackageCheck<String>)
    ensures
        r@ == PackageCheck::begun(pkg_ref@),
{
    match pkg_ref {
        PackageRef::Channel { source, attr } => check_channel_package_exists(
            source.as_str(),
            attr.as_str(),
        ),
        PackageRef::Flake { source, attr } => check_flake_package_exists(
            source.as_str(),
            attr.as_str(),
        ),
    }
}

impl PackageCheck<String> {
    /// What is to be done next.
    pub fn request(&self) -> (r: Option<Request>)
        ensures
            effect::request_view(r) == self@.wants(),
    {
        let source = self.source.as_str();
        let attr = self.attr.as_str();
        match self.stage {
            CheckStage::Channel => Some(
                Effect::Run { invocation: process::ask_channel(source, attr) },
            ),
            CheckStage::Support => Some(Effect::Run { invocation: process::has_flakes() }),
            CheckStage::Legacy => Some(
                Effect::Run { invocation: process::ask_flake(source, "legacyPackages", attr) },
            ),
            CheckStage::Packages => Some(
                Effect::Run { invocation: process::ask_flake(source, "packages", attr) },
            ),
            CheckStage::Known { .. } => None,
        }
    }

    /// Goes on with a reply.
    pub fn advance(self, reply: Answer) -> (r: (Self, Vec<Notice<String>>))
        ensures
            r.0@ == self@.after(reply@),
            notice::notices_view(r.1@) == self@.moved(reply@).1,
    {
        let PackageCheck { source, attr, stage } = self;
        let mut notices: Vec<Notice<String>> = Vec::new();
        let stage = match (stage, reply) {
            (CheckStage::Channel, Reply::Ran(ran)) => {
                if let Some(detail) = trouble_of(&ran) {
                    notices.push(Notice::ChannelCheckFailed { detail });
                }
                CheckStage::Known { found: confirms(&ran) }
            },
            (CheckStage::Support, Reply::Ran(ran)) => if process::ran_well(&ran) {
                CheckStage::Legacy
            } else {
                notices.push(Notice::FlakesNotEnabled);
                CheckStage::Known { found: false }
            },
            (CheckStage::Legacy, Reply::Ran(ran)) => if ran.is_none() {
                let failure: Failure<String> = Failure::Spawn { program: "nix".to_owned() };
                notices.push(Notice::FlakeCheckFailed { detail: failure.message() });
                CheckStage::Known { found: false }
            } else if confirms(&ran) {
                CheckStage::Known { found: true }
            } else {
                CheckStage::Packages
            },
            (CheckStage::Packages, Reply::Ran(ran)) => {
                if let Some(detail) = trouble_of(&ran) {
                    notices.push(Notice::FlakeCheckFailed { detail });
                }
                CheckStage::Known { found: confirms(&ran) }
            },
            (stage, _) => stage,
        };
        assert(notice::notices_view(notices@) =~= self@.moved(reply@).1);
        (PackageCheck { source, attr, stage }, notices)
    }
}

/// A package of a channel is found exactly where the channel, asked for it,
/// confirms it.
pub proof fn law_channel_check(
    source: Seq<char>,
    attr: Seq<char>,
    ran: Option<process::SpawnView>,
)
    ensures
        PackageCheck::begun(package::PackageRefView::Channel { source, attr }).after(
            Reply::Ran(ran),
        ).stage == (CheckStage::Known { found: confirmed(ran) }),
{
}

/// A package of a flake is found exactly where nix has flakes and could be asked,
/// and one of the two outputs has it. The second is asked only where the first
/// does not have it.
pub proof fn law_flake_check(
    source: Seq<char>,
    attr: Seq<char>,
    support: Option<process::SpawnView>,
    legacy: Option<process::SpawnView>,
    packages: Option<process::SpawnView>,
)
    ensures
        PackageCheck::begun(package::PackageRefView::Flake { source, attr }).after(
            Reply::Ran(support),
        ).after(Reply::Ran(legacy)).after(Reply::Ran(packages)).stage == (CheckStage::Known {
            found: flake_confirmed(support, legacy, packages),
        }),
        confirmed(legacy) ==> PackageCheck::begun(
            package::PackageRefView::Flake { source, attr },
        ).after(Reply::Ran(support)).after(Reply::Ran(legacy)).wants() is None,
{
}

/// Once it is known whether a package exists, nothing more is asked and nothing
/// changes.
pub proof fn law_check_ends(check: PackageCheck<Seq<char>>, reply: AnswerView)
    ensures
        check.wants() is None <==> check.stage is Known,
        check.stage is Known ==> check.after(reply) == check && check.moved(reply).1.len() == 0,
{
}

} // verus!
