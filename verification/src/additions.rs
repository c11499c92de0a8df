//! Adding packages to an environment.

use crate::check;
use crate::check::{CheckStage, PackageCheck};
use crate::effect;
use crate::effect::{Answer, AnswerView, Effect, Reply, Request, RequestView};
use crate::notice;
use crate::notice::Notice;
use crate::package;
use crate::package::{PackageRef, PackageRefView};
use crate::sources;
use crate::sources::{Sources, SourcesView};
use crate::storage::{Storage, StorageView};
use crate::storage_laws;
use crate::text;
use crate::update::{SourceUpdate, UpdateStage};
use vstd::prelude::*;
use vstd::string::*;

verus! {

/// How far the package at hand has come. The texts are strings in running code and
/// sequences of characters in specifications; so are the references.
pub enum AddStage<T, P> {
    /// A package that names no source is searched in the channel.
    Channel { pkg: T, check: PackageCheck<T> },
    /// A package that names no source is searched in the flake.
    Flake { pkg: T, check: PackageCheck<T> },
    /// The source of the package may be missing.
    Probe { pkg_ref: P },
    /// The source of the package is fetched.
    Fetch { pkg_ref: P, update: SourceUpdate<T> },
    /// The package is searched in its source.
    Verify { pkg_ref: P, check: PackageCheck<T> },
    /// There is no package left.
    Finished,
}

/// The adding of packages. `rest` holds those behind the one at hand.
pub struct Additions<L, T, P> {
    pub rest: L,
    pub had_errors: bool,
    pub stage: AddStage<T, P>,
}

/// The adding of packages, in running code.
pub type Adder = Additions<Vec<String>, String, PackageRef>;

/// The adding of packages, in specifications.
pub type AdderView = Additions<Seq<Seq<char>>, Seq<char>, PackageRefView>;

impl View for AddStage<String, PackageRef> {
    type V = AddStage<Seq<char>, PackageRefView>;

    open spec fn view(&self) -> AddStage<Seq<char>, PackageRefView> {
        match self {
            AddStage::Channel { pkg, check } => AddStage::Channel { pkg: pkg@, check: check@ },
            AddStage::Flake { pkg, check } => AddStage::Flake { pkg: pkg@, check: check@ },
            AddStage::Probe { pkg_ref } => AddStage::Probe { pkg_ref: pkg_ref@ },
            AddStage::Fetch { pkg_ref, update } => AddStage::Fetch {
                pkg_ref: pkg_ref@,
                update: update@,
            },
            AddStage::Verify { pkg_ref, check } => AddStage::Verify {
                pkg_ref: pkg_ref@,
                check: check@,
            },
            AddStage::Finished => AddStage::Finished,
        }
    }
}

impl View for Additions<Vec<String>, String, PackageRef> {
    type V = AdderView;

    open spec fn view(&self) -> AdderView {
        Additions {
            rest: text::texts(self.rest@),
            had_errors: self.had_errors,
            stage: self.stage@,
        }
    }
}

/// A package of the channel that is searched for packages without a source.
pub open spec fn in_channel(pkg: Seq<char>) -> PackageRefView {
    PackageRefView::Channel { source: "nixpkgs"@, attr: pkg }
}

/// A package of the flake that is searched for packages without a source.
pub open spec fn in_flake(pkg: Seq<char>) -> PackageRefView {
    PackageRefView::Flake { source: "nixpkgs"@, attr: pkg }
}

/// The adding of packages, what it made of the storage, and what is said of it.
pub struct AddMove {
    pub adder: AdderView,
    pub storage: StorageView,
    pub said: Seq<Notice<Seq<char>>>,
}

impl Additions<Seq<Seq<char>>, Seq<char>, PackageRefView> {
    /// The adding of packages before the first of them, and what is said of it.
    pub open spec fn facing(pkgs: Seq<Seq<char>>, had_errors: bool) -> (
        AdderView,
        Seq<Notice<Seq<char>>>,
    ) {
        if pkgs.len() == 0 {
            (Additions { rest: pkgs, had_errors, stage: AddStage::Finished }, seq![])
        } else {
            let pkg = pkgs.first();
            let rest = pkgs.drop_first();
            match package::parsed(pkg) {
                Some(pkg_ref) => (
                    Additions { rest, had_errors, stage: AddStage::Probe { pkg_ref } },
                    seq![],
                ),
                None => (
                    Additions {
                        rest,
                        had_errors,
                        stage: AddStage::Channel {
                            pkg,
                            check: PackageCheck::begun(in_channel(pkg)),
                        },
                    },
                    seq![Notice::NoSourcePrefix { pkg }],
                ),
            }
        }
    }

    /// What is to be done next; nothing where no package is left.
    pub open spec fn wants(self, sources: SourcesView) -> Option<RequestView> {
        match self.stage {
            AddStage::Channel { check, .. } => check.wants(),
            AddStage::Flake { check, .. } => check.wants(),
            AddStage::Probe { pkg_ref } => Some(
                Effect::Exists { path: sources.root_of(pkg_ref) },
            ),
            AddStage::Fetch { update, .. } => update.wants(),
            AddStage::Verify { check, .. } => check.wants(),
            AddStage::Finished => None,
        }
    }

    /// The same packages with the one at hand at another stage.
    pub open spec fn at(self, stage: AddStage<Seq<char>, PackageRefView>) -> AdderView {
        Additions { stage, ..self }
    }

    /// The adding of packages once the one at hand was given up.
    pub open spec fn given_up(
        self,
        storage: StorageView,
        said: Seq<Notice<Seq<char>>>,
    ) -> AddMove {
        let next = Self::facing(self.rest, true);
        AddMove { adder: next.0, storage, said: said + next.1 }
    }

    /// The adding of packages behind a reply. A package comes into the storage
    /// exactly where its source is there or could be fetched, and has it.
    pub open spec fn moved(
        self,
        storage: StorageView,
        sources: SourcesView,
        reply: AnswerView,
    ) -> AddMove {
        match self.stage {
            AddStage::Channel { pkg, check } => {
                let next = check.after(reply);
                let said = check.moved(reply).1;
                match next.stage {
                    CheckStage::Known { found } => if found {
                        AddMove {
                            adder: self.at(AddStage::Probe { pkg_ref: in_channel(pkg) }),
                            storage,
                            said: said + seq![Notice::FoundInChannel { pkg }],
                        }
                    } else {
                        AddMove {
                            adder: self.at(
                                AddStage::Flake { pkg, check: PackageCheck::begun(in_flake(pkg)) },
                            ),
                            storage,
                            said: said + seq![Notice::NotInChannel { pkg }],
                        }
                    },
                    _ => AddMove {
                        adder: self.at(AddStage::Channel { pkg, check: next }),
                        storage,
                        said,
                    },
                }
            },
            AddStage::Flake { pkg, check } => {
                let next = check.after(reply);
                let said = check.moved(reply).1;
                match next.stage {
                    CheckStage::Known { found } => if found {
                        AddMove {
                            adder: self.at(AddStage::Probe { pkg_ref: in_flake(pkg) }),
                            storage,
                            said: said + seq![Notice::FoundInFlake { pkg }],
                        }
                    } else {
                        self.given_up(storage, said + seq![Notice::NotFound { pkg }])
                    },
                    _ => AddMove {
                        adder: self.at(AddStage::Flake { pkg, check: next }),
                        storage,
                        said,
                    },
                }
            },
            AddStage::Probe { pkg_ref } => match reply {
                Reply::Found(found) => if found {
                    AddMove {
                        adder: self.at(
                            AddStage::Verify { pkg_ref, check: PackageCheck::begun(pkg_ref) },
                        ),
                        storage,
                        said: seq![],
                    }
                } else {
                    AddMove {
                        adder: self.at(
                            AddStage::Fetch {
                                pkg_ref,
                                update: SourceUpdate::begun(
                                    sources::target_of(pkg_ref),
                                    sources.root_of(pkg_ref),
                                ),
                            },
                        ),
                        storage,
                        said: seq![
                            Notice::AddingSource { name: pkg_ref.source() },
                            sources::target_of(pkg_ref).announcement(),
                        ],
                    }
                },
                _ => AddMove { adder: self, storage, said: seq![] },
            },
            AddStage::Fetch { pkg_ref, update } => {
                let next = update.after(reply);
                let said = update.moved(reply).1;
                match next.stage {
                    UpdateStage::Updated => AddMove {
                        adder: self.at(
                            AddStage::Verify { pkg_ref, check: PackageCheck::begun(pkg_ref) },
                        ),
                        storage,
                        said,
                    },
                    UpdateStage::Failed { failure } => self.given_up(
                        storage,
                        said + seq![
                            Notice::SourceFailed {
                                pkg: pkg_ref.written(),
                                detail: failure.said(),
                            },
                        ],
                    ),
                    _ => AddMove {
                        adder: self.at(AddStage::Fetch { pkg_ref, update: next }),
                        storage,
                        said,
                    },
                }
            },
            AddStage::Verify { pkg_ref, check } => {
                let next = check.after(reply);
                let said = check.moved(reply).1;
                match next.stage {
                    CheckStage::Known { found } => if found {
                        let following = Self::facing(self.rest, self.had_errors);
                        AddMove {
                            adder: following.0,
                            storage: storage.with(pkg_ref.written()),
                            said: said + following.1,
                        }
                    } else {
                        self.given_up(
                            storage,
                            said + seq![Notice::NotFound { pkg: pkg_ref.written() }],
                        )
                    },
                    _ => AddMove {
                        adder: self.at(AddStage::Verify { pkg_ref, check: next }),
                        storage,
                        said,
                    },
                }
            },
            AddStage::Finished => AddMove { adder: self, storage, said: seq![] },
        }
    }
}

/// Begins to add packages.
pub fn add_packages(pkgs: Vec<String>) -> (r: (Adder, Vec<Notice<String>>))
    ensures
        r.0@ == AdderView::facing(text::texts(pkgs@), false).0,
        notice::notices_view(r.1@) == AdderView::facing(text::texts(pkgs@), false).1,
{
    Additions::face(pkgs, false)
}

fn channel_ref(pkg: &str) -> (r: PackageRef)
    ensures
        r@ == in_channel(pkg@),
{
    PackageRef::Channel { source: "nixpkgs".to_owned(), attr: pkg.to_owned() }
}

fn flake_ref(pkg: &str) -> (r: PackageRef)
    ensures
        r@ == in_flake(pkg@),
{
    PackageRef::Flake { source: "nixpkgs".to_owned(), attr: pkg.to_owned() }
}

impl Additions<Vec<String>, String, PackageRef> {
    fn face(pkgs: Vec<String>, had_errors: bool) -> (r: (Self, Vec<Notice<String>>))
        ensures
            r.0@ == AdderView::facing(text::texts(pkgs@), had_errors).0,
            notice::notices_view(r.1@) == AdderView::facing(text::texts(pkgs@), had_errors).1,
    {
        let ghost all = text::texts(pkgs@);
        let mut rest = pkgs;
        let mut notices: Vec<Notice<String>> = Vec::new();
        if rest.len() == 0 {
            assert(notice::notices_view(notices@) =~= AdderView::facing(all, had_errors).1);
            return (Additions { rest, had_errors, stage: AddStage::Finished }, notices);
        }
        let pkg = rest.remove(0);
        assert(text::texts(rest@) =~= all.drop_first());
        let stage = match PackageRef::parse(pkg.as_str()) {
            Some(pkg_ref) => AddStage::Probe { pkg_ref },
            None => {
                notices.push(Notice::NoSourcePrefix { pkg: pkg.clone() });
                let check = check::check_package_exists(&channel_ref(pkg.as_str()));
                AddStage::Channel { pkg, check }
            },
        };
        assert(notice::notices_view(notices@) =~= AdderView::facing(all, had_errors).1);
        (Additions { rest, had_errors, stage }, notices)
    }

    fn give_up(rest: Vec<String>, said: Vec<Notice<String>>) -> (r: (Self, Vec<Notice<String>>))
        ensures
            r.0@ == AdderView::facing(text::texts(rest@), true).0,
            notice::notices_view(r.1@) == notice::notices_view(said@) + AdderView::facing(
                text::texts(rest@),
                true,
            ).1,
    {
        let (next, more) = Additions::face(rest, true);
        (next, notice::append_all(said, more))
    }

    /// What is to be done next.
    pub fn request(&self, sources: &Sources) -> (r: Option<Request>)
        ensures
            effect::request_view(r) == self@.wants(sources@),
    {
        match &self.stage {
            AddStage::Channel { check, .. } => check.request(),
            AddStage::Flake { check, .. } => check.request(),
            AddStage::Probe { pkg_ref } => Some(sources.has(pkg_ref)),
            AddStage::Fetch { update, .. } => update.request(),
            AddStage::Verify { check, .. } => check.request(),
            AddStage::Finished => None,
        }
    }

    /// Goes on with a reply. A package that was found comes into the storage.
    pub fn advance(self, storage: &mut Storage, sources: &Sources, reply: Answer) -> (r: (
        Self,
        Vec<Notice<String>>,
    ))
        ensures
            r.0@ == self@.moved(old(storage)@, sources@, reply@).adder,
            final(storage)@ == self@.moved(old(storage)@, sources@, reply@).storage,
            notice::notices_view(r.1@) == self@.moved(old(storage)@, sources@, reply@).said,
    {
        let ghost moved = self@.moved(old(storage)@, sources@, reply@);
        let Additions { rest, had_errors, stage } = self;
        match stage {
            AddStage::Channel { pkg, check } => {
                let (check, said) = check.advance(reply);
                match check.stage {
                    CheckStage::Known { found } => if found {
                        let pkg_ref = channel_ref(pkg.as_str());
                        (
                            Additions { rest, had_errors, stage: AddStage::Probe { pkg_ref } },
                            notice::append_notice(said, Notice::FoundInChannel { pkg }),
                        )
                    } else {
                        let check = check::check_package_exists(&flake_ref(pkg.as_str()));
                        let name = pkg.clone();
                        (
                            Additions {
                                rest,
                                had_errors,
                                stage: AddStage::Flake { pkg, check },
                            },
                            notice::append_notice(said, Notice::NotInChannel { pkg: name }),
                        )
                    },
                    _ => (
                        Additions { rest, had_errors, stage: AddStage::Channel { pkg, check } },
                        said,
                    ),
                }
            },
            AddStage::Flake { pkg, check } => {
                let (check, said) = check.advance(reply);
                match check.stage {
                    CheckStage::Known { found } => if found {
                        let pkg_ref = flake_ref(pkg.as_str());
                        (
                            Additions { rest, had_errors, stage: AddStage::Probe { pkg_ref } },
                            notice::append_notice(said, Notice::FoundInFlake { pkg }),
                        )
                    } else {
                        Additions::give_up(
                            rest,
                            notice::append_notice(said, Notice::NotFound { pkg }),
                        )
                    },
                    _ => (
                        Additions { rest, had_errors, stage: AddStage::Flake { pkg, check } },
                        said,
                    ),
                }
            },
            AddStage::Probe { pkg_ref } => match reply {
                Reply::Found(found) => if found {
                    let check = check::check_package_exists(&pkg_ref);
                    let said: Vec<Notice<String>> = Vec::new();
                    assert(notice::notices_view(said@) =~= moved.said);
                    (
                        Additions {
                            rest,
                            had_errors,
                            stage: AddStage::Verify { pkg_ref, check },
                        },
                        said,
                    )
                } else {
                    let update = sources.update_source(&pkg_ref);
                    let mut said: Vec<Notice<String>> = Vec::new();
                    said.push(Notice::AddingSource { name: pkg_ref.source_name().to_owned() });
                    said.push(update.announce());
                    assert(notice::notices_view(said@) =~= moved.said);
                    (
                        Additions {
                            rest,
                            had_errors,
                            stage: AddStage::Fetch { pkg_ref, update },
                        },
                        said,
                    )
                },
                _ => {
                    let said: Vec<Notice<String>> = Vec::new();
                    assert(notice::notices_view(said@) =~= moved.said);
                    (Additions { rest, had_errors, stage: AddStage::Probe { pkg_ref } }, said)
                },
            },
            AddStage::Fetch { pkg_ref, update } => {
                let (update, said) = update.advance(reply);
                let SourceUpdate { target, root, stage } = update;
                match stage {
                    UpdateStage::Updated => {
                        let check = check::check_package_exists(&pkg_ref);
                        (
                            Additions {
                                rest,
                                had_errors,
                                stage: AddStage::Verify { pkg_ref, check },
                            },
                            said,
                        )
                    },
                    UpdateStage::Failed { failure } => {
                        let notice = Notice::SourceFailed {
                            pkg: pkg_ref.to_string(),
                            detail: failure.message(),
                        };
                        Additions::give_up(rest, notice::append_notice(said, notice))
                    },
                    stage => (
                        Additions {
                            rest,
                            had_errors,
                            stage: AddStage::Fetch {
                                pkg_ref,
                                update: SourceUpdate { target, root, stage },
                            },
                        },
                        said,
                    ),
                }
            },
            AddStage::Verify { pkg_ref, check } => {
                let (check, said) = check.advance(reply);
                match check.stage {
                    CheckStage::Known { found } => if found {
                        let entry = pkg_ref.to_string();
                        storage.add(entry.as_str());
                        let (next, more) = Additions::face(rest, had_errors);
                        (next, notice::append_all(said, more))
                    } else {
                        let notice = Notice::NotFound { pkg: pkg_ref.to_string() };
                        Additions::give_up(rest, notice::append_notice(said, notice))
                    },
                    _ => (
                        Additions {
                            rest,
                            had_errors,
                            stage: AddStage::Verify { pkg_ref, check },
                        },
                        said,
                    ),
                }
            },
            AddStage::Finished => {
                let said: Vec<Notice<String>> = Vec::new();
                assert(notice::notices_view(said@) =~= moved.said);
                (Additions { rest, had_errors, stage: AddStage::Finished }, said)
            },
        }
    }
}

/// The storage changes only where the source of a package confirmed it, and then
/// just that package comes in.
pub proof fn law_only_confirmed_packages_come_in(
    adder: AdderView,
    storage: StorageView,
    sources: SourcesView,
    reply: AnswerView,
)
    ensures
        match adder.stage {
            AddStage::Verify { pkg_ref, check } => adder.moved(storage, sources, reply).storage
                == if check.after(reply).stage == (CheckStage::Known { found: true }) {
                storage.with(pkg_ref.written())
            } else {
                storage
            },
            _ => adder.moved(storage, sources, reply).storage == storage,
        },
{
}

/// No package of the storage is lost, whatever comes back.
pub proof fn law_adding_loses_nothing(
    adder: AdderView,
    storage: StorageView,
    sources: SourcesView,
    reply: AnswerView,
    p: Seq<char>,
)
    requires
        storage.packages.contains(p),
    ensures
        adder.moved(storage, sources, reply).storage.packages.contains(p),
{
    if let AddStage::Verify { pkg_ref, check } = adder.stage {
        storage_laws::law_add_adds(storage, pkg_ref.written());
    }
}

/// Whatever comes into the storage names its source.
pub proof fn law_what_comes_in_has_a_source(
    adder: AdderView,
    storage: StorageView,
    sources: SourcesView,
    reply: AnswerView,
    p: Seq<char>,
)
    requires
        adder.moved(storage, sources, reply).storage.packages.contains(p),
    ensures
        storage.packages.contains(p) || storage_laws::has_source(p),
{
    if let AddStage::Verify { pkg_ref, check } = adder.stage {
        let entry = pkg_ref.written();
        storage_laws::law_add_adds(storage, entry);
        let k = pkg_ref.source().len() as int;
        assert(entry[k] == '.' || entry[k] == '#');
    }
}

/// An error that there was is not forgotten, and a package that is given up is one.
pub proof fn law_errors_are_remembered(
    adder: AdderView,
    storage: StorageView,
    sources: SourcesView,
    reply: AnswerView,
    said: Seq<Notice<Seq<char>>>,
)
    ensures
        adder.had_errors ==> adder.moved(storage, sources, reply).adder.had_errors,
        adder.given_up(storage, said).adder.had_errors,
{
}

/// A package of a channel whose root is there comes in under its own name exactly
/// where the channel confirms it; else that is an error.
pub proof fn law_channel_package(
    pkg: Seq<char>,
    storage: StorageView,
    sources: SourcesView,
    ran: Option<crate::process::SpawnView>,
)
    requires
        package::parsed(pkg) is Some,
        package::parsed(pkg).unwrap() is Channel,
    ensures
        ({
            let begun = AdderView::facing(seq![pkg], false).0;
            let found = begun.moved(storage, sources, Reply::Found(true));
            let end = found.adder.moved(found.storage, sources, Reply::Ran(ran));
            &&& end.adder.stage is Finished
            &&& end.adder.had_errors == !check::confirmed(ran)
            &&& end.storage == if check::confirmed(ran) {
                storage.with(pkg)
            } else {
                storage
            }
        }),
{
    package::law_parse_then_write(pkg);
    assert(seq![pkg].drop_first() =~= seq![]);
}

/// The adding of packages, and what it made of the storage, behind several replies.
pub open spec fn added(
    adder: AdderView,
    storage: StorageView,
    sources: SourcesView,
    replies: Seq<AnswerView>,
) -> (AdderView, StorageView)
    decreases replies.len(),
{
    if replies.len() == 0 {
        (adder, storage)
    } else {
        let before = added(adder, storage, sources, replies.drop_last());
        let next = before.0.moved(before.1, sources, replies.last());
        (next.adder, next.storage)
    }
}

/// One reply more.
proof fn lemma_added_push(
    adder: AdderView,
    storage: StorageView,
    sources: SourcesView,
    replies: Seq<AnswerView>,
    reply: AnswerView,
)
    ensures
        ({
            let before = added(adder, storage, sources, replies);
            let next = before.0.moved(before.1, sources, reply);
            added(adder, storage, sources, replies.push(reply)) == (next.adder, next.storage)
        }),
{
    assert(replies.push(reply).drop_last() =~= replies);
}

/// A package of a flake whose root is there comes in under its own name exactly where
/// nix has flakes and one of the flake's two outputs confirms it; else that is an
/// error.
pub proof fn law_flake_package(
    pkg: Seq<char>,
    storage: StorageView,
    sources: SourcesView,
    support: Option<crate::process::SpawnView>,
    legacy: Option<crate::process::SpawnView>,
    packages: Option<crate::process::SpawnView>,
)
    requires
        package::parsed(pkg) is Some,
        package::parsed(pkg).unwrap() is Flake,
    ensures
        ({
            let end = added(
                AdderView::facing(seq![pkg], false).0,
                storage,
                sources,
                seq![
                    Reply::Found(true),
                    Reply::Ran(support),
                    Reply::Ran(legacy),
                    Reply::Ran(packages),
                ],
            );
            let found = check::flake_confirmed(support, legacy, packages);
            &&& end.0.stage is Finished
            &&& end.0.had_errors == !found
            &&& end.1 == if found {
                storage.with(pkg)
            } else {
                storage
            }
        }),
{
    package::law_parse_then_write(pkg);
    assert(seq![pkg].drop_first() =~= seq![]);
    let begun = AdderView::facing(seq![pkg], false).0;
    let r0 = Seq::<AnswerView>::empty();
    let r1 = r0.push(Reply::Found(true));
    let r2 = r1.push(Reply::Ran(support));
    let r3 = r2.push(Reply::Ran(legacy));
    lemma_added_push(begun, storage, sources, r0, Reply::Found(true));
    lemma_added_push(begun, storage, sources, r1, Reply::Ran(support));
    lemma_added_push(begun, storage, sources, r2, Reply::Ran(legacy));
    lemma_added_push(begun, storage, sources, r3, Reply::Ran(packages));
    assert(seq![
        Reply::Found(true),
        Reply::Ran(support),
        Reply::Ran(legacy),
        Reply::Ran(packages),
    ] =~= r3.push(Reply::Ran(packages)));
}

/// A package that names no source and that the channel has, comes in as one of the
/// channel where the channel, whose root is there, confirms it once more; else that is
/// an error.
pub proof fn law_bare_package_in_channel(
    pkg: Seq<char>,
    storage: StorageView,
    sources: SourcesView,
    first: Option<crate::process::SpawnView>,
    second: Option<crate::process::SpawnView>,
)
    requires
        package::parsed(pkg) is None,
        check::confirmed(first),
    ensures
        ({
            let end = added(
                AdderView::facing(seq![pkg], false).0,
                storage,
                sources,
                seq![Reply::Ran(first), Reply::Found(true), Reply::Ran(second)],
            );
            &&& end.0.stage is Finished
            &&& end.0.had_errors == !check::confirmed(second)
            &&& end.1 == if check::confirmed(second) {
                storage.with(in_channel(pkg).written())
            } else {
                storage
            }
        }),
{
    assert(seq![pkg].drop_first() =~= seq![]);
    let begun = AdderView::facing(seq![pkg], false).0;
    let r0 = Seq::<AnswerView>::empty();
    let r1 = r0.push(Reply::Ran(first));
    let r2 = r1.push(Reply::Found(true));
    lemma_added_push(begun, storage, sources, r0, Reply::Ran(first));
    lemma_added_push(begun, storage, sources, r1, Reply::Found(true));
    lemma_added_push(begun, storage, sources, r2, Reply::Ran(second));
    assert(seq![Reply::Ran(first), Reply::Found(true), Reply::Ran(second)] =~= r2.push(
        Reply::Ran(second),
    ));
}

/// How a package that names no source, and that the channel does not have, is
/// searched in the flake: where the flake has it, its root is looked for next; else
/// the package is given up.
proof fn lemma_bare_package_in_flake(
    pkg: Seq<char>,
    storage: StorageView,
    sources: SourcesView,
    channel: Option<crate::process::SpawnView>,
    support: Option<crate::process::SpawnView>,
    legacy: Option<crate::process::SpawnView>,
    packages: Option<crate::process::SpawnView>,
)
    requires
        package::parsed(pkg) is None,
        !check::confirmed(channel),
    ensures
        ({
            let asked = seq![
                Reply::Ran(channel),
                Reply::Ran(support),
                Reply::Ran(legacy),
                Reply::Ran(packages),
            ];
            let known = added(AdderView::facing(seq![pkg], false).0, storage, sources, asked);
            &&& known.1 == storage
            &&& known.0.rest.len() == 0
            &&& if check::flake_confirmed(support, legacy, packages) {
                known.0.stage == (AddStage::<Seq<char>, PackageRefView>::Probe {
                    pkg_ref: in_flake(pkg),
                }) && !known.0.had_errors
            } else {
                known.0.stage is Finished && known.0.had_errors
            }
        }),
{
    assert(seq![pkg].drop_first() =~= seq![]);
    let begun = AdderView::facing(seq![pkg], false).0;
    let r0 = Seq::<AnswerView>::empty();
    let r1 = r0.push(Reply::Ran(channel));
    let r2 = r1.push(Reply::Ran(support));
    let r3 = r2.push(Reply::Ran(legacy));
    lemma_added_push(begun, storage, sources, r0, Reply::Ran(channel));
    lemma_added_push(begun, storage, sources, r1, Reply::Ran(support));
    lemma_added_push(begun, storage, sources, r2, Reply::Ran(legacy));
    lemma_added_push(begun, storage, sources, r3, Reply::Ran(packages));
    assert(seq![
        Reply::Ran(channel),
        Reply::Ran(support),
        Reply::Ran(legacy),
        Reply::Ran(packages),
    ] =~= r3.push(Reply::Ran(packages)));
}

/// A package that names no source, that the channel does not have and that the flake
/// has, comes in as one of the flake where the flake, whose root is there, confirms it
/// once more; else that is an error.
pub proof fn law_bare_package_in_flake(
    pkg: Seq<char>,
    storage: StorageView,
    sources: SourcesView,
    channel: Option<crate::process::SpawnView>,
    first: (
        Option<crate::process::SpawnView>,
        Option<crate::process::SpawnView>,
        Option<crate::process::SpawnView>,
    ),
    second: (
        Option<crate::process::SpawnView>,
        Option<crate::process::SpawnView>,
        Option<crate::process::SpawnView>,
    ),
)
    requires
        package::parsed(pkg) is None,
        !check::confirmed(channel),
        check::flake_confirmed(first.0, first.1, first.2),
    ensures
        ({
            let end = added(
                AdderView::facing(seq![pkg], false).0,
                storage,
                sources,
                seq![
                    Reply::Ran(channel),
                    Reply::Ran(first.0),
                    Reply::Ran(first.1),
                    Reply::Ran(first.2),
                    Reply::Found(true),
                    Reply::Ran(second.0),
                    Reply::Ran(second.1),
                    Reply::Ran(second.2),
                ],
            );
            let found = check::flake_confirmed(second.0, second.1, second.2);
            &&& end.0.stage is Finished
            &&& end.0.had_errors == !found
            &&& end.1 == if found {
                storage.with(in_flake(pkg).written())
            } else {
                storage
            }
        }),
{
    lemma_bare_package_in_flake(pkg, storage, sources, channel, first.0, first.1, first.2);
    let begun = AdderView::facing(seq![pkg], false).0;
    let r4 = seq![
        Reply::Ran(channel),
        Reply::Ran(first.0),
        Reply::Ran(first.1),
        Reply::Ran(first.2),
    ];
    let r5 = r4.push(Reply::Found(true));
    let r6 = r5.push(Reply::Ran(second.0));
    let r7 = r6.push(Reply::Ran(second.1));
    lemma_added_push(begun, storage, sources, r4, Reply::Found(true));
    lemma_added_push(begun, storage, sources, r5, Reply::Ran(second.0));
    lemma_added_push(begun, storage, sources, r6, Reply::Ran(second.1));
    lemma_added_push(begun, storage, sources, r7, Reply::Ran(second.2));
    assert(seq![
        Reply::Ran(channel),
        Reply::Ran(first.0),
        Reply::Ran(first.1),
        Reply::Ran(first.2),
        Reply::Found(true),
        Reply::Ran(second.0),
        Reply::Ran(second.1),
        Reply::Ran(second.2),
    ] =~= r7.push(Reply::Ran(second.2)));
}

/// A package that names no source and that neither the channel nor the flake has is
/// an error, and the storage stays as it is. The flake does not have it where nix has
/// no flakes, where nix cannot be started, or where neither output confirms it.
pub proof fn law_bare_package_nowhere(
    pkg: Seq<char>,
    storage: StorageView,
    sources: SourcesView,
    channel: Option<crate::process::SpawnView>,
    support: Option<crate::process::SpawnView>,
    legacy: Option<crate::process::SpawnView>,
    packages: Option<crate::process::SpawnView>,
)
    requires
        package::parsed(pkg) is None,
        !check::confirmed(channel),
        !check::flake_confirmed(support, legacy, packages),
    ensures
        ({
            let end = added(
                AdderView::facing(seq![pkg], false).0,
                storage,
                sources,
                seq![
                    Reply::Ran(channel),
                    Reply::Ran(support),
                    Reply::Ran(legacy),
                    Reply::Ran(packages),
                ],
            );
            &&& end.0.stage is Finished
            &&& end.0.had_errors
            &&& end.1 == storage
        }),
{
    lemma_bare_package_in_flake(pkg, storage, sources, channel, support, legacy, packages);
}

/// Where the source of a package is not there, it is fetched first: while the fetching
/// goes on, nothing else is done; once it has ended well, the package is searched in
/// its source; where it fails, the package is given up, and the storage stays as it
/// is.
pub proof fn law_source_is_fetched_first(
    adder: AdderView,
    storage: StorageView,
    sources: SourcesView,
    pkg_ref: PackageRefView,
    fetch: Seq<AnswerView>,
)
    requires
        adder.stage == (AddStage::<Seq<char>, PackageRefView>::Probe { pkg_ref }),
        forall|k: int|
            0 <= k < fetch.len() ==> SourceUpdate::begun(
                sources::target_of(pkg_ref),
                sources.root_of(pkg_ref),
            ).after_all(#[trigger] fetch.take(k)).wants() is Some,
    ensures
        ({
            let update = SourceUpdate::begun(
                sources::target_of(pkg_ref),
                sources.root_of(pkg_ref),
            ).after_all(fetch);
            let end = added(adder, storage, sources, seq![Reply::Found(false)] + fetch);
            &&& end.1 == storage
            &&& end.0 == match update.stage {
                UpdateStage::Updated => adder.at(
                    AddStage::Verify { pkg_ref, check: PackageCheck::begun(pkg_ref) },
                ),
                UpdateStage::Failed { .. } => AdderView::facing(adder.rest, true).0,
                _ => adder.at(AddStage::Fetch { pkg_ref, update }),
            }
        }),
    decreases fetch.len(),
{
    let begun = SourceUpdate::begun(sources::target_of(pkg_ref), sources.root_of(pkg_ref));
    let first = seq![Reply::<Seq<char>, Seq<Seq<char>>, crate::process::SpawnView>::Found(false)];
    if fetch.len() == 0 {
        lemma_added_push(adder, storage, sources, Seq::empty(), Reply::Found(false));
        assert(first + fetch =~= Seq::empty().push(Reply::Found(false)));
    } else {
        let front = fetch.drop_last();
        assert forall|k: int| 0 <= k < front.len() implies begun.after_all(
            #[trigger] front.take(k),
        ).wants() is Some by {
            assert(front.take(k) =~= fetch.take(k));
        }
        law_source_is_fetched_first(adder, storage, sources, pkg_ref, front);
        assert(fetch.take(front.len() as int) =~= front);
        assert(begun.after_all(front).wants() is Some);
        lemma_added_push(adder, storage, sources, first + front, fetch.last());
        assert(first + fetch =~= (first + front).push(fetch.last()));
        begun.lemma_after_all_push(front, fetch.last());
        assert(fetch =~= front.push(fetch.last()));
    }
}

/// A reference is what a package to add stands for: what it is read as, or, where it
/// names no source, the package of that name in the channel or the flake.
pub open spec fn stands_for(pkg: Seq<char>, pkg_ref: PackageRefView) -> bool {
    match package::parsed(pkg) {
        Some(p) => pkg_ref == p,
        None => pkg_ref == in_channel(pkg) || pkg_ref == in_flake(pkg),
    }
}

/// A search that is not over looks for a package.
pub open spec fn searches(check: PackageCheck<Seq<char>>, pkg_ref: PackageRefView) -> bool {
    &&& check.source == pkg_ref.source()
    &&& check.attr == pkg_ref.attr()
    &&& pkg_ref is Channel <==> check.stage is Channel
    &&& !(check.stage is Known)
}

impl Additions<Seq<Seq<char>>, Seq<char>, PackageRefView> {
    /// The package at hand is `pkg`, and all that is done is done for it.
    pub open spec fn is_about(self, pkg: Seq<char>, sources: SourcesView) -> bool {
        match self.stage {
            AddStage::Channel { pkg: p, check } => p == pkg && package::parsed(pkg) is None
                && searches(check, in_channel(pkg)),
            AddStage::Flake { pkg: p, check } => p == pkg && package::parsed(pkg) is None
                && searches(check, in_flake(pkg)),
            AddStage::Probe { pkg_ref } => stands_for(pkg, pkg_ref),
            AddStage::Fetch { pkg_ref, update } => stands_for(pkg, pkg_ref) && update.target
                == sources::target_of(pkg_ref) && update.root == sources.root_of(pkg_ref)
                && update.wants() is Some,
            AddStage::Verify { pkg_ref, check } => stands_for(pkg, pkg_ref) && searches(
                check,
                pkg_ref,
            ),
            AddStage::Finished => false,
        }
    }

    /// What a reply decides on the package at hand, where it does: its source
    /// confirmed it under a reference, or it is left out. It is left out where neither
    /// the channel nor the flake has it, where its source could not be fetched, and
    /// where its source does not have it.
    pub open spec fn verdict(self, reply: AnswerView) -> Option<Option<PackageRefView>> {
        match self.stage {
            AddStage::Flake { check, .. } => if check.after(reply).stage == (CheckStage::Known {
                found: false,
            }) {
                Some(None)
            } else {
                None
            },
            AddStage::Fetch { update, .. } => if update.after(reply).stage is Failed {
                Some(None)
            } else {
                None
            },
            AddStage::Verify { pkg_ref, check } => match check.after(reply).stage {
                CheckStage::Known { found } => if found {
                    Some(Some(pkg_ref))
                } else {
                    Some(None)
                },
                _ => None,
            },
            _ => None,
        }
    }
}

/// What was decided on the packages behind several replies, in their order.
pub open spec fn verdicts(
    adder: AdderView,
    storage: StorageView,
    sources: SourcesView,
    replies: Seq<AnswerView>,
) -> Seq<Option<PackageRefView>>
    decreases replies.len(),
{
    if replies.len() == 0 {
        Seq::empty()
    } else {
        let front = replies.drop_last();
        let before = verdicts(adder, storage, sources, front);
        match added(adder, storage, sources, front).0.verdict(replies.last()) {
            Some(decided) => before.push(decided),
            None => before,
        }
    }
}

/// The storage with each package that was confirmed, as its reference is written, one
/// behind the other.
pub open spec fn with_confirmed(
    storage: StorageView,
    decided: Seq<Option<PackageRefView>>,
) -> StorageView
    decreases decided.len(),
{
    if decided.len() == 0 {
        storage
    } else {
        let before = with_confirmed(storage, decided.drop_last());
        match decided.last() {
            Some(pkg_ref) => before.with(pkg_ref.written()),
            None => before,
        }
    }
}

/// How many packages are still to be decided on.
pub open spec fn undecided(adder: AdderView) -> nat {
    if adder.stage is Finished {
        0
    } else {
        adder.rest.len() + 1
    }
}

/// Where the adding of packages stands among them.
pub open spec fn in_place(adder: AdderView, pkgs: Seq<Seq<char>>, sources: SourcesView) -> bool {
    &&& undecided(adder) <= pkgs.len()
    &&& adder.rest == pkgs.skip(pkgs.len() - adder.rest.len())
    &&& adder.stage is Finished ==> adder.rest.len() == 0
    &&& !(adder.stage is Finished) ==> adder.is_about(
        pkgs[pkgs.len() - undecided(adder)],
        sources,
    )
}

/// The packages behind the one at hand are faced in their place.
pub proof fn lemma_facing_in_place(
    pkgs: Seq<Seq<char>>,
    rest: Seq<Seq<char>>,
    had_errors: bool,
    sources: SourcesView,
)
    requires
        rest.len() <= pkgs.len(),
        rest == pkgs.skip(pkgs.len() - rest.len()),
    ensures
        in_place(AdderView::facing(rest, had_errors).0, pkgs, sources),
        undecided(AdderView::facing(rest, had_errors).0) == rest.len(),
        AdderView::facing(rest, had_errors).0.had_errors == had_errors,
{
    if rest.len() > 0 {
        assert(rest.drop_first() =~= pkgs.skip(pkgs.len() - rest.len() + 1));
        assert(rest.first() == pkgs[pkgs.len() - rest.len()]);
    }
}

/// A reply keeps the adding of packages in its place, or decides on the package at
/// hand.
pub proof fn lemma_reply_decides(
    adder: AdderView,
    storage: StorageView,
    sources: SourcesView,
    pkgs: Seq<Seq<char>>,
    reply: AnswerView,
)
    requires
        in_place(adder, pkgs, sources),
    ensures
        ({
            let next = adder.moved(storage, sources, reply);
            &&& in_place(next.adder, pkgs, sources)
            &&& match adder.verdict(reply) {
                None => undecided(next.adder) == undecided(adder) && next.storage == storage
                    && next.adder.had_errors == adder.had_errors,
                Some(decided) => undecided(next.adder) + 1 == undecided(adder) && (
                match decided {
                    Some(pkg_ref) => stands_for(pkgs[pkgs.len() - undecided(adder)], pkg_ref)
                        && next.storage == storage.with(pkg_ref.written())
                        && next.adder.had_errors == adder.had_errors,
                    None => next.storage == storage && next.adder.had_errors,
                }),
            }
        }),
{
    lemma_facing_in_place(pkgs, adder.rest, adder.had_errors, sources);
    lemma_facing_in_place(pkgs, adder.rest, true, sources);
}

/// However many packages are added, and whatever the replies were: each package, in
/// its order, was confirmed by its source or left out. Each confirmed package has come
/// into the storage, as the reference that it stands for is written; those that were
/// left out have brought nothing in; and an error is remembered exactly where one was
/// left out. At the end, all packages were decided on.
pub proof fn law_packages_are_added(
    pkgs: Seq<Seq<char>>,
    storage: StorageView,
    sources: SourcesView,
    replies: Seq<AnswerView>,
)
    ensures
        ({
            let begun = AdderView::facing(pkgs, false).0;
            let end = added(begun, storage, sources, replies);
            let decided = verdicts(begun, storage, sources, replies);
            &&& in_place(end.0, pkgs, sources)
            &&& decided.len() + undecided(end.0) == pkgs.len()
            &&& end.0.stage is Finished ==> decided.len() == pkgs.len()
            &&& forall|i: int|
                0 <= i < decided.len() ==> ((#[trigger] decided[i]) matches Some(pkg_ref)
                    ==> stands_for(pkgs[i], pkg_ref))
            &&& end.1 == with_confirmed(storage, decided)
            &&& end.0.had_errors == decided.contains(None)
        }),
    decreases replies.len(),
{
    let begun = AdderView::facing(pkgs, false).0;
    let decided = verdicts(begun, storage, sources, replies);
    if replies.len() == 0 {
        assert(pkgs.skip(0) =~= pkgs);
        lemma_facing_in_place(pkgs, pkgs, false, sources);
    } else {
        let front = replies.drop_last();
        let reply = replies.last();
        law_packages_are_added(pkgs, storage, sources, front);
        let before = added(begun, storage, sources, front);
        let earlier = verdicts(begun, storage, sources, front);
        lemma_reply_decides(before.0, before.1, sources, pkgs, reply);
        if let Some(last) = before.0.verdict(reply) {
            assert(decided.drop_last() =~= earlier);
            if earlier.contains(None) {
                let i = choose|i: int| 0 <= i < earlier.len() && earlier[i] is None;
                assert(decided[i] is None);
            }
            if last is None {
                assert(decided[earlier.len() as int] is None);
            } else if decided.contains(None) {
                let i = choose|i: int| 0 <= i < decided.len() && decided[i] is None;
                assert(earlier[i] is None);
            }
        }
    }
}

/// What the storage holds once packages were added: what it held before, and each
/// package that was confirmed.
pub proof fn law_confirmed_packages_are_held(
    storage: StorageView,
    decided: Seq<Option<PackageRefView>>,
    p: Seq<char>,
)
    ensures
        with_confirmed(storage, decided).packages.contains(p) <==> storage.packages.contains(p)
            || exists|i: int|
            0 <= i < decided.len() && ((#[trigger] decided[i]) matches Some(pkg_ref)
                && pkg_ref.written() == p),
        with_confirmed(storage, decided).disk_path == storage.disk_path,
    decreases decided.len(),
{
    if decided.len() > 0 {
        let front = decided.drop_last();
        law_confirmed_packages_are_held(storage, front, p);
        let last = decided[decided.len() - 1];
        if let Some(pkg_ref) = last {
            storage_laws::law_add_adds(with_confirmed(storage, front), pkg_ref.written());
        }
        assert(forall|i: int| 0 <= i < front.len() ==> front[i] == decided[i]);
        if exists|i: int|
            0 <= i < front.len() && ((#[trigger] front[i]) matches Some(pkg_ref)
                && pkg_ref.written() == p) {
            let i = choose|i: int|
                0 <= i < front.len() && ((#[trigger] front[i]) matches Some(pkg_ref)
                    && pkg_ref.written() == p);
            assert(decided[i] == front[i]);
        }
        if exists|i: int|
            0 <= i < decided.len() && ((#[trigger] decided[i]) matches Some(pkg_ref)
                && pkg_ref.written() == p) {
            let i = choose|i: int|
                0 <= i < decided.len() && ((#[trigger] decided[i]) matches Some(pkg_ref)
                    && pkg_ref.written() == p);
            if i < front.len() {
                assert(front[i] == decided[i]);
            }
        }
    }
}

} // verus!
