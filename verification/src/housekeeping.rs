//! Keeping the sources of an environment in step with its packages: roots that no
//! package needs are removed, sources that are missing are fetched.

use crate::effect;
use crate::effect::{Answer, AnswerView, Effect, Reply, Request, RequestView};
use crate::notice;
use crate::notice::Notice;
use crate::sources::{Sources, SourcesView};
use crate::storage;
use crate::storage::Storage;
use crate::supply;
use crate::supply::{Item, Supplier, SupplierView, Supply};
use crate::text;
use vstd::prelude::*;
use vstd::seq_lib::*;
use vstd::string::*;

verus! {

/// The two kinds of sources that packages come from.
#[derive(Clone, Copy, Debug, PartialEq, Eq, Structural)]
pub enum Kind {
    Channel,
    Flake,
}

/// How far the housekeeping has come. `unused` holds the roots that are still to
/// be removed, the one at hand first.
pub enum Chore<L, S> {
    /// The roots on disk are listed.
    List { kind: Kind },
    /// A root that is not needed may be gone already.
    Probe { kind: Kind, unused: L },
    /// A root that is not needed is removed.
    Remove { kind: Kind, unused: L },
    /// The sources that are needed are fetched.
    Fetch { supply: S },
}

/// The housekeeping of an environment.
pub struct Housekeeping {
    pub sources: Sources,
    pub channels: Vec<String>,
    pub flakes: Vec<String>,
    pub needed: Vec<Item<String>>,
    pub chore: Chore<Vec<String>, Supplier>,
}

/// What is known of the housekeeping: where the roots are kept, the channels and
/// flakes that are needed, and how far it has come.
pub struct HousekeepingView {
    pub sources: SourcesView,
    pub channels: Seq<Seq<char>>,
    pub flakes: Seq<Seq<char>>,
    pub needed: Seq<Item<Seq<char>>>,
    pub chore: Chore<Seq<Seq<char>>, SupplierView>,
}

impl View for Chore<Vec<String>, Supplier> {
    type V = Chore<Seq<Seq<char>>, SupplierView>;

    open spec fn view(&self) -> Chore<Seq<Seq<char>>, SupplierView> {
        match self {
            Chore::List { kind } => Chore::List { kind: *kind },
            Chore::Probe { kind, unused } => Chore::Probe {
                kind: *kind,
                unused: text::texts(unused@),
            },
            Chore::Remove { kind, unused } => Chore::Remove {
                kind: *kind,
                unused: text::texts(unused@),
            },
            Chore::Fetch { supply } => Chore::Fetch { supply: supply@ },
        }
    }
}

impl View for Housekeeping {
    type V = HousekeepingView;

    open spec fn view(&self) -> HousekeepingView {
        HousekeepingView {
            sources: self.sources@,
            channels: text::texts(self.channels@),
            flakes: text::texts(self.flakes@),
            needed: supply::items_view(self.needed@),
            chore: self.chore@,
        }
    }
}

/// The names that are not among those that are needed.
pub open spec fn not_in(needed: Seq<Seq<char>>) -> spec_fn(Seq<char>) -> bool {
    |name: Seq<char>| !needed.contains(name)
}

/// A list without its first text.
pub open spec fn behind(list: Seq<Seq<char>>) -> Seq<Seq<char>> {
    if list.len() == 0 {
        list
    } else {
        list.drop_first()
    }
}

impl HousekeepingView {
    /// The housekeeping for a list of packages, before anything was done.
    pub open spec fn begun(sources: SourcesView, packages: Seq<Seq<char>>) -> HousekeepingView {
        HousekeepingView {
            sources,
            channels: storage::channels_of(packages),
            flakes: storage::flakes_of(packages),
            needed: supply::needed(sources, packages),
            chore: Chore::List { kind: Kind::Channel },
        }
    }

    /// The sources of a kind that are needed.
    pub open spec fn names(self, kind: Kind) -> Seq<Seq<char>> {
        match kind {
            Kind::Channel => self.channels,
            Kind::Flake => self.flakes,
        }
    }

    /// The directory of the roots of a kind.
    pub open spec fn dir(self, kind: Kind) -> Seq<char> {
        match kind {
            Kind::Channel => self.sources.channels_path,
            Kind::Flake => self.sources.flakes_path,
        }
    }

    /// The path of the root of a source.
    pub open spec fn root(self, kind: Kind, name: Seq<char>) -> Seq<char> {
        match kind {
            Kind::Channel => self.sources.channel_root(name),
            Kind::Flake => self.sources.flake_root(name),
        }
    }

    /// What is to be done next; nothing at the end.
    pub open spec fn wants(self) -> Option<RequestView> {
        match self.chore {
            Chore::List { kind } => Some(Effect::ListDir { path: self.dir(kind) }),
            Chore::Probe { kind, unused } => if unused.len() > 0 {
                Some(Effect::Exists { path: self.root(kind, unused.first()) })
            } else {
                None
            },
            Chore::Remove { kind, unused } => if unused.len() > 0 {
                Some(Effect::RemoveFile { path: self.root(kind, unused.first()) })
            } else {
                None
            },
            Chore::Fetch { supply } => supply.wants(),
        }
    }

    /// What is done once `unused` are the roots of a kind that are still to be
    /// removed, and what is said of it: the next of them, or the flakes behind the
    /// channels, or what is needed behind the flakes.
    pub open spec fn facing(self, kind: Kind, unused: Seq<Seq<char>>) -> (
        Chore<Seq<Seq<char>>, SupplierView>,
        Seq<Notice<Seq<char>>>,
    ) {
        if unused.len() > 0 {
            (
                Chore::Probe { kind, unused },
                match kind {
                    Kind::Channel => seq![Notice::CollectingChannel { name: unused.first() }],
                    Kind::Flake => seq![Notice::CollectingFlake { name: unused.first() }],
                },
            )
        } else {
            match kind {
                Kind::Channel => (Chore::List { kind: Kind::Flake }, seq![]),
                Kind::Flake => {
                    let next = SupplierView::facing(self.needed, false);
                    (Chore::Fetch { supply: next.0 }, next.1)
                },
            }
        }
    }

    /// What is done behind a reply, and what is said of it.
    pub open spec fn moved(self, reply: AnswerView) -> (
        Chore<Seq<Seq<char>>, SupplierView>,
        Seq<Notice<Seq<char>>>,
    ) {
        match (self.chore, reply) {
            (Chore::List { kind }, Reply::Names(found)) => self.facing(
                kind,
                found.filter(not_in(self.names(kind))),
            ),
            (Chore::Probe { kind, unused }, Reply::Found(found)) => if found {
                (Chore::Remove { kind, unused }, seq![])
            } else {
                self.facing(kind, behind(unused))
            },
            (Chore::Remove { kind, unused }, Reply::Removed) => self.facing(kind, behind(unused)),
            (Chore::Fetch { supply }, reply) => {
                let next = supply.moved(reply);
                (Chore::Fetch { supply: next.0 }, next.1)
            },
            (chore, _) => (chore, seq![]),
        }
    }

    /// The housekeeping behind a reply.
    pub open spec fn after(self, reply: AnswerView) -> HousekeepingView {
        HousekeepingView { chore: self.moved(reply).0, ..self }
    }

    /// The states that the housekeeping can be in: what is to be removed is not
    /// needed.
    pub open spec fn wf(self) -> bool {
        match self.chore {
            Chore::List { .. } => true,
            Chore::Probe { kind, unused } => unused.len() > 0 && forall|i: int|
                0 <= i < unused.len() ==> !self.names(kind).contains(#[trigger] unused[i]),
            Chore::Remove { kind, unused } => unused.len() > 0 && forall|i: int|
                0 <= i < unused.len() ==> !self.names(kind).contains(#[trigger] unused[i]),
            Chore::Fetch { supply } => supply.wf(),
        }
    }
}

/// The names of `found` that are not among those that are needed.
pub fn unneeded(found: &Vec<String>, needed: &Vec<String>) -> (r: Vec<String>)
    ensures
        text::texts(r@) == text::texts(found@).filter(not_in(text::texts(needed@))),
{
    let mut out: Vec<String> = Vec::new();
    let mut i: usize = 0;
    let ghost all = text::texts(found@);
    let ghost f = not_in(text::texts(needed@));
    proof {
        reveal_with_fuel(Seq::filter, 1);
    }
    assert(all.take(0).filter(f) =~= text::texts(out@));
    while i < found.len()
        invariant
            i <= found@.len(),
            all == text::texts(found@),
            f == not_in(text::texts(needed@)),
            text::texts(out@) == all.take(i as int).filter(f),
        decreases found@.len() - i,
    {
        let ghost before = text::texts(out@);
        proof {
            assert(all.take(i + 1) =~= all.take(i as int).push(all[i as int]));
            all.take(i as int).lemma_filter_push(all[i as int], f);
        }
        if !text::among(needed, found[i].as_str()) {
            out.push(found[i].clone());
            assert(text::texts(out@) =~= before.push(all[i as int]));
        }
        i = i + 1;
    }
    assert(all.take(i as int) =~= all);
    out
}

fn drop_first(list: Vec<String>) -> (r: Vec<String>)
    ensures
        text::texts(r@) == behind(text::texts(list@)),
{
    let mut list = list;
    if list.len() > 0 {
        let ghost before = text::texts(list@);
        list.remove(0);
        assert(text::texts(list@) =~= before.drop_first());
    }
    list
}

fn copy_items(list: &Vec<Item<String>>) -> (r: Vec<Item<String>>)
    ensures
        supply::items_view(r@) == supply::items_view(list@),
{
    let mut out: Vec<Item<String>> = Vec::new();
    let mut i: usize = 0;
    while i < list.len()
        invariant
            i <= list@.len(),
            out@.len() == i,
            forall|j: int| 0 <= j < i ==> (#[trigger] out@[j])@ == list@[j]@,
        decreases list@.len() - i,
    {
        out.push(list[i].duplicate());
        i = i + 1;
    }
    assert(supply::items_view(out@) =~= supply::items_view(list@));
    out
}

/// Begins the housekeeping of an environment.
pub fn routine_stuff(storage: &Storage, sources: &Sources) -> (r: Housekeeping)
    ensures
        r@ == HousekeepingView::begun(sources@, storage@.packages),
        r@.wf(),
{
    Housekeeping {
        sources: Sources {
            channels_path: sources.channels_path.clone(),
            flakes_path: sources.flakes_path.clone(),
        },
        channels: storage.list_channels(),
        flakes: storage.list_flakes(),
        needed: supply::needed_items(sources, storage),
        chore: Chore::List { kind: Kind::Channel },
    }
}

impl Housekeeping {
    fn names(&self, kind: Kind) -> (r: &Vec<String>)
        ensures
            text::texts(r@) == self@.names(kind),
    {
        match kind {
            Kind::Channel => &self.channels,
            Kind::Flake => &self.flakes,
        }
    }

    fn face(&self, kind: Kind, unused: Vec<String>) -> (r: (
        Chore<Vec<String>, Supplier>,
        Vec<Notice<String>>,
    ))
        ensures
            r.0@ == self@.facing(kind, text::texts(unused@)).0,
            notice::notices_view(r.1@) == self@.facing(kind, text::texts(unused@)).1,
    {
        let ghost said = self@.facing(kind, text::texts(unused@)).1;
        let mut notices: Vec<Notice<String>> = Vec::new();
        if unused.len() > 0 {
            let name = unused[0].clone();
            match kind {
                Kind::Channel => {
                    notices.push(Notice::CollectingChannel { name });
                },
                Kind::Flake => {
                    notices.push(Notice::CollectingFlake { name });
                },
            }
            assert(notice::notices_view(notices@) =~= said);
            (Chore::Probe { kind, unused }, notices)
        } else {
            match kind {
                Kind::Channel => {
                    assert(notice::notices_view(notices@) =~= said);
                    (Chore::List { kind: Kind::Flake }, notices)
                },
                Kind::Flake => {
                    let (supply, notices) = Supply::face(copy_items(&self.needed), false);
                    (Chore::Fetch { supply }, notices)
                },
            }
        }
    }

    /// What is to be done next.
    pub fn request(&self) -> (r: Option<Request>)
        ensures
            effect::request_view(r) == self@.wants(),
    {
        match &self.chore {
            Chore::List { kind } => Some(
                match kind {
                    Kind::Channel => self.sources.list_channel_roots(),
                    Kind::Flake => self.sources.list_flake_roots(),
                },
            ),
            Chore::Probe { kind, unused } => if unused.len() > 0 {
                Some(
                    match kind {
                        Kind::Channel => self.sources.has_channel(unused[0].as_str()),
                        Kind::Flake => self.sources.has_flake(unused[0].as_str()),
                    },
                )
            } else {
                None
            },
            Chore::Remove { kind, unused } => if unused.len() > 0 {
                Some(
                    match kind {
                        Kind::Channel => self.sources.remove_channel(unused[0].as_str()),
                        Kind::Flake => self.sources.remove_flake(unused[0].as_str()),
                    },
                )
            } else {
                None
            },
            Chore::Fetch { supply } => supply.request(),
        }
    }

    /// Goes on with a reply.
    pub fn advance(&mut self, reply: Answer) -> (r: Vec<Notice<String>>)
        ensures
            final(self)@ == old(self)@.after(reply@),
            notice::notices_view(r@) == old(self)@.moved(reply@).1,
    {
        let ghost this = self@;
        let ghost answer = reply@;
        let mut chore = Chore::List { kind: Kind::Channel };
        std::mem::swap(&mut chore, &mut self.chore);
        let (chore, notices) = match (chore, reply) {
            (Chore::List { kind }, Reply::Names(found)) => {
                let unused = unneeded(&found, self.names(kind));
                self.face(kind, unused)
            },
            (Chore::Probe { kind, unused }, Reply::Found(found)) => if found {
                (Chore::Remove { kind, unused }, Vec::new())
            } else {
                self.face(kind, drop_first(unused))
            },
            (Chore::Remove { kind, unused }, Reply::Removed) => self.face(
                kind,
                drop_first(unused),
            ),
            (Chore::Fetch { supply }, reply) => {
                let (supply, notices) = supply.advance(reply);
                (Chore::Fetch { supply }, notices)
            },
            (chore, _) => (chore, Vec::new()),
        };
        assert(notice::notices_view(notices@) =~= this.moved(answer).1);
        self.chore = chore;
        notices
    }
}

/// The housekeeping stays well, whatever comes back, and what is needed stays the
/// same.
pub proof fn law_housekeeping_stays_well_formed(work: HousekeepingView, reply: AnswerView)
    requires
        work.wf(),
    ensures
        work.after(reply).wf(),
        work.after(reply).channels == work.channels,
        work.after(reply).flakes == work.flakes,
        work.after(reply).needed == work.needed,
        work.after(reply).sources == work.sources,
{
    match (work.chore, reply) {
        (Chore::List { kind }, Reply::Names(found)) => {
            let f = not_in(work.names(kind));
            let unused = found.filter(f);
            assert forall|i: int| 0 <= i < unused.len() implies !work.names(kind).contains(
                #[trigger] unused[i],
            ) by {
                found.lemma_filter_pred(f, i);
            }
        },
        (Chore::Probe { kind, unused }, Reply::Found(_)) => {
            assert(forall|i: int|
                0 <= i < behind(unused).len() ==> behind(unused)[i] == unused[i + 1]);
        },
        (Chore::Remove { kind, unused }, Reply::Removed) => {
            assert(forall|i: int|
                0 <= i < behind(unused).len() ==> behind(unused)[i] == unused[i + 1]);
        },
        _ => {},
    }
}

/// A root that is removed for good belongs to a source that no package needs.
pub proof fn law_needed_roots_are_kept(work: HousekeepingView)
    requires
        work.wf(),
    ensures
        work.chore matches Chore::Remove { kind, unused } ==> work.wants() == Some(
            RequestView::RemoveFile { path: work.root(kind, unused.first()) },
        ) && !work.names(kind).contains(unused.first()),
{
    if let Chore::Remove { kind, unused } = work.chore {
        assert(!work.names(kind).contains(unused[0]));
    }
}

/// Of the roots on disk, exactly those that no package needs are to be removed.
pub proof fn law_unneeded_roots_are_collected(
    work: HousekeepingView,
    kind: Kind,
    found: Seq<Seq<char>>,
    name: Seq<char>,
)
    requires
        work.chore == (Chore::<Seq<Seq<char>>, SupplierView>::List { kind }),
        found.contains(name),
    ensures
        !work.names(kind).contains(name) ==> (work.after(Reply::Names(found)).chore matches
            Chore::Probe { kind: k, unused } && k == kind && unused.contains(name)),
        work.names(kind).contains(name) ==> !(work.after(Reply::Names(found)).chore matches
            Chore::Probe { unused, .. } && unused.contains(name)),
{
    let f = not_in(work.names(kind));
    let i = choose|i: int| 0 <= i < found.len() && found[i] == name;
    if f(name) {
        found.lemma_filter_contains(f, i);
    } else if found.filter(f).contains(name) {
        let k = choose|k: int| 0 <= k < found.filter(f).len() && found.filter(f)[k] == name;
        found.lemma_filter_pred(f, k);
    }
}

impl HousekeepingView {
    /// The housekeeping behind several replies.
    pub open spec fn after_all(self, replies: Seq<AnswerView>) -> HousekeepingView
        decreases replies.len(),
    {
        if replies.len() == 0 {
            self
        } else {
            self.after_all(replies.drop_last()).after(replies.last())
        }
    }
}

/// Among some replies to the housekeeping is the list `found` of the roots of a kind
/// on disk.
pub open spec fn listed(
    begun: HousekeepingView,
    replies: Seq<AnswerView>,
    kind: Kind,
    found: Seq<Seq<char>>,
) -> bool {
    exists|j: int|
        0 <= j < replies.len() && begun.after_all(#[trigger] replies.take(j)).chore == (Chore::<
            Seq<Seq<char>>,
            SupplierView,
        >::List { kind }) && replies[j] == AnswerView::Names(found)
}

/// Among some replies to the housekeeping is one to the removal of a root, or one
/// that says that the root is gone.
pub open spec fn collected(
    begun: HousekeepingView,
    replies: Seq<AnswerView>,
    path: Seq<char>,
) -> bool {
    exists|j: int|
        0 <= j < replies.len() && ({
            let asked = begun.after_all(#[trigger] replies.take(j)).wants();
            ||| asked == Some(RequestView::RemoveFile { path }) && replies[j]
                == AnswerView::Removed
            ||| asked == Some(RequestView::Exists { path }) && replies[j]
                == AnswerView::Found(false)
        })
}

/// The roots of a kind were listed, and each of them that is not needed was removed
/// or is among those that are still to be.
pub open spec fn clearing(
    begun: HousekeepingView,
    replies: Seq<AnswerView>,
    kind: Kind,
    unused: Seq<Seq<char>>,
) -> bool {
    exists|found: Seq<Seq<char>>| #[trigger]
        listed(begun, replies, kind, found) && ({
            &&& forall|name: Seq<char>| #[trigger]
                found.contains(name) && !begun.names(kind).contains(name) ==> unused.contains(name)
                    || collected(begun, replies, begun.root(kind, name))
            &&& forall|i: int| 0 <= i < unused.len() ==> found.contains(#[trigger] unused[i])
        })
}

/// The sources that are needed are next, behind the first `k` of some replies.
pub open spec fn supply_begins(
    begun: HousekeepingView,
    replies: Seq<AnswerView>,
    k: int,
) -> bool {
    &&& 0 <= k <= replies.len()
    &&& begun.after_all(replies.take(k)).chore == (Chore::<Seq<Seq<char>>, SupplierView>::Fetch {
        supply: SupplierView::facing(begun.needed, false).0,
    })
}

/// The sources that are needed are supplied with the last of some replies.
pub open spec fn supplying(
    begun: HousekeepingView,
    replies: Seq<AnswerView>,
    supply: SupplierView,
) -> bool {
    exists|k: int| #[trigger]
        supply_begins(begun, replies, k) && supply == SupplierView::facing(
            begun.needed,
            false,
        ).0.after_all(replies.skip(k))
}

/// How the housekeeping stands behind some replies.
pub open spec fn accounted(begun: HousekeepingView, replies: Seq<AnswerView>) -> bool {
    let none = Seq::<Seq<char>>::empty();
    match begun.after_all(replies).chore {
        Chore::List { kind: Kind::Channel } => true,
        Chore::Probe { kind: Kind::Channel, unused } => clearing(
            begun,
            replies,
            Kind::Channel,
            unused,
        ),
        Chore::Remove { kind: Kind::Channel, unused } => clearing(
            begun,
            replies,
            Kind::Channel,
            unused,
        ),
        Chore::List { kind: Kind::Flake } => clearing(begun, replies, Kind::Channel, none),
        Chore::Probe { kind: Kind::Flake, unused } => clearing(
            begun,
            replies,
            Kind::Channel,
            none,
        ) && clearing(begun, replies, Kind::Flake, unused),
        Chore::Remove { kind: Kind::Flake, unused } => clearing(
            begun,
            replies,
            Kind::Channel,
            none,
        ) && clearing(begun, replies, Kind::Flake, unused),
        Chore::Fetch { supply } => clearing(begun, replies, Kind::Channel, none) && clearing(
            begun,
            replies,
            Kind::Flake,
            none,
        ) && supplying(begun, replies, supply),
    }
}

proof fn lemma_listed_stays(
    begun: HousekeepingView,
    replies: Seq<AnswerView>,
    reply: AnswerView,
    kind: Kind,
    found: Seq<Seq<char>>,
)
    requires
        listed(begun, replies, kind, found),
    ensures
        listed(begun, replies.push(reply), kind, found),
{
    let j = choose|j: int|
        0 <= j < replies.len() && begun.after_all(#[trigger] replies.take(j)).chore == (Chore::<
            Seq<Seq<char>>,
            SupplierView,
        >::List { kind }) && replies[j] == AnswerView::Names(found);
    assert(replies.push(reply).take(j) =~= replies.take(j));
}

proof fn lemma_collected_stays(
    begun: HousekeepingView,
    replies: Seq<AnswerView>,
    reply: AnswerView,
    path: Seq<char>,
)
    requires
        collected(begun, replies, path),
    ensures
        collected(begun, replies.push(reply), path),
{
    let j = choose|j: int|
        0 <= j < replies.len() && ({
            let asked = begun.after_all(#[trigger] replies.take(j)).wants();
            ||| asked == Some(RequestView::RemoveFile { path }) && replies[j]
                == AnswerView::Removed
            ||| asked == Some(RequestView::Exists { path }) && replies[j]
                == AnswerView::Found(false)
        });
    assert(replies.push(reply).take(j) =~= replies.take(j));
}

/// What was cleared stays so, where each root that is no longer to be removed was.
proof fn lemma_clearing_goes_on(
    begun: HousekeepingView,
    replies: Seq<AnswerView>,
    reply: AnswerView,
    kind: Kind,
    before: Seq<Seq<char>>,
    unused: Seq<Seq<char>>,
)
    requires
        clearing(begun, replies, kind, before),
        forall|name: Seq<char>| #[trigger]
            before.contains(name) ==> unused.contains(name) || collected(
                begun,
                replies.push(reply),
                begun.root(kind, name),
            ),
        forall|i: int| 0 <= i < unused.len() ==> before.contains(#[trigger] unused[i]),
    ensures
        clearing(begun, replies.push(reply), kind, unused),
{
    let found = choose|found: Seq<Seq<char>>| #[trigger]
        listed(begun, replies, kind, found) && ({
            &&& forall|name: Seq<char>| #[trigger]
                found.contains(name) && !begun.names(kind).contains(name) ==> before.contains(name)
                    || collected(begun, replies, begun.root(kind, name))
            &&& forall|i: int| 0 <= i < before.len() ==> found.contains(#[trigger] before[i])
        });
    lemma_listed_stays(begun, replies, reply, kind, found);
    assert forall|name: Seq<char>| #[trigger]
        found.contains(name) && !begun.names(kind).contains(name) implies unused.contains(name)
        || collected(begun, replies.push(reply), begun.root(kind, name)) by {
        if !before.contains(name) {
            lemma_collected_stays(begun, replies, reply, begun.root(kind, name));
        }
    }
    assert forall|i: int| 0 <= i < unused.len() implies found.contains(#[trigger] unused[i]) by {
        let k = choose|k: int| 0 <= k < before.len() && before[k] == unused[i];
        assert(found.contains(before[k]));
    }
}

/// What is needed, and where the roots are, stays the same.
proof fn lemma_after_all_keeps(begun: HousekeepingView, replies: Seq<AnswerView>)
    ensures
        ({
            let work = begun.after_all(replies);
            &&& work.sources == begun.sources
            &&& work.channels == begun.channels
            &&& work.flakes == begun.flakes
            &&& work.needed == begun.needed
        }),
    decreases replies.len(),
{
    if replies.len() > 0 {
        lemma_after_all_keeps(begun, replies.drop_last());
    }
}

/// The list of the roots of a kind is followed by the removal of those that are not
/// needed.
proof fn lemma_clearing_begins(
    begun: HousekeepingView,
    replies: Seq<AnswerView>,
    kind: Kind,
    found: Seq<Seq<char>>,
)
    requires
        begun.after_all(replies).chore == (Chore::<Seq<Seq<char>>, SupplierView>::List { kind }),
    ensures
        clearing(
            begun,
            replies.push(Reply::Names(found)),
            kind,
            found.filter(not_in(begun.names(kind))),
        ),
{
    let all = replies.push(Reply::Names(found));
    let f = not_in(begun.names(kind));
    let unused = found.filter(f);
    assert(all.take(replies.len() as int) =~= replies);
    assert(all[replies.len() as int] == AnswerView::Names(found));
    assert(listed(begun, all, kind, found));
    assert forall|name: Seq<char>| #[trigger]
        found.contains(name) && !begun.names(kind).contains(name) implies unused.contains(
        name,
    ) by {
        let i = choose|i: int| 0 <= i < found.len() && found[i] == name;
        assert(f(found[i]));
        found.lemma_filter_contains(f, i);
    }
    assert forall|i: int| 0 <= i < unused.len() implies found.contains(#[trigger] unused[i]) by {
        assert(unused.contains(unused[i]));
        found.lemma_filter_contains_rev(f, unused[i]);
    }
}

/// What was cleared stays so behind any reply.
proof fn lemma_clearing_stays(
    begun: HousekeepingView,
    replies: Seq<AnswerView>,
    reply: AnswerView,
    kind: Kind,
    unused: Seq<Seq<char>>,
)
    requires
        clearing(begun, replies, kind, unused),
    ensures
        clearing(begun, replies.push(reply), kind, unused),
{
    lemma_clearing_goes_on(begun, replies, reply, kind, unused, unused);
}

/// A root that was removed, or that is gone, is behind the clearing.
proof fn lemma_clearing_drops(
    begun: HousekeepingView,
    replies: Seq<AnswerView>,
    reply: AnswerView,
    kind: Kind,
    unused: Seq<Seq<char>>,
)
    requires
        clearing(begun, replies, kind, unused),
        unused.len() > 0,
        ({
            let path = begun.root(kind, unused.first());
            let asked = begun.after_all(replies).wants();
            ||| asked == Some(RequestView::RemoveFile { path }) && reply == AnswerView::Removed
            ||| asked == Some(RequestView::Exists { path }) && reply == AnswerView::Found(false)
        }),
    ensures
        clearing(begun, replies.push(reply), kind, behind(unused)),
{
    let all = replies.push(reply);
    let path = begun.root(kind, unused.first());
    assert(all.take(replies.len() as int) =~= replies);
    assert(all[replies.len() as int] == reply);
    assert(collected(begun, all, path));
    let rest = behind(unused);
    assert forall|name: Seq<char>| #[trigger] unused.contains(name) implies rest.contains(name)
        || collected(begun, all, begun.root(kind, name)) by {
        let i = choose|i: int| 0 <= i < unused.len() && unused[i] == name;
        if i > 0 {
            assert(rest[i - 1] == name);
        }
    }
    assert forall|i: int| 0 <= i < rest.len() implies unused.contains(#[trigger] rest[i]) by {
        assert(unused[i + 1] == rest[i]);
    }
    lemma_clearing_goes_on(begun, replies, reply, kind, unused, rest);
}

/// However the housekeeping stands, all that it did is accounted for.
proof fn lemma_accounted(begun: HousekeepingView, replies: Seq<AnswerView>)
    requires
        begun.chore == (Chore::<Seq<Seq<char>>, SupplierView>::List { kind: Kind::Channel }),
    ensures
        accounted(begun, replies),
        begun.after_all(replies).wf(),
    decreases replies.len(),
{
    if replies.len() > 0 {
        let front = replies.drop_last();
        let reply = replies.last();
        let work = begun.after_all(front);
        let none = Seq::<Seq<char>>::empty();
        lemma_accounted(begun, front);
        lemma_after_all_keeps(begun, front);
        law_housekeeping_stays_well_formed(work, reply);
        assert(replies =~= front.push(reply));
        let channels_done = match work.chore {
            Chore::List { kind } => kind is Flake,
            Chore::Probe { kind, .. } => kind is Flake,
            Chore::Remove { kind, .. } => kind is Flake,
            Chore::Fetch { .. } => true,
        };
        if channels_done {
            lemma_clearing_stays(begun, front, reply, Kind::Channel, none);
        }
        match work.chore {
            Chore::List { kind } => {
                if let Reply::Names(found) = reply {
                    lemma_clearing_begins(begun, front, kind, found);
                    let unused = found.filter(not_in(begun.names(kind)));
                    if unused.len() == 0 {
                        assert(unused =~= none);
                    }
                }
            },
            Chore::Probe { kind, unused } => {
                if reply == AnswerView::Found(false) {
                    lemma_clearing_drops(begun, front, reply, kind, unused);
                    if behind(unused).len() == 0 {
                        assert(behind(unused) =~= none);
                    }
                } else {
                    lemma_clearing_stays(begun, front, reply, kind, unused);
                }
            },
            Chore::Remove { kind, unused } => {
                if reply == AnswerView::Removed {
                    lemma_clearing_drops(begun, front, reply, kind, unused);
                    if behind(unused).len() == 0 {
                        assert(behind(unused) =~= none);
                    }
                } else {
                    lemma_clearing_stays(begun, front, reply, kind, unused);
                }
            },
            Chore::Fetch { supply } => {
                lemma_clearing_stays(begun, front, reply, Kind::Flake, none);
                let k = choose|k: int| #[trigger]
                    supply_begins(begun, front, k) && supply == SupplierView::facing(
                        begun.needed,
                        false,
                    ).0.after_all(front.skip(k));
                assert(replies.take(k) =~= front.take(k));
                assert(supply_begins(begun, replies, k));
                assert(replies.skip(k).drop_last() =~= front.skip(k));
                assert(replies.skip(k).last() == reply);
            },
        }
        if let Chore::Fetch { supply } = begun.after_all(replies).chore {
            if !(work.chore is Fetch) {
                let k = replies.len() as int;
                assert(replies.skip(k) =~= Seq::empty());
                assert(replies.take(k) =~= replies);
                assert(supply_begins(begun, replies, k));
                assert(supply == SupplierView::facing(begun.needed, false).0.after_all(
                    replies.skip(k),
                ));
            }
        }
    }
}

/// Among some replies to the housekeeping is the list of the roots of a kind on disk,
/// and each root of that list that no package needs was removed, or was said to be
/// gone.
pub open spec fn all_cleared(
    begun: HousekeepingView,
    replies: Seq<AnswerView>,
    kind: Kind,
) -> bool {
    exists|found: Seq<Seq<char>>| #[trigger]
        listed(begun, replies, kind, found) && forall|name: Seq<char>| #[trigger]
            found.contains(name) && !begun.names(kind).contains(name) ==> collected(
                begun,
                replies,
                begun.root(kind, name),
            )
}

/// The last of some replies to the housekeeping supply each source that a package
/// needs.
pub open spec fn all_supplied(begun: HousekeepingView, replies: Seq<AnswerView>) -> bool {
    exists|k: int| #[trigger]
        supply_begins(begun, replies, k) && supplies_all(begun.needed, replies.skip(k))
}

/// Some replies to the fetching of sources supply each of them.
pub open spec fn supplies_all(items: Seq<Item<Seq<char>>>, replies: Seq<AnswerView>) -> bool {
    forall|item: Item<Seq<char>>| #[trigger]
        items.contains(item) ==> supply::supplied(
            SupplierView::facing(items, false).0,
            replies,
            item,
        )
}

proof fn lemma_all_cleared(begun: HousekeepingView, replies: Seq<AnswerView>, kind: Kind)
    requires
        clearing(begun, replies, kind, Seq::empty()),
    ensures
        all_cleared(begun, replies, kind),
{
    let none = Seq::<Seq<char>>::empty();
    let found = choose|found: Seq<Seq<char>>| #[trigger]
        listed(begun, replies, kind, found) && ({
            &&& forall|name: Seq<char>| #[trigger]
                found.contains(name) && !begun.names(kind).contains(name) ==> none.contains(name)
                    || collected(begun, replies, begun.root(kind, name))
            &&& forall|i: int| 0 <= i < none.len() ==> found.contains(#[trigger] none[i])
        });
    assert(listed(begun, replies, kind, found));
}

/// Where the housekeeping of an environment ends well, it is complete, whatever the
/// replies were: for channels and for flakes the roots on disk were listed, each of
/// them that no package needs was removed or was said to be gone, and each source
/// that a package needs was found there or was fetched.
pub proof fn law_housekeeping_is_complete(
    sources: SourcesView,
    packages: Seq<Seq<char>>,
    replies: Seq<AnswerView>,
)
    requires
        HousekeepingView::begun(sources, packages).after_all(replies).chore matches Chore::Fetch {
            supply,
        } && supply.stage is Supplied,
    ensures
        all_cleared(HousekeepingView::begun(sources, packages), replies, Kind::Channel),
        all_cleared(HousekeepingView::begun(sources, packages), replies, Kind::Flake),
        all_supplied(HousekeepingView::begun(sources, packages), replies),
{
    let begun = HousekeepingView::begun(sources, packages);
    lemma_accounted(begun, replies);
    lemma_all_cleared(begun, replies, Kind::Channel);
    lemma_all_cleared(begun, replies, Kind::Flake);
    let supply = begun.after_all(replies).chore->supply;
    let k = choose|k: int| #[trigger]
        supply_begins(begun, replies, k) && supply == SupplierView::facing(
            begun.needed,
            false,
        ).0.after_all(replies.skip(k));
    assert forall|item: Item<Seq<char>>| #[trigger]
        begun.needed.contains(item) implies supply::supplied(
        SupplierView::facing(begun.needed, false).0,
        replies.skip(k),
        item,
    ) by {
        supply::law_every_source_is_supplied(begun.needed, false, replies.skip(k), item);
    }
    assert(supplies_all(begun.needed, replies.skip(k)));
}

/// A root that is removed because no package needs it is one that the directory of
/// the environment's roots was said to hold.
pub proof fn law_only_listed_roots_are_collected(
    sources: SourcesView,
    packages: Seq<Seq<char>>,
    replies: Seq<AnswerView>,
)
    ensures
        HousekeepingView::begun(sources, packages).after_all(replies).chore matches Chore::Remove {
            kind,
            unused,
        } ==> exists|found: Seq<Seq<char>>| #[trigger]
            listed(HousekeepingView::begun(sources, packages), replies, kind, found)
                && found.contains(unused.first()),
{
    let begun = HousekeepingView::begun(sources, packages);
    lemma_accounted(begun, replies);
    if let Chore::Remove { kind, unused } = begun.after_all(replies).chore {
        assert(clearing(begun, replies, kind, unused));
        let found = choose|found: Seq<Seq<char>>| #[trigger]
            listed(begun, replies, kind, found) && ({
                &&& forall|name: Seq<char>| #[trigger]
                    found.contains(name) && !begun.names(kind).contains(name) ==> unused.contains(
                        name,
                    ) || collected(begun, replies, begun.root(kind, name))
                &&& forall|i: int| 0 <= i < unused.len() ==> found.contains(#[trigger] unused[i])
            });
        assert(found.contains(unused[0]));
    }
}

} // verus!
