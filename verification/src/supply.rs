//! Fetching several sources, one behind the other.

use crate::effect;
use crate::effect::{Answer, AnswerView, Effect, Reply, Request, RequestView};
use crate::failure::Failure;
use crate::notice;
use crate::notice::Notice;
use crate::sources;
use crate::sources::Sources;
use crate::storage;
use crate::storage::Storage;
use crate::text;
use crate::update::{SourceUpdate, Target, UpdateStage};
use vstd::prelude::*;
use vstd::string::*;

verus! {

/// A source to fetch, with the path of its root.
pub struct Item<T> {
    pub target: Target<T>,
    pub root: T,
}

/// How far the fetching of several sources has come.
pub enum SupplyStage<T> {
    /// The first source of the rest may be there from before.
    Probe,
    /// The first source of the rest is fetched.
    Fetch { update: SourceUpdate<T> },
    /// All sources are there.
    Supplied,
    /// A source could not be fetched.
    Failed { failure: Failure<T> },
}

/// The fetching of several sources. `rest` holds those that are still to come and
/// the one at hand; `refresh` says that they are fetched even where they are
/// there.
pub struct Supply<L, T> {
    pub rest: L,
    pub refresh: bool,
    pub stage: SupplyStage<T>,
}

/// The fetching of several sources, in running code.
pub type Supplier = Supply<Vec<Item<String>>, String>;

/// The fetching of several sources, in specifications.
pub type SupplierView = Supply<Seq<Item<Seq<char>>>, Seq<char>>;

impl View for Item<String> {
    type V = Item<Seq<char>>;

    open spec fn view(&self) -> Item<Seq<char>> {
        Item { target: self.target@, root: self.root@ }
    }
}

/// What a list of sources says.
pub open spec fn items_view(list: Seq<Item<String>>) -> Seq<Item<Seq<char>>> {
    Seq::new(list.len(), |i: int| list[i]@)
}

impl View for SupplyStage<String> {
    type V = SupplyStage<Seq<char>>;

    open spec fn view(&self) -> SupplyStage<Seq<char>> {
        match self {
            SupplyStage::Probe => SupplyStage::Probe,
            SupplyStage::Fetch { update } => SupplyStage::Fetch { update: update@ },
            SupplyStage::Supplied => SupplyStage::Supplied,
            SupplyStage::Failed { failure } => SupplyStage::Failed { failure: failure@ },
        }
    }
}

impl View for Supply<Vec<Item<String>>, String> {
    type V = SupplierView;

    open spec fn view(&self) -> SupplierView {
        Supply { rest: items_view(self.rest@), refresh: self.refresh, stage: self.stage@ }
    }
}

/// The sources that a list of packages needs: its channels, then its flakes.
pub open spec fn needed(
    sources: sources::SourcesView,
    packages: Seq<Seq<char>>,
) -> Seq<Item<Seq<char>>> {
    let channels = storage::channels_of(packages);
    let flakes = storage::flakes_of(packages);
    channels.map_values(
        |name: Seq<char>|
            Item { target: Target::Channel { name }, root: sources.channel_root(name) },
    ) + flakes.map_values(
        |name: Seq<char>| Item { target: Target::Flake { name }, root: sources.flake_root(name) },
    )
}

/// A list of sources without its first.
pub open spec fn behind_first(rest: Seq<Item<Seq<char>>>) -> Seq<Item<Seq<char>>> {
    if rest.len() == 0 {
        rest
    } else {
        rest.drop_first()
    }
}

impl Item<Seq<char>> {
    /// The fetching of the source, before anything was done.
    pub open spec fn update(self) -> SourceUpdate<Seq<char>> {
        SourceUpdate::begun(self.target, self.root)
    }
}

impl Supply<Seq<Item<Seq<char>>>, Seq<char>> {
    /// The fetching of sources, before anything was done for them, and what is said
    /// of it.
    pub open spec fn facing(rest: Seq<Item<Seq<char>>>, refresh: bool) -> (
        SupplierView,
        Seq<Notice<Seq<char>>>,
    ) {
        if rest.len() == 0 {
            (Supply { rest, refresh, stage: SupplyStage::Supplied }, seq![])
        } else if refresh {
            (
                Supply {
                    rest,
                    refresh,
                    stage: SupplyStage::Fetch { update: rest.first().update() },
                },
                seq![rest.first().target.announcement()],
            )
        } else {
            (Supply { rest, refresh, stage: SupplyStage::Probe }, seq![])
        }
    }

    /// What is to be done next; nothing where all sources are there or one failed.
    pub open spec fn wants(self) -> Option<RequestView> {
        match self.stage {
            SupplyStage::Probe => if self.rest.len() > 0 {
                Some(Effect::Exists { path: self.rest.first().root })
            } else {
                None
            },
            SupplyStage::Fetch { update } => update.wants(),
            SupplyStage::Supplied => None,
            SupplyStage::Failed { .. } => None,
        }
    }

    /// The fetching behind a reply, and what is said of it. Where one source fails,
    /// those behind it are not tried.
    pub open spec fn moved(self, reply: AnswerView) -> (SupplierView, Seq<Notice<Seq<char>>>) {
        match (self.stage, reply) {
            (SupplyStage::Probe, Reply::Found(found)) => if found || self.rest.len() == 0 {
                Self::facing(behind_first(self.rest), self.refresh)
            } else {
                (
                    Supply {
                        stage: SupplyStage::Fetch { update: self.rest.first().update() },
                        ..self
                    },
                    seq![self.rest.first().target.announcement()],
                )
            },
            (SupplyStage::Fetch { update }, reply) => {
                let said = update.moved(reply).1;
                match update.after(reply).stage {
                    UpdateStage::Updated => {
                        let next = Self::facing(behind_first(self.rest), self.refresh);
                        (next.0, said + next.1)
                    },
                    UpdateStage::Failed { failure } => (
                        Supply { stage: SupplyStage::Failed { failure }, ..self },
                        said,
                    ),
                    _ => (
                        Supply {
                            stage: SupplyStage::Fetch { update: update.after(reply) },
                            ..self
                        },
                        said,
                    ),
                }
            },
            _ => (self, seq![]),
        }
    }

    /// The fetching behind a reply.
    pub open spec fn after(self, reply: AnswerView) -> SupplierView {
        self.moved(reply).0
    }

    /// The states that the fetching of sources can be in.
    pub open spec fn wf(self) -> bool {
        match self.stage {
            SupplyStage::Probe => self.rest.len() > 0 && !self.refresh,
            SupplyStage::Fetch { update } => self.rest.len() > 0 && update.target
                == self.rest.first().target && update.root == self.rest.first().root
                && update.wants() is Some,
            SupplyStage::Supplied => self.rest.len() == 0,
            SupplyStage::Failed { .. } => true,
        }
    }
}

/// Lists the sources that a storage needs.
pub fn needed_items(sources: &Sources, storage: &Storage) -> (r: Vec<Item<String>>)
    ensures
        items_view(r@) == needed(sources@, storage@.packages),
{
    let channels = storage.list_channels();
    let flakes = storage.list_flakes();
    let ghost first = text::texts(channels@);
    let ghost second = text::texts(flakes@);
    let mut out: Vec<Item<String>> = Vec::new();
    let mut i: usize = 0;
    while i < channels.len()
        invariant
            i <= channels@.len(),
            out@.len() == i,
            first == text::texts(channels@),
            forall|j: int|
                0 <= j < i ==> (#[trigger] out@[j])@ == (Item {
                    target: Target::Channel { name: first[j] },
                    root: sources@.channel_root(first[j]),
                }),
        decreases channels@.len() - i,
    {
        let name = channels[i].as_str();
        out.push(
            Item {
                target: Target::Channel { name: name.to_owned() },
                root: sources.channel_root(name),
            },
        );
        i = i + 1;
    }
    let ghost n = out@.len();
    let mut k: usize = 0;
    while k < flakes.len()
        invariant
            k <= flakes@.len(),
            n == first.len(),
            out@.len() == n + k,
            second == text::texts(flakes@),
            forall|j: int|
                0 <= j < n ==> (#[trigger] out@[j])@ == (Item {
                    target: Target::Channel { name: first[j] },
                    root: sources@.channel_root(first[j]),
                }),
            forall|j: int|
                n <= j < n + k ==> (#[trigger] out@[j])@ == (Item {
                    target: Target::Flake { name: second[j - n] },
                    root: sources@.flake_root(second[j - n]),
                }),
        decreases flakes@.len() - k,
    {
        let name = flakes[k].as_str();
        out.push(
            Item {
                target: Target::Flake { name: name.to_owned() },
                root: sources.flake_root(name),
            },
        );
        k = k + 1;
    }
    assert(items_view(out@) =~= needed(sources@, storage@.packages));
    out
}

fn drop_first_item(rest: &mut Vec<Item<String>>)
    ensures
        items_view(final(rest)@) == behind_first(items_view(old(rest)@)),
{
    if rest.len() > 0 {
        let ghost before = items_view(rest@);
        rest.remove(0);
        assert(items_view(rest@) =~= before.drop_first());
    }
}

impl Item<String> {
    /// The same source once more.
    pub fn duplicate(&self) -> (r: Item<String>)
        ensures
            r@ == self@,
    {
        Item {
            target: match &self.target {
                Target::Channel { name } => Target::Channel { name: name.clone() },
                Target::Flake { name } => Target::Flake { name: name.clone() },
                Target::Nixpkgs => Target::Nixpkgs,
            },
            root: self.root.clone(),
        }
    }

    /// Begins to fetch the source.
    pub fn begin(&self) -> (r: SourceUpdate<String>)
        ensures
            r@ == self@.update(),
    {
        let copy = self.duplicate();
        SourceUpdate::begin(copy.target, copy.root)
    }
}

impl Supply<Vec<Item<String>>, String> {
    /// Begins to fetch sources.
    pub fn face(rest: Vec<Item<String>>, refresh: bool) -> (r: (Self, Vec<Notice<String>>))
        ensures
            r.0@ == SupplierView::facing(items_view(rest@), refresh).0,
            notice::notices_view(r.1@) == SupplierView::facing(items_view(rest@), refresh).1,
            r.0@.wf(),
    {
        let mut notices: Vec<Notice<String>> = Vec::new();
        let stage = if rest.len() == 0 {
            SupplyStage::Supplied
        } else if refresh {
            let update = rest[0].begin();
            notices.push(update.announce());
            SupplyStage::Fetch { update }
        } else {
            SupplyStage::Probe
        };
        assert(notice::notices_view(notices@) =~= SupplierView::facing(
            items_view(rest@),
            refresh,
        ).1);
        (Supply { rest, refresh, stage }, notices)
    }

    /// What is to be done next.
    pub fn request(&self) -> (r: Option<Request>)
        ensures
            effect::request_view(r) == self@.wants(),
    {
        match &self.stage {
            SupplyStage::Probe => if self.rest.len() > 0 {
                Some(Effect::Exists { path: self.rest[0].root.clone() })
            } else {
                None
            },
            SupplyStage::Fetch { update } => update.request(),
            SupplyStage::Supplied => None,
            SupplyStage::Failed { .. } => None,
        }
    }

    /// Goes on with a reply.
    pub fn advance(self, reply: Answer) -> (r: (Self, Vec<Notice<String>>))
        ensures
            r.0@ == self@.after(reply@),
            notice::notices_view(r.1@) == self@.moved(reply@).1,
    {
        let ghost this = self@;
        let ghost answer = reply@;
        let Supply { rest, refresh, stage } = self;
        let mut rest = rest;
        match (stage, reply) {
            (SupplyStage::Probe, Reply::Found(found)) => if found || rest.len() == 0 {
                drop_first_item(&mut rest);
                Supply::face(rest, refresh)
            } else {
                let update = rest[0].begin();
                let mut notices: Vec<Notice<String>> = Vec::new();
                notices.push(update.announce());
                assert(notice::notices_view(notices@) =~= this.moved(answer).1);
                (Supply { rest, refresh, stage: SupplyStage::Fetch { update } }, notices)
            },
            (SupplyStage::Fetch { update }, reply) => {
                let (update, notices) = update.advance(reply);
                let mut notices = notices;
                let SourceUpdate { target, root, stage } = update;
                match stage {
                    UpdateStage::Updated => {
                        drop_first_item(&mut rest);
                        let (next, more) = Supply::face(rest, refresh);
                        let mut more = more;
                        notices.append(&mut more);
                        assert(notice::notices_view(notices@) =~= this.moved(answer).1);
                        (next, notices)
                    },
                    UpdateStage::Failed { failure } => (
                        Supply { rest, refresh, stage: SupplyStage::Failed { failure } },
                        notices,
                    ),
                    stage => (
                        Supply {
                            rest,
                            refresh,
                            stage: SupplyStage::Fetch {
                                update: SourceUpdate { target, root, stage },
                            },
                        },
                        notices,
                    ),
                }
            },
            (stage, _) => {
                let out = (Supply { rest, refresh, stage }, Vec::new());
                assert(notice::notices_view(out.1@) =~= this.moved(answer).1);
                out
            },
        }
    }
}

/// The fetching of sources begins well and stays so, whatever comes back.
pub proof fn law_supply_stays_well_formed(supply: SupplierView, reply: AnswerView)
    requires
        supply.wf(),
    ensures
        supply.after(reply).wf(),
{
}

/// A source is left behind only where it was found or was fetched.
pub proof fn law_supply_leaves_nothing_out(supply: SupplierView, reply: AnswerView)
    requires
        supply.wf(),
    ensures
        supply.after(reply).rest == supply.rest || {
            &&& supply.rest.len() > 0
            &&& supply.after(reply).rest == supply.rest.drop_first()
            &&& {
                ||| supply.stage is Probe && reply == AnswerView::Found(true)
                ||| supply.stage matches SupplyStage::Fetch { update } && update.after(
                    reply,
                ).stage is Updated
            }
        },
        supply.after(reply).stage is Supplied ==> supply.after(reply).rest.len() == 0,
{
}

/// A source that is looked for is fetched exactly where it is not there.
pub proof fn law_supply_spares_what_is_there(supply: SupplierView)
    requires
        supply.wf(),
        supply.stage is Probe,
    ensures
        !(supply.after(Reply::Found(true)).stage is Fetch),
        supply.after(Reply::Found(true)).rest == supply.rest.drop_first(),
        supply.after(Reply::Found(false)).stage == (SupplyStage::Fetch {
            update: supply.rest.first().update(),
        }),
{
}

/// Where a source fails, nothing more is asked for.
pub proof fn law_supply_stops_at_failure(supply: SupplierView, reply: AnswerView)
    requires
        supply.stage is Failed,
    ensures
        supply.wants() is None,
        supply.after(reply) == supply,
{
}

impl Supply<Seq<Item<Seq<char>>>, Seq<char>> {
    /// The fetching behind several replies.
    pub open spec fn after_all(self, replies: Seq<AnswerView>) -> SupplierView
        decreases replies.len(),
    {
        if replies.len() == 0 {
            self
        } else {
            self.after_all(replies.drop_last()).after(replies.last())
        }
    }

    /// A reply leaves a source behind: it was found, where that is enough, or its
    /// fetching has come to its end.
    pub open spec fn gets(self, item: Item<Seq<char>>, reply: AnswerView) -> bool {
        &&& self.rest.len() > 0
        &&& self.rest.first() == item
        &&& match self.stage {
            SupplyStage::Probe => !self.refresh && reply == AnswerView::Found(true),
            SupplyStage::Fetch { update } => update.target == item.target && update.root
                == item.root && update.after(reply).stage is Updated,
            _ => false,
        }
    }
}

/// Among some replies to the fetching of sources is the one that leaves a source
/// behind.
pub open spec fn supplied(
    begun: SupplierView,
    replies: Seq<AnswerView>,
    item: Item<Seq<char>>,
) -> bool {
    exists|j: int|
        0 <= j < replies.len() && begun.after_all(#[trigger] replies.take(j)).gets(
            item,
            replies[j],
        )
}

/// What was left behind stays so.
proof fn lemma_supplied_stays(
    begun: SupplierView,
    replies: Seq<AnswerView>,
    reply: AnswerView,
    item: Item<Seq<char>>,
)
    requires
        supplied(begun, replies, item),
    ensures
        supplied(begun, replies.push(reply), item),
{
    let j = choose|j: int|
        0 <= j < replies.len() && begun.after_all(#[trigger] replies.take(j)).gets(
            item,
            replies[j],
        );
    assert(replies.push(reply).take(j) =~= replies.take(j));
}

/// How the fetching of sources stands behind some replies: it is well-formed, and each
/// source was left behind or is still to come.
proof fn lemma_supply_run(
    rest: Seq<Item<Seq<char>>>,
    refresh: bool,
    replies: Seq<AnswerView>,
)
    ensures
        ({
            let begun = SupplierView::facing(rest, refresh).0;
            let s = begun.after_all(replies);
            &&& s.wf()
            &&& s.refresh == refresh
            &&& s.rest.len() <= rest.len()
            &&& s.rest == rest.skip(rest.len() - s.rest.len())
            &&& forall|i: int|
                0 <= i < rest.len() - s.rest.len() ==> supplied(
                    begun,
                    replies,
                    #[trigger] rest[i],
                )
        }),
    decreases replies.len(),
{
    let begun = SupplierView::facing(rest, refresh).0;
    let s = begun.after_all(replies);
    if replies.len() == 0 {
        assert(rest.skip(0) =~= rest);
    } else {
        let front = replies.drop_last();
        let reply = replies.last();
        let before = begun.after_all(front);
        lemma_supply_run(rest, refresh, front);
        law_supply_stays_well_formed(before, reply);
        law_supply_leaves_nothing_out(before, reply);
        assert(replies =~= front.push(reply));
        let done = rest.len() - before.rest.len();
        assert forall|i: int| 0 <= i < done implies supplied(
            begun,
            replies,
            #[trigger] rest[i],
        ) by {
            lemma_supplied_stays(begun, front, reply, rest[i]);
        }
        if s.rest != before.rest {
            assert(before.rest.drop_first() =~= rest.skip(done + 1));
            assert(rest[done] == before.rest.first());
            assert(replies.take(front.len() as int) =~= front);
            assert(begun.after_all(replies.take(front.len() as int)).gets(
                rest[done],
                replies[front.len() as int],
            ));
        }
    }
}

/// Where the fetching of sources ends well, none was left out: whatever the replies
/// were, among them is one for each source that found it there or ended its
/// fetching; and where the sources are to be refreshed, finding one is not enough.
pub proof fn law_every_source_is_supplied(
    rest: Seq<Item<Seq<char>>>,
    refresh: bool,
    replies: Seq<AnswerView>,
    item: Item<Seq<char>>,
)
    requires
        rest.contains(item),
        SupplierView::facing(rest, refresh).0.after_all(replies).stage is Supplied,
    ensures
        supplied(SupplierView::facing(rest, refresh).0, replies, item),
        forall|j: int|
            0 <= j <= replies.len() ==> SupplierView::facing(rest, refresh).0.after_all(
                #[trigger] replies.take(j),
            ).refresh == refresh,
{
    lemma_supply_run(rest, refresh, replies);
    let i = choose|i: int| 0 <= i < rest.len() && rest[i] == item;
    assert(supplied(SupplierView::facing(rest, refresh).0, replies, rest[i]));
    assert forall|j: int| 0 <= j <= replies.len() implies SupplierView::facing(
        rest,
        refresh,
    ).0.after_all(#[trigger] replies.take(j)).refresh == refresh by {
        lemma_supply_run(rest, refresh, replies.take(j));
    }
}

} // verus!
