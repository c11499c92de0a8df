//! Which sources packages come from, and which are fetched for them.

use crate::additions::{AddStage, AdderView};
use crate::effect::{Reply, RequestView};
use crate::package;
use crate::sources;
use crate::sources::SourcesView;
use crate::storage;
use crate::storage::StorageView;
use crate::storage_laws;
use crate::supply;
use crate::supply::{Item, SupplierView, SupplyStage};
use crate::text;
use crate::update::Target;
use vstd::prelude::*;

verus! {

/// A package names a channel: up to its first dot, and it holds no number sign.
pub open spec fn of_channel(p: Seq<char>, name: Seq<char>) -> bool {
    &&& !p.contains('#')
    &&& !name.contains('.')
    &&& (name + seq!['.']).is_prefix_of(p)
}

/// A package names a flake: up to its first number sign.
pub open spec fn of_flake(p: Seq<char>, name: Seq<char>) -> bool {
    &&& !name.contains('#')
    &&& (name + seq!['#']).is_prefix_of(p)
}

/// Some package names a channel.
pub open spec fn needs_channel(packages: Seq<Seq<char>>, name: Seq<char>) -> bool {
    exists|i: int| 0 <= i < packages.len() && of_channel(#[trigger] packages[i], name)
}

/// Some package names a flake.
pub open spec fn needs_flake(packages: Seq<Seq<char>>, name: Seq<char>) -> bool {
    exists|i: int| 0 <= i < packages.len() && of_flake(#[trigger] packages[i], name)
}

/// A text that begins with a name and a character is cut there.
proof fn lemma_cut_behind(p: Seq<char>, name: Seq<char>, c: char)
    ensures
        (text::cut_at(p, c) matches Some(parts) && parts.0 == name) <==> !name.contains(c) && (
        name + seq![c]).is_prefix_of(p),
{
    if let Some(parts) = text::cut_at(p, c) {
        text::lemma_cut_at_parts(p, c);
        if parts.0 == name {
            assert(p.take((name.len() + 1) as int) =~= name + seq![c]);
        }
    }
    if !name.contains(c) && (name + seq![c]).is_prefix_of(p) {
        let rest = p.skip((name.len() + 1) as int);
        assert(p.take((name.len() + 1) as int) == name + seq![c]);
        assert(p =~= p.take((name.len() + 1) as int) + rest);
        text::lemma_cut_at_glued(name, c, rest);
    }
}

/// The channel of a package is the one that it names, and so is its flake; what is
/// fetched for it, and at which root, is that source.
pub proof fn law_packages_name_their_source(
    p: Seq<char>,
    name: Seq<char>,
    sources: SourcesView,
)
    ensures
        storage::channel_of(p) == Some(name) <==> of_channel(p, name),
        storage::flake_of(p) == Some(name) <==> of_flake(p, name),
        of_channel(p, name) ==> (package::parsed(p) matches Some(p) && {
            &&& p.source() == name
            &&& sources::target_of(p) == Target::Channel { name }
            &&& sources.root_of(p) == sources.channel_root(name)
        }),
        of_flake(p, name) ==> (package::parsed(p) matches Some(p) && {
            &&& p.source() == name
            &&& sources::target_of(p) == Target::Flake { name }
            &&& sources.root_of(p) == sources.flake_root(name)
        }),
{
    text::lemma_cut_at_none(p, '#');
    lemma_cut_behind(p, name, '#');
    lemma_cut_behind(p, name, '.');
}

/// The channels that are told of some packages are those that a package names, and so
/// are the flakes.
pub proof fn law_sources_of_packages(packages: Seq<Seq<char>>, name: Seq<char>)
    ensures
        storage::channels_of(packages).contains(name) <==> needs_channel(packages, name),
        storage::flakes_of(packages).contains(name) <==> needs_flake(packages, name),
{
    let sources = SourcesView { channels_path: Seq::empty(), flakes_path: Seq::empty() };
    storage_laws::law_channels_are_those_needed(packages, name);
    storage_laws::law_flakes_are_those_needed(packages, name);
    assert forall|i: int| 0 <= i < packages.len() implies (storage::channel_of(
        #[trigger] packages[i],
    ) == Some(name) <==> of_channel(packages[i], name)) && (storage::flake_of(packages[i]) == Some(
        name,
    ) <==> of_flake(packages[i], name)) by {
        law_packages_name_their_source(packages[i], name, sources);
    }
}

/// A source that some packages need, with its own root.
pub open spec fn is_needed(
    item: Item<Seq<char>>,
    sources: SourcesView,
    packages: Seq<Seq<char>>,
) -> bool {
    match item.target {
        Target::Channel { name } => needs_channel(packages, name) && item.root
            == sources.channel_root(name),
        Target::Flake { name } => needs_flake(packages, name) && item.root == sources.flake_root(
            name,
        ),
        Target::Nixpkgs => false,
    }
}

/// What is fetched for some packages are the sources that they name, each at its own
/// root, and no other.
pub proof fn law_named_sources_are_fetched(
    sources: SourcesView,
    packages: Seq<Seq<char>>,
    item: Item<Seq<char>>,
)
    ensures
        supply::needed(sources, packages).contains(item) <==> is_needed(item, sources, packages),
{
    let channels = storage::channels_of(packages);
    let flakes = storage::flakes_of(packages);
    let all = supply::needed(sources, packages);
    if all.contains(item) {
        let i = choose|i: int| 0 <= i < all.len() && all[i] == item;
        if i < channels.len() {
            assert(channels.contains(channels[i]));
            law_sources_of_packages(packages, channels[i]);
        } else {
            assert(flakes.contains(flakes[i - channels.len()]));
            law_sources_of_packages(packages, flakes[i - channels.len()]);
        }
    }
    if is_needed(item, sources, packages) {
        match item.target {
            Target::Channel { name } => {
                law_sources_of_packages(packages, name);
                let i = choose|i: int| 0 <= i < channels.len() && channels[i] == name;
                assert(all[i] == item);
            },
            Target::Flake { name } => {
                law_sources_of_packages(packages, name);
                let i = choose|i: int| 0 <= i < flakes.len() && flakes[i] == name;
                assert(all[channels.len() + i] == item);
            },
            Target::Nixpkgs => {},
        }
    }
}

/// The source of a package to add is looked for at its own root, and that root is where it
/// is fetched to where it is not there.
pub proof fn law_source_looked_for_is_the_one_fetched(
    adder: AdderView,
    storage: StorageView,
    sources: SourcesView,
    p: Seq<char>,
    name: Seq<char>,
)
    requires
        adder.stage matches AddStage::Probe { pkg_ref } && package::parsed(p) == Some(pkg_ref),
    ensures
        ({
            let missing = adder.moved(storage, sources, Reply::Found(false)).adder;
            &&& of_channel(p, name) ==> {
                &&& adder.wants(sources) == Some(
                    RequestView::Exists { path: sources.channel_root(name) },
                )
                &&& missing.stage matches AddStage::Fetch { update, .. }
                &&& update.target == Target::Channel { name }
                &&& update.root == sources.channel_root(name)
            }
            &&& of_flake(p, name) ==> {
                &&& adder.wants(sources) == Some(
                    RequestView::Exists { path: sources.flake_root(name) },
                )
                &&& missing.stage matches AddStage::Fetch { update, .. }
                &&& update.target == Target::Flake { name }
                &&& update.root == sources.flake_root(name)
            }
        }),
{
    law_packages_name_their_source(p, name, sources);
}

/// A source that packages need is looked for at its own root.
pub proof fn law_needed_source_is_looked_for(supply: SupplierView)
    requires
        supply.wf(),
        supply.stage is Probe,
    ensures
        supply.wants() == Some(RequestView::Exists { path: supply.rest[0].root }),
        supply.after(Reply::Found(false)).stage matches SupplyStage::Fetch { update }
            && update.target == supply.rest[0].target && update.root == supply.rest[0].root,
{
}

} // verus!
