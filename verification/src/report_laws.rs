//! What reports tell: every environment, source and package, each in its place.

use crate::effect::{Effect, Reply, RequestView};
use crate::nix;
use crate::notice;
use crate::paths;
use crate::plan::Phase;
use crate::report;
use crate::report::{Json, JsonMemberView, JsonValue, ListingView};
use crate::session;
use crate::session::SessionView;
use crate::source_laws;
use crate::storage;
use crate::storage::EnvFile;
use vstd::prelude::*;

verus! {

/// A report of one environment in its three parts.
pub open spec fn in_three_parts(
    text: Seq<char>,
    shown: Seq<char>,
    channels: Seq<char>,
    flakes: Seq<char>,
    packages: Seq<char>,
) -> bool {
    text == "Environment "@ + shown + "\n\nChannels:\n"@ + channels + "\nFlakes:\n"@ + flakes
        + "\nPackages:\n"@ + packages
}

/// A report of one environment has its channels, its flakes and its packages, each on
/// its line in the part of its own, and says so where there is none.
pub open spec fn tells_environment(
    text: Seq<char>,
    shown: Seq<char>,
    packages: Seq<Seq<char>>,
) -> bool {
    exists|c: Seq<char>, f: Seq<char>, p: Seq<char>| #[trigger]
        in_three_parts(text, shown, c, f, p) && ({
            &&& forall|name: Seq<char>| #[trigger]
                source_laws::needs_channel(packages, name) ==> nix::occurs(
                    " - "@ + name + "\n"@,
                    c,
                )
            &&& (forall|name: Seq<char>| !#[trigger] source_laws::needs_channel(packages, name))
                ==> c == " - <empty>\n"@
            &&& forall|name: Seq<char>| #[trigger]
                source_laws::needs_flake(packages, name) ==> nix::occurs(" - "@ + name + "\n"@, f)
            &&& (forall|name: Seq<char>| !#[trigger] source_laws::needs_flake(packages, name))
                ==> f == " - <empty>\n"@
            &&& forall|i: int|
                0 <= i < packages.len() ==> nix::occurs(
                    " - "@ + #[trigger] packages[i] + "\n"@,
                    p,
                )
            &&& packages.len() == 0 ==> p == " - <empty>\n"@
        })
}

/// A report of one environment in text tells its channels, its flakes and its packages.
pub proof fn law_info_tells_the_environment(shown: Seq<char>, packages: Seq<Seq<char>>)
    ensures
        tells_environment(report::info_text(shown, packages), shown, packages),
{
    let channels = storage::channels_of(packages);
    let flakes = storage::flakes_of(packages);
    let bullet = " - "@;
    let none = " - <empty>\n"@;
    let c = report::bullets_or(bullet, channels, none);
    let f = report::bullets_or(bullet, flakes, none);
    let p = report::bullets_or(bullet, packages, none);
    assert(in_three_parts(report::info_text(shown, packages), shown, c, f, p));
    assert forall|name: Seq<char>| #[trigger]
        source_laws::needs_channel(packages, name) implies nix::occurs(bullet + name + "\n"@, c) by {
        source_laws::law_sources_of_packages(packages, name);
        let i = choose|i: int| 0 <= i < channels.len() && channels[i] == name;
        report::law_bullets_tell_every_item(bullet, channels, none, i);
    }
    assert forall|name: Seq<char>| #[trigger]
        source_laws::needs_flake(packages, name) implies nix::occurs(bullet + name + "\n"@, f) by {
        source_laws::law_sources_of_packages(packages, name);
        let i = choose|i: int| 0 <= i < flakes.len() && flakes[i] == name;
        report::law_bullets_tell_every_item(bullet, flakes, none, i);
    }
    assert forall|i: int| 0 <= i < packages.len() implies nix::occurs(
        bullet + #[trigger] packages[i] + "\n"@,
        p,
    ) by {
        report::law_bullets_tell_every_item(bullet, packages, none, i);
    }
    if channels.len() > 0 {
        assert(channels.contains(channels[0]));
        source_laws::law_sources_of_packages(packages, channels[0]);
    }
    if flakes.len() > 0 {
        assert(flakes.contains(flakes[0]));
        source_laws::law_sources_of_packages(packages, flakes[0]);
    }
}

/// A list of environments has one of them: its name, and each of its packages behind
/// it, or a word that there is none.
pub open spec fn tells_listing(text: Seq<char>, listing: ListingView) -> bool {
    exists|body: Seq<char>|
        nix::occurs(#[trigger] (listing.name + ":\n"@ + body + "\n"@), text) && ({
            &&& forall|k: int|
                0 <= k < listing.packages.len() ==> nix::occurs(
                    "  - "@ + #[trigger] listing.packages[k] + "\n"@,
                    body,
                )
            &&& listing.packages.len() == 0 ==> body == "  <empty>\n"@
        })
}

proof fn lemma_listing_occurs(list: Seq<ListingView>, i: int)
    requires
        0 <= i < list.len(),
    ensures
        nix::occurs(report::listing_text(list[i]), report::listings_text(list)),
    decreases list.len(),
{
    let front = list.drop_last();
    let part = report::listing_text(list[i]);
    let before = report::listings_text(front);
    if i == front.len() {
        assert(report::listings_text(list) =~= before + part + Seq::empty());
    } else {
        lemma_listing_occurs(front, i);
        let (a, b) = choose|a: Seq<char>, b: Seq<char>| before == #[trigger] (a + part + b);
        assert(report::listings_text(list) =~= a + part + (b + report::listing_text(list.last())));
    }
}

/// A list of environments in text tells each of them with its own packages.
pub proof fn law_list_tells_every_environment(list: Seq<ListingView>, i: int)
    requires
        0 <= i < list.len(),
    ensures
        tells_listing(report::list_text(list), list[i]),
{
    let listing = list[i];
    let body = report::bullets_or("  - "@, listing.packages, "  <empty>\n"@);
    lemma_listing_occurs(list, i);
    assert(nix::occurs(listing.name + ":\n"@ + body + "\n"@, report::list_text(list)));
    assert forall|k: int| 0 <= k < listing.packages.len() implies nix::occurs(
        "  - "@ + #[trigger] listing.packages[k] + "\n"@,
        body,
    ) by {
        report::law_bullets_tell_every_item("  - "@, listing.packages, "  <empty>\n"@, k);
    }
}

/// The value of a key of a JSON object, which no other member has.
pub open spec fn value_is(
    members: Seq<JsonMemberView>,
    key: Seq<char>,
    value: JsonValue<Seq<char>, Seq<Seq<char>>>,
) -> bool {
    &&& exists|i: int| 0 <= i < members.len() && (#[trigger] members[i]).key == key
    &&& forall|i: int|
        0 <= i < members.len() && (#[trigger] members[i]).key == key ==> members[i].value == value
}

/// The document of one environment has its packages, and its channels and flakes are
/// those that a package names.
pub proof fn law_info_document(packages: Seq<Seq<char>>)
    ensures
        report::info_doc(packages) matches Json::Object(members) && ({
            &&& value_is(members, "packages"@, JsonValue::List(packages))
            &&& exists|channels: Seq<Seq<char>>|
                #![trigger value_is(members, "channels"@, JsonValue::List(channels))]
                value_is(members, "channels"@, JsonValue::List(channels)) && forall|
                    name: Seq<char>,
                | #[trigger]
                    channels.contains(name) <==> source_laws::needs_channel(packages, name)
            &&& exists|flakes: Seq<Seq<char>>|
                #![trigger value_is(members, "flakes"@, JsonValue::List(flakes))]
                value_is(members, "flakes"@, JsonValue::List(flakes)) && forall|name: Seq<char>|
                    #[trigger]
                    flakes.contains(name) <==> source_laws::needs_flake(packages, name)
        }),
{
    reveal_strlit("channels");
    reveal_strlit("flakes");
    reveal_strlit("packages");
    assert("channels"@[0] == 'c' && "flakes"@[0] == 'f' && "packages"@[0] == 'p');
    let members = report::info_doc(packages)->Object_0;
    let channels = storage::channels_of(packages);
    let flakes = storage::flakes_of(packages);
    assert(members[0].key == "channels"@ && members[1].key == "flakes"@);
    assert(members[2].key == "packages"@);
    assert(value_is(members, "channels"@, JsonValue::List(channels)));
    assert(value_is(members, "flakes"@, JsonValue::List(flakes)));
    assert forall|name: Seq<char>| #[trigger]
        channels.contains(name) <==> source_laws::needs_channel(packages, name) by {
        source_laws::law_sources_of_packages(packages, name);
    }
    assert forall|name: Seq<char>| #[trigger]
        flakes.contains(name) <==> source_laws::needs_flake(packages, name) by {
        source_laws::law_sources_of_packages(packages, name);
    }
}

/// The document of all environments has one object for each, in their order, with its
/// name and its own packages.
pub proof fn law_list_document(list: Seq<ListingView>, i: int)
    requires
        0 <= i < list.len(),
    ensures
        report::list_doc(list) matches Json::Array(objects) && ({
            &&& objects.len() == list.len()
            &&& value_is(objects[i], "name"@, JsonValue::Text(list[i].name))
            &&& value_is(objects[i], "packages"@, JsonValue::List(list[i].packages))
        }),
{
    reveal_strlit("name");
    reveal_strlit("packages");
    assert("name"@[0] == 'n' && "packages"@[0] == 'p');
    let object = report::list_doc(list)->Array_0[i];
    assert(object[0].key == "name"@ && object[1].key == "packages"@);
}

/// What is put out of an environment tells that environment and the packages that its
/// file was found to hold, as text or as JSON.
pub proof fn law_report_is_of_the_environment(s: SessionView)
    requires
        s.plan.phase() == Some(Phase::Report),
        s.plan.task is Info,
    ensures
        s.entered().0.wants() matches Some(Effect::Print { content }) && ({
            let packages = s.site.storage.packages;
            &&& !s.json ==> tells_environment(
                content,
                notice::debug_text(s.plan.env),
                packages,
            )
            &&& s.json ==> content == report::pretty_json(report::info_doc(packages)) + "\n"@
        }),
{
    law_info_tells_the_environment(
        notice::debug_text(s.plan.env),
        s.site.storage.packages,
    );
}

/// A list reads the file of each environment in its turn, and takes the packages of
/// that file for that environment; where all were read, it tells each of them.
pub proof fn law_list_reads_every_environment(
    s: SessionView,
    file: EnvFile<Seq<char>>,
    files: Seq<Seq<char>>,
)
    requires
        s.plan.task is List,
    ensures
        s.work is ListEnvs && s.plan.phase() is Some && s.plan.route.len() == 2 && s.plan.route[1]
            == Phase::Report ==> s.after(Reply::Names(files)).queue == session::envs_of(files),
        s.work is LoadNext && s.queue.len() > 0 ==> {
            let next = s.after(Reply::File(file));
            &&& s.wants() == Some(
                RequestView::ReadEnv {
                    path: paths::joined_path(s.config_dir, "env."@ + s.queue.first()),
                },
            )
            &&& next.queue == s.queue.drop_first()
            &&& next.listings.drop_last() == s.listings
            &&& next.listings.last().name == s.queue.first()
            &&& next.listings.last().packages == match file {
                EnvFile::Text(text) => storage::listed_in(text),
                _ => Seq::empty(),
            }
            &&& s.queue.len() == 1 ==> (next.wants() matches Some(Effect::Print { content }) && {
                &&& s.json ==> content == report::pretty_json(report::list_doc(next.listings))
                    + "\n"@
                &&& !s.json ==> forall|i: int|
                    0 <= i < next.listings.len() ==> tells_listing(
                        content,
                        #[trigger] next.listings[i],
                    )
            })
        },
{
    if s.work is LoadNext && s.queue.len() > 0 {
        let next = s.after(Reply::File(file));
        assert(next.listings.drop_last() =~= s.listings);
        assert forall|i: int| 0 <= i < next.listings.len() implies tells_listing(
            report::list_text(next.listings),
            #[trigger] next.listings[i],
        ) by {
            law_list_tells_every_environment(next.listings, i);
        }
    }
}

} // verus!
