//! What an environment is built from and how it is entered.

use crate::effect::{Effect, Reply, RequestView};
use crate::nix;
use crate::package;
use crate::paths;
use crate::process::Output;
use crate::question_laws;
use crate::rebuild;
use crate::rebuild::{BuilderView, Rebuild};
use crate::site::SiteView;
use crate::source_laws;
use crate::sources::SourcesView;
use crate::storage;
use crate::text;
use crate::text_laws;
use vstd::prelude::*;

verus! {

/// A channel with its root, as one part of `NIX_PATH`.
pub open spec fn channel_entry(sources: SourcesView, name: Seq<char>) -> Seq<char> {
    name + seq!['='] + sources.channel_root(name)
}

/// `NIX_PATH` is made of parts with colons between them: one for each channel that a
/// package needs, with the channel's own root, and no other.
pub open spec fn lists_channels(
    nix_path: Seq<char>,
    sources: SourcesView,
    packages: Seq<Seq<char>>,
) -> bool {
    exists|parts: Seq<Seq<char>>| #[trigger]
        text::joined(parts, seq![':']) == nix_path && ({
            &&& forall|name: Seq<char>| #[trigger]
                source_laws::needs_channel(packages, name) ==> parts.contains(
                    channel_entry(sources, name),
                )
            &&& forall|part: Seq<char>| #[trigger]
                parts.contains(part) ==> exists|name: Seq<char>| #[trigger]
                    source_laws::needs_channel(packages, name) && part == channel_entry(
                        sources,
                        name,
                    )
            &&& parts.len() > 0 && (forall|i: int|
                0 <= i < parts.len() ==> !(#[trigger] parts[i]).contains(':')) ==> text::pieces(
                nix_path,
                ':',
            ) == parts
        })
}

proof fn lemma_nix_path(sources: SourcesView, packages: Seq<Seq<char>>)
    ensures
        lists_channels(sources.nix_path(packages), sources, packages),
{
    let channels = storage::channels_of(packages);
    let parts = channels.map_values(|c: Seq<char>| sources.nix_path_entry(c));
    reveal_strlit(":");
    reveal_strlit("=");
    assert(":"@ =~= seq![':']);
    assert("="@ =~= seq!['=']);
    assert(text::joined(parts, seq![':']) == sources.nix_path(packages));
    assert forall|name: Seq<char>| #[trigger]
        source_laws::needs_channel(packages, name) implies parts.contains(
        channel_entry(sources, name),
    ) by {
        source_laws::law_sources_of_packages(packages, name);
        let i = choose|i: int| 0 <= i < channels.len() && channels[i] == name;
        assert(parts[i] == channel_entry(sources, name));
    }
    assert forall|part: Seq<char>| #[trigger] parts.contains(part) implies exists|
        name: Seq<char>,
    | #[trigger]
        source_laws::needs_channel(packages, name) && part == channel_entry(sources, name) by {
        let i = choose|i: int| 0 <= i < parts.len() && parts[i] == part;
        assert(channels.contains(channels[i]));
        source_laws::law_sources_of_packages(packages, channels[i]);
        assert(source_laws::needs_channel(packages, channels[i]));
    }
    if parts.len() > 0 && (forall|i: int|
        0 <= i < parts.len() ==> !(#[trigger] parts[i]).contains(':')) {
        text_laws::law_joined_texts_are_the_pieces(parts, ':');
    }
}

/// An environment is entered by its own program, with `NIX_DEV` naming it and with a
/// `NIX_PATH` that lists every channel that its packages need, each with its own root,
/// and no other.
pub proof fn law_entered_with_every_channel(site: SiteView)
    ensures
        site.entrance() matches Effect::Enter { program, nix_path, nix_dev } && ({
            &&& lists_channels(nix_path, site.sources, site.storage.packages)
            &&& nix_dev == site.env
            &&& question_laws::ends_with(program, "/bin/fhs-"@ + site.env)
        }),
{
    lemma_nix_path(site.sources, site.storage.packages);
    lemma_binary(site);
    assert(site.binary() =~= site.result() + ("/bin/fhs-"@ + site.env));
}

proof fn lemma_binary(site: SiteView)
    ensures
        site.binary() == site.result() + "/bin/fhs-"@ + site.env,
{
    reveal_strlit("result");
    reveal_strlit("bin");
    reveal_strlit("fhs-");
    reveal_strlit("/bin/fhs-");
    let result = site.result();
    assert("result"@.last() == 't');
    assert(result.last() == 't');
    let bin = paths::joined_path(result, "bin"@);
    assert(bin == result + seq!['/'] + "bin"@);
    assert(bin.last() == 'n');
    assert(("fhs-"@ + site.env).first() == 'f');
    assert(site.binary() =~= result + "/bin/fhs-"@ + site.env);
}

/// What is built is what is entered: nix builds the file that was written, into the
/// link that the program of the entrance lies behind, and with the `NIX_PATH` of the
/// entrance; what the program is called is what the written expression names it.
pub proof fn law_built_is_what_is_entered(site: SiteView, content: Seq<char>)
    ensures
        ({
            let written = BuilderView::Write { content };
            let built = written.after(site, Reply::Stored(None)).wants(site);
            &&& written.wants(site) matches Some(Effect::WriteFile { path, .. })
            &&& built matches Some(Effect::Run { invocation })
            &&& site.entrance() matches Effect::Enter { program, nix_path, .. }
            &&& invocation.program == "nix-build"@
            &&& invocation.args.len() == 3
            &&& invocation.args.contains(path)
            &&& exists|out: Seq<char>| #[trigger]
                question_laws::is_given(invocation.args, "-o"@, out) && program == out
                    + "/bin/fhs-"@ + site.env
            &&& invocation.nix_path == Some(nix_path)
            &&& lists_channels(nix_path, site.sources, site.storage.packages)
            &&& invocation.output == Output::Inherit
        }),
{
    lemma_nix_path(site.sources, site.storage.packages);
    lemma_binary(site);
    let args = rebuild::build_of(site).args;
    assert(args[0] == site.nix_file());
    assert(args[1] == "-o"@ && args[2] == site.result());
    assert(question_laws::is_given(args, "-o"@, site.result()));
}

/// A build that follows the roots of flakes, where a root points to what `points` says.
pub open spec fn followed(
    builder: BuilderView,
    site: SiteView,
    points: spec_fn(Seq<char>) -> Seq<char>,
    n: nat,
) -> BuilderView
    decreases n,
{
    if n == 0 {
        builder
    } else {
        match builder.wants(site) {
            Some(Effect::ReadLink { path }) => followed(
                builder.after(site, Reply::Link(points(path))),
                site,
                points,
                (n - 1) as nat,
            ),
            _ => builder,
        }
    }
}

/// What the roots of the flakes of an environment point to, in the flakes' order.
pub open spec fn ends_of(
    site: SiteView,
    points: spec_fn(Seq<char>) -> Seq<char>,
) -> Seq<Seq<char>> {
    let flakes = storage::flakes_of(site.storage.packages);
    Seq::new(flakes.len(), |i: int| points(site.sources.flake_root(flakes[i])))
}

proof fn lemma_followed(
    site: SiteView,
    points: spec_fn(Seq<char>) -> Seq<char>,
    global: Seq<char>,
    k: nat,
)
    requires
        k <= storage::flakes_of(site.storage.packages).len(),
    ensures
        ({
            let n = storage::flakes_of(site.storage.packages).len();
            followed(
                BuilderView::linked(site, global, ends_of(site, points).take(k as int)),
                site,
                points,
                (n - k) as nat,
            ) == BuilderView::linked(site, global, ends_of(site, points))
        }),
    decreases storage::flakes_of(site.storage.packages).len() - k,
{
    let ends = ends_of(site, points);
    let n = storage::flakes_of(site.storage.packages).len();
    if k == n {
        assert(ends.take(k as int) =~= ends);
    } else {
        lemma_followed(site, points, global, k + 1);
        assert(ends.take(k as int).push(ends[k as int]) =~= ends.take((k + 1) as int));
    }
}

/// However the roots of flakes point: in the expression that is written, the name of
/// each flake that a package needs is bound to what the root of that same flake points
/// to.
pub proof fn law_flakes_are_bound_to_their_roots(
    site: SiteView,
    points: spec_fn(Seq<char>) -> Seq<char>,
    global: Seq<char>,
    flake: Seq<char>,
)
    requires
        source_laws::needs_flake(site.storage.packages, flake),
    ensures
        ({
            let n = storage::flakes_of(site.storage.packages).len();
            let end = followed(
                BuilderView::Follow.after(site, Reply::Canonical(Some(global))),
                site,
                points,
                n,
            );
            let target = points(site.sources.flake_root(flake));
            end.wants(site) matches Some(Effect::WriteFile { content, .. }) && nix::occurs(
                "_flake_"@ + flake + " = (let flake = builtins.getFlake(\""@ + target + "\");"@,
                content,
            )
        }),
{
    let packages = site.storage.packages;
    let flakes = storage::flakes_of(packages);
    let ends = ends_of(site, points);
    source_laws::law_sources_of_packages(packages, flake);
    let i = choose|i: int| 0 <= i < flakes.len() && flakes[i] == flake;
    lemma_followed(site, points, global, 0);
    assert(ends.take(0) =~= seq![]);
    let content = nix::generated(site.env, packages, ends, global);
    nix::law_every_flake_is_bound(site.env, packages, ends, global, i);
    let line = nix::flake_import(flake, ends[i]);
    let target = points(site.sources.flake_root(flake));
    let part = "_flake_"@ + flake + " = (let flake = builtins.getFlake(\""@ + target + "\");"@;
    reveal_strlit("  _flake_");
    reveal_strlit("_flake_");
    reveal_strlit("\");");
    reveal_strlit(
        "\"); in (if flake ? legacyPackages.${builtins.currentSystem} then flake.legacyPackages.${builtins.currentSystem} else flake.packages.${builtins.currentSystem}));",
    );
    let tail =
        "\"); in (if flake ? legacyPackages.${builtins.currentSystem} then flake.legacyPackages.${builtins.currentSystem} else flake.packages.${builtins.currentSystem}));"@;
    assert("  _flake_"@ =~= seq![' ', ' '] + "_flake_"@);
    assert(tail =~= "\");"@ + tail.skip(3));
    assert(line =~= seq![' ', ' '] + part + tail.skip(3));
    nix::lemma_occurs_through(part, line, content);
}

/// While a build follows the roots of flakes, what is asked for once `links` were read
/// is the root of the flake that comes next; and each flake has its own.
pub proof fn law_next_root_is_that_of_the_next_flake(
    site: SiteView,
    global: Seq<char>,
    links: Seq<Seq<char>>,
)
    requires
        links.len() < storage::flakes_of(site.storage.packages).len(),
    ensures
        (BuilderView::Links { global, links }).wants(site) == Some(
            RequestView::ReadLink {
                path: paths::joined_path(
                    site.sources.flakes_path,
                    storage::flakes_of(site.storage.packages)[links.len() as int],
                ),
            },
        ),
{
}

/// The name that a package is listed under is the one that its source is bound to, and
/// channels and flakes are bound to different names.
pub proof fn law_packages_are_listed_under_the_bindings(
    source: Seq<char>,
    attr: Seq<char>,
    link: Seq<char>,
    other: Seq<char>,
)
    ensures
        exists|name: Seq<char>| #[trigger]
            (name + seq!['.'] + attr) == (package::PackageRefView::Channel {
                source,
                attr,
            }).nix_expr() && nix::channel_import(source) == "  "@ + name + " = import <"@ + source
                + "> {};"@,
        exists|name: Seq<char>| #[trigger]
            (name + seq!['.'] + attr) == (package::PackageRefView::Flake {
                source,
                attr,
            }).nix_expr() && nix::occurs(
                "  "@ + name + " = (let flake = builtins.getFlake(\""@ + link + "\");"@,
                nix::flake_import(source, link),
            ),
        forall|p: package::PackageRefView| nix::occurs("("@ + p.nix_expr() + ")"@, #[trigger]
            nix::package_line(p)),
        (package::PackageRefView::Channel { source, attr }).nix_expr() != (
        package::PackageRefView::Flake { source: other, attr }).nix_expr(),
{
    reveal_strlit("  ");
    reveal_strlit("(");
    reveal_strlit("    (");
    assert forall|p: package::PackageRefView| nix::occurs(
        "("@ + p.nix_expr() + ")"@,
        #[trigger] nix::package_line(p),
    ) by {
        assert(nix::package_line(p) =~= seq![' ', ' ', ' ', ' '] + ("("@ + p.nix_expr() + ")"@)
            + Seq::empty());
    }
    reveal_strlit(".");
    reveal_strlit("_channel_");
    reveal_strlit("_flake_");
    reveal_strlit("  _channel_");
    reveal_strlit("  _flake_");
    reveal_strlit("\");");
    reveal_strlit(
        "\"); in (if flake ? legacyPackages.${builtins.currentSystem} then flake.legacyPackages.${builtins.currentSystem} else flake.packages.${builtins.currentSystem}));",
    );
    let c = package::PackageRefView::Channel { source, attr };
    let f = package::PackageRefView::Flake { source, attr };
    let channel = "_channel_"@ + source;
    let flake = "_flake_"@ + source;
    assert("."@ =~= seq!['.']);
    assert("  _channel_"@ =~= "  "@ + "_channel_"@);
    assert("  _flake_"@ =~= "  "@ + "_flake_"@);
    assert(channel + seq!['.'] + attr =~= c.nix_expr());
    assert(nix::channel_import(source) =~= "  "@ + channel + " = import <"@ + source + "> {};"@);
    assert(flake + seq!['.'] + attr =~= f.nix_expr());
    let tail =
        "\"); in (if flake ? legacyPackages.${builtins.currentSystem} then flake.legacyPackages.${builtins.currentSystem} else flake.packages.${builtins.currentSystem}));"@;
    assert(tail =~= "\");"@ + tail.skip(3));
    let part = "  "@ + flake + " = (let flake = builtins.getFlake(\""@ + link + "\");"@;
    assert(nix::flake_import(source, link) =~= Seq::empty() + part + tail.skip(3));
    assert(c.nix_expr()[1] == 'c');
    assert((package::PackageRefView::Flake { source: other, attr }).nix_expr()[1] == 'f');
}

/// The expression of an environment imports the global nixpkgs at hand, and the
/// program that it makes carries the name of the environment, which it tells to those
/// inside.
pub proof fn law_expression_is_that_of_the_environment(
    name: Seq<char>,
    packages: Seq<Seq<char>>,
    links: Seq<Seq<char>>,
    global: Seq<char>,
)
    ensures
        nix::occurs(
            "pkgs = import "@ + global + " {};"@,
            nix::generated(name, packages, links, global),
        ),
        nix::occurs(
            "name = \"fhs-"@ + name + "\";"@,
            nix::generated(name, packages, links, global),
        ),
        nix::occurs(
            "FHS_ENV=\""@ + name + "\""@,
            nix::generated(name, packages, links, global),
        ),
{
    let whole = nix::generated(name, packages, links, global);
    let imports = nix::all_imports(
        nix::channel_imports(packages),
        nix::flake_imports(storage::flakes_of(packages), links),
    );
    let lines = nix::package_lines(packages);
    let a = "let\n  pkgs = import "@;
    let b = " {};\n"@;
    let c = "\nin\n(pkgs.buildFHSEnv {\n  name = \"fhs-"@;
    let d =
        "\";\n  extraOutputsToInstall = [\"include\" \"dev\"];\n\n  targetPkgs = pkgs: with pkgs; [\n"@;
    let e =
        "\n  ];\n\n  multiPkgs = pkgs: with pkgs; [\n  ];\n\n  profile = ''\n    export IS_FHS=1\n    export FHS_ENV=\""@;
    let f = "\"\n  '';\n\n  runScript = ''$SHELL'';\n})"@;
    reveal_strlit("let\n  pkgs = import ");
    reveal_strlit("pkgs = import ");
    reveal_strlit(" {};\n");
    reveal_strlit(" {};");
    reveal_strlit("\nin\n(pkgs.buildFHSEnv {\n  name = \"fhs-");
    reveal_strlit("name = \"fhs-");
    reveal_strlit(
        "\";\n  extraOutputsToInstall = [\"include\" \"dev\"];\n\n  targetPkgs = pkgs: with pkgs; [\n",
    );
    reveal_strlit("\";");
    reveal_strlit(
        "\n  ];\n\n  multiPkgs = pkgs: with pkgs; [\n  ];\n\n  profile = ''\n    export IS_FHS=1\n    export FHS_ENV=\"",
    );
    reveal_strlit("FHS_ENV=\"");
    reveal_strlit("\"\n  '';\n\n  runScript = ''$SHELL'';\n})");
    reveal_strlit("\"");
    assert(a =~= a.take(6) + "pkgs = import "@);
    assert(b =~= " {};"@ + b.skip(4));
    let rest_b = b.skip(4) + imports + c + name + d + lines + e + name + f;
    assert(whole =~= a.take(6) + ("pkgs = import "@ + global + " {};"@) + rest_b);
    let k = c.len() - "name = \"fhs-"@.len();
    assert(c =~= c.take(k) + "name = \"fhs-"@);
    assert(d =~= "\";"@ + d.skip(2));
    assert(whole =~= (a + global + b + imports + c.take(k)) + ("name = \"fhs-"@ + name + "\";"@)
        + (d.skip(2) + lines + e + name + f));
    let m = e.len() - "FHS_ENV=\""@.len();
    assert(e =~= e.take(m) + "FHS_ENV=\""@);
    assert(f =~= "\""@ + f.skip(1));
    assert(whole =~= (a + global + b + imports + c + name + d + lines + e.take(m)) + (
    "FHS_ENV=\""@ + name + "\""@) + f.skip(1));
}

/// The global nixpkgs that is looked for, fetched where it is missing, and followed is
/// one and the same.
pub proof fn law_one_global_nixpkgs(site: SiteView)
    ensures
        ({
            let probe = BuilderView::ProbeGlobal;
            &&& probe.wants(site) matches Some(Effect::Exists { path })
            &&& probe.after(site, Reply::Found(true)) == BuilderView::ProbePath
            &&& probe.after(site, Reply::Found(false)) matches Rebuild::FetchGlobal { update }
            &&& update.root == path
            &&& update.target is Nixpkgs
            &&& BuilderView::ProbePath.wants(site) == Some(RequestView::Exists { path })
            &&& BuilderView::Follow.wants(site) == Some(RequestView::Canonicalize { path })
            &&& site.global.update().root == path
        }),
{
}

} // verus!
