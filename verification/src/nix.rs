//! The nix expression that an environment is built from.

use crate::package;
use crate::storage;
use crate::storage::Storage;
use crate::storage_laws;
use crate::text;
use vstd::prelude::*;
use vstd::string::*;

verus! {

/// The line that binds a channel.
pub open spec fn channel_import(channel: Seq<char>) -> Seq<char> {
    "  _channel_"@ + channel + " = import <"@ + channel + "> {};"@
}

/// The line that binds a flake, which its root's link points to.
pub open spec fn flake_import(flake: Seq<char>, link: Seq<char>) -> Seq<char> {
    "  _flake_"@ + flake + " = (let flake = builtins.getFlake(\""@ + link
        + "\"); in (if flake ? legacyPackages.${builtins.currentSystem} then flake.legacyPackages.${builtins.currentSystem} else flake.packages.${builtins.currentSystem}));"@
}

/// The line that lists a package.
pub open spec fn package_line(p: package::PackageRefView) -> Seq<char> {
    "    ("@ + p.nix_expr() + ")"@
}

/// The lines that bind the channels of a list of packages.
pub open spec fn channel_imports(packages: Seq<Seq<char>>) -> Seq<char> {
    text::joined(
        storage::channels_of(packages).map_values(|c: Seq<char>| channel_import(c)),
        "\n"@,
    )
}

/// The lines that bind flakes.
pub open spec fn flake_imports(flakes: Seq<Seq<char>>, links: Seq<Seq<char>>) -> Seq<char> {
    text::joined(
        Seq::new(flakes.len(), |i: int| flake_import(flakes[i], links[i])),
        "\n"@,
    )
}

/// The lines that list packages.
pub open spec fn package_lines(packages: Seq<Seq<char>>) -> Seq<char> {
    text::joined(
        storage::refs_of(packages).map_values(|p: package::PackageRefView| package_line(p)),
        "\n"@,
    )
}

/// The lines that bind channels and those that bind flakes, with a line break
/// between them where there are both.
pub open spec fn all_imports(channels: Seq<char>, flakes: Seq<char>) -> Seq<char> {
    if flakes.len() == 0 {
        channels
    } else if channels.len() == 0 {
        flakes
    } else {
        channels + "\n"@ + flakes
    }
}

/// The nix expression of an environment.
pub open spec fn expression(
    name: Seq<char>,
    imports: Seq<char>,
    lines: Seq<char>,
    global: Seq<char>,
) -> Seq<char> {
    "let\n  pkgs = import "@ + global + " {};\n"@ + imports
        + "\nin\n(pkgs.buildFHSEnv {\n  name = \"fhs-"@ + name
        + "\";\n  extraOutputsToInstall = [\"include\" \"dev\"];\n\n  targetPkgs = pkgs: with pkgs; [\n"@
        + lines
        + "\n  ];\n\n  multiPkgs = pkgs: with pkgs; [\n  ];\n\n  profile = ''\n    export IS_FHS=1\n    export FHS_ENV=\""@
        + name + "\"\n  '';\n\n  runScript = ''$SHELL'';\n})"@
}

/// The nix expression of environment `name` with a list of packages. `links` are
/// what the roots of its flakes point to, `global` is the nixpkgs to build with.
pub open spec fn generated(
    name: Seq<char>,
    packages: Seq<Seq<char>>,
    links: Seq<Seq<char>>,
    global: Seq<char>,
) -> Seq<char> {
    expression(
        name,
        all_imports(
            channel_imports(packages),
            flake_imports(storage::flakes_of(packages), links),
        ),
        package_lines(packages),
        global,
    )
}

fn import_channels(storage: &Storage) -> (r: String)
    ensures
        r@ == channel_imports(storage@.packages),
{
    let channels = storage.list_channels();
    let mut out: Vec<String> = Vec::new();
    let mut i: usize = 0;
    let ghost all = text::texts(channels@);
    while i < channels.len()
        invariant
            i <= channels@.len(),
            out@.len() == i,
            all == text::texts(channels@),
            forall|j: int| 0 <= j < i ==> #[trigger] out@[j]@ == channel_import(all[j]),
        decreases channels@.len() - i,
    {
        let channel = channels[i].as_str();
        out.push(
            "  _channel_".to_owned().concat(channel).concat(" = import <").concat(channel).concat(
                "> {};",
            ),
        );
        i = i + 1;
    }
    assert(text::texts(out@) =~= all.map_values(|c: Seq<char>| channel_import(c)));
    text::join(&out, "\n")
}

fn import_flakes(flakes: &Vec<String>, links: &Vec<String>) -> (r: String)
    requires
        flakes@.len() == links@.len(),
    ensures
        r@ == flake_imports(text::texts(flakes@), text::texts(links@)),
{
    let mut out: Vec<String> = Vec::new();
    let mut i: usize = 0;
    let ghost all = text::texts(flakes@);
    let ghost ends = text::texts(links@);
    while i < flakes.len()
        invariant
            i <= flakes@.len(),
            flakes@.len() == links@.len(),
            out@.len() == i,
            all == text::texts(flakes@),
            ends == text::texts(links@),
            forall|j: int| 0 <= j < i ==> #[trigger] out@[j]@ == flake_import(all[j], ends[j]),
        decreases flakes@.len() - i,
    {
        let line = "  _flake_".to_owned().concat(flakes[i].as_str()).concat(
            " = (let flake = builtins.getFlake(\"",
        ).concat(links[i].as_str()).concat(
            "\"); in (if flake ? legacyPackages.${builtins.currentSystem} then flake.legacyPackages.${builtins.currentSystem} else flake.packages.${builtins.currentSystem}));",
        );
        out.push(line);
        i = i + 1;
    }
    assert(text::texts(out@) =~= Seq::new(all.len(), |i: int| flake_import(all[i], ends[i])));
    text::join(&out, "\n")
}

fn list_packages(storage: &Storage) -> (r: String)
    ensures
        r@ == package_lines(storage@.packages),
{
    let refs = storage.get_refs();
    let mut out: Vec<String> = Vec::new();
    let mut i: usize = 0;
    let ghost all = storage::refs_view(refs@);
    while i < refs.len()
        invariant
            i <= refs@.len(),
            out@.len() == i,
            all == storage::refs_view(refs@),
            forall|j: int| 0 <= j < i ==> #[trigger] out@[j]@ == package_line(all[j]),
        decreases refs@.len() - i,
    {
        let expr = refs[i].to_nix_expr();
        out.push("    (".to_owned().concat(expr.as_str()).concat(")"));
        i = i + 1;
    }
    assert(text::texts(out@) =~= all.map_values(|p: package::PackageRefView| package_line(p)));
    text::join(&out, "\n")
}

/// Generates the nix expression of environment `name`. `links` are what the roots
/// of the storage's flakes point to, in their order.
pub fn generate_nix(
    name: &str,
    storage: &Storage,
    links: &Vec<String>,
    global_nixpkgs: &str,
) -> (r: String)
    requires
        links@.len() == storage::flakes_of(storage@.packages).len(),
    ensures
        r@ == generated(name@, storage@.packages, text::texts(links@), global_nixpkgs@),
{
    let flakes = storage.list_flakes();
    assert(text::texts(flakes@).len() == flakes@.len());
    let channel_part = import_channels(storage);
    let flake_part = import_flakes(&flakes, links);
    let lines = list_packages(storage);
    let imports = if flake_part.as_str().unicode_len() == 0 {
        channel_part
    } else if channel_part.as_str().unicode_len() == 0 {
        flake_part
    } else {
        channel_part.concat("\n").concat(flake_part.as_str())
    };
    "let\n  pkgs = import ".to_owned().concat(global_nixpkgs).concat(" {};\n").concat(
        imports.as_str(),
    ).concat("\nin\n(pkgs.buildFHSEnv {\n  name = \"fhs-").concat(name).concat(
        "\";\n  extraOutputsToInstall = [\"include\" \"dev\"];\n\n  targetPkgs = pkgs: with pkgs; [\n",
    ).concat(lines.as_str()).concat(
        "\n  ];\n\n  multiPkgs = pkgs: with pkgs; [\n  ];\n\n  profile = ''\n    export IS_FHS=1\n    export FHS_ENV=\"",
    ).concat(name).concat("\"\n  '';\n\n  runScript = ''$SHELL'';\n})")
}

/// Whatever package the generated expression lists, it binds the source that the
/// package is taken from.
pub proof fn law_every_listed_package_is_bound(packages: Seq<Seq<char>>, i: int)
    requires
        0 <= i < storage::refs_of(packages).len(),
    ensures
        match storage::refs_of(packages)[i] {
            package::PackageRefView::Channel { source, .. } => storage::channels_of(
                packages,
            ).contains(source),
            package::PackageRefView::Flake { source, .. } => storage::flakes_of(packages).contains(
                source,
            ),
        },
{
    let f = |p: Seq<char>| package::parsed(p);
    let r = storage::refs_of(packages)[i];
    assert(packages.filter_map(f).contains(r));
    packages.lemma_filter_map_contains(f, r);
    let p = choose|p: Seq<char>| #[trigger] packages.contains(p) && f(p) == Some(r);
    let k = choose|k: int| 0 <= k < packages.len() && packages[k] == p;
    match r {
        package::PackageRefView::Channel { source, .. } => {
            assert(storage::channel_of(packages[k]) == Some(source));
            storage_laws::law_channels_are_those_needed(packages, source);
        },
        package::PackageRefView::Flake { source, .. } => {
            assert(storage::flake_of(packages[k]) == Some(source));
            storage_laws::law_flakes_are_those_needed(packages, source);
        },
    }
}

/// A text occurs in another.
pub open spec fn occurs(part: Seq<char>, whole: Seq<char>) -> bool {
    exists|before: Seq<char>, after: Seq<char>| whole == #[trigger] (before + part + after)
}

/// What occurs in a text occurs in any text that holds that.
proof fn lemma_occurs_within(
    part: Seq<char>,
    before: Seq<char>,
    text: Seq<char>,
    after: Seq<char>,
)
    requires
        occurs(part, text),
    ensures
        occurs(part, before + text + after),
{
    let (a, b) = choose|a: Seq<char>, b: Seq<char>| text == #[trigger] (a + part + b);
    assert(before + text + after =~= (before + a) + part + (b + after));
}

/// Each text of a list occurs in the joined list.
proof fn lemma_occurs_in_joined(list: Seq<Seq<char>>, sep: Seq<char>, i: int)
    requires
        0 <= i < list.len(),
    ensures
        occurs(list[i], text::joined(list, sep)),
    decreases list.len(),
{
    let none = Seq::<char>::empty();
    if list.len() == 1 {
        assert(list[0] =~= none + list[0] + none);
    } else if i == list.len() - 1 {
        let front = text::joined(list.drop_last(), sep) + sep;
        assert(text::joined(list, sep) =~= front + list[i] + none);
    } else {
        let front = list.drop_last();
        lemma_occurs_in_joined(front, sep, i);
        let tail = sep + list.last();
        lemma_occurs_within(list[i], none, text::joined(front, sep), tail);
        assert(text::joined(list, sep) =~= none + text::joined(front, sep) + tail);
    }
}

/// The imports and the package lines occur in the expression that they are a part
/// of.
proof fn lemma_occurs_in_expression(
    name: Seq<char>,
    imports: Seq<char>,
    lines: Seq<char>,
    global: Seq<char>,
)
    ensures
        occurs(imports, expression(name, imports, lines, global)),
        occurs(lines, expression(name, imports, lines, global)),
{
    let head = "let\n  pkgs = import "@ + global + " {};\n"@;
    let middle = "\nin\n(pkgs.buildFHSEnv {\n  name = \"fhs-"@ + name
        + "\";\n  extraOutputsToInstall = [\"include\" \"dev\"];\n\n  targetPkgs = pkgs: with pkgs; [\n"@;
    let tail =
        "\n  ];\n\n  multiPkgs = pkgs: with pkgs; [\n  ];\n\n  profile = ''\n    export IS_FHS=1\n    export FHS_ENV=\""@
        + name + "\"\n  '';\n\n  runScript = ''$SHELL'';\n})"@;
    let whole = expression(name, imports, lines, global);
    assert(whole =~= head + imports + (middle + lines + tail));
    assert(whole =~= (head + imports + middle) + lines + tail);
}

/// What occurs in a part of an expression occurs in the expression.
pub proof fn lemma_occurs_through(part: Seq<char>, text: Seq<char>, whole: Seq<char>)
    requires
        occurs(part, text),
        occurs(text, whole),
    ensures
        occurs(part, whole),
{
    let (a, b) = choose|a: Seq<char>, b: Seq<char>| whole == #[trigger] (a + text + b);
    lemma_occurs_within(part, a, text, b);
}

/// The generated expression lists every package that names its source.
pub proof fn law_every_package_is_listed(
    name: Seq<char>,
    packages: Seq<Seq<char>>,
    links: Seq<Seq<char>>,
    global: Seq<char>,
    i: int,
)
    requires
        0 <= i < storage::refs_of(packages).len(),
    ensures
        occurs(
            package_line(storage::refs_of(packages)[i]),
            generated(name, packages, links, global),
        ),
{
    let lines = storage::refs_of(packages).map_values(
        |p: package::PackageRefView| package_line(p),
    );
    lemma_occurs_in_joined(lines, "\n"@, i);
    let imports = all_imports(
        channel_imports(packages),
        flake_imports(storage::flakes_of(packages), links),
    );
    lemma_occurs_in_expression(name, imports, package_lines(packages), global);
    lemma_occurs_through(
        lines[i],
        package_lines(packages),
        generated(name, packages, links, global),
    );
}

/// The lines of channels and of flakes all occur among the imports.
proof fn lemma_occurs_in_imports(channels: Seq<char>, flakes: Seq<char>)
    ensures
        occurs(channels, all_imports(channels, flakes)),
        occurs(flakes, all_imports(channels, flakes)),
{
    let none = Seq::<char>::empty();
    let all = all_imports(channels, flakes);
    if flakes.len() == 0 {
        assert(all =~= none + channels + none);
        assert(all =~= none + flakes + channels);
    } else if channels.len() == 0 {
        assert(all =~= none + flakes + none);
        assert(all =~= none + channels + flakes);
    } else {
        assert(all =~= none + channels + ("\n"@ + flakes));
        assert(all =~= (channels + "\n"@) + flakes + none);
    }
}

/// The generated expression binds every channel that a package needs.
pub proof fn law_every_channel_is_bound(
    name: Seq<char>,
    packages: Seq<Seq<char>>,
    links: Seq<Seq<char>>,
    global: Seq<char>,
    i: int,
)
    requires
        0 <= i < storage::channels_of(packages).len(),
    ensures
        occurs(
            channel_import(storage::channels_of(packages)[i]),
            generated(name, packages, links, global),
        ),
{
    let lines = storage::channels_of(packages).map_values(|c: Seq<char>| channel_import(c));
    let flakes = flake_imports(storage::flakes_of(packages), links);
    let whole = generated(name, packages, links, global);
    lemma_occurs_in_joined(lines, "\n"@, i);
    lemma_occurs_in_imports(channel_imports(packages), flakes);
    lemma_occurs_in_expression(
        name,
        all_imports(channel_imports(packages), flakes),
        package_lines(packages),
        global,
    );
    lemma_occurs_through(
        channel_imports(packages),
        all_imports(channel_imports(packages), flakes),
        whole,
    );
    lemma_occurs_through(lines[i], channel_imports(packages), whole);
}

/// The generated expression binds every flake that a package needs to what its
/// root points to.
pub proof fn law_every_flake_is_bound(
    name: Seq<char>,
    packages: Seq<Seq<char>>,
    links: Seq<Seq<char>>,
    global: Seq<char>,
    i: int,
)
    requires
        0 <= i < storage::flakes_of(packages).len(),
    ensures
        occurs(
            flake_import(storage::flakes_of(packages)[i], links[i]),
            generated(name, packages, links, global),
        ),
{
    let flakes = storage::flakes_of(packages);
    let lines = Seq::new(flakes.len(), |i: int| flake_import(flakes[i], links[i]));
    let bound = flake_imports(flakes, links);
    let whole = generated(name, packages, links, global);
    lemma_occurs_in_joined(lines, "\n"@, i);
    lemma_occurs_in_imports(channel_imports(packages), bound);
    lemma_occurs_in_expression(
        name,
        all_imports(channel_imports(packages), bound),
        package_lines(packages),
        global,
    );
    lemma_occurs_through(bound, all_imports(channel_imports(packages), bound), whole);
    lemma_occurs_through(lines[i], bound, whole);
}

} // verus!
