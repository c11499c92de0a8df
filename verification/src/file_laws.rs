//! How the file of an environment is read, and where files lie.

use crate::additions;
use crate::nix;
use crate::notice::Notice;
use crate::package;
use crate::package::PackageRefView;
use crate::paths;
use crate::question_laws;
use crate::removals;
use crate::storage;
use crate::storage::StorageView;
use crate::storage_laws;
use crate::telling_laws;
use crate::text;
use crate::text_laws;
use vstd::prelude::*;

verus! {

/// What a line stands for in the file of an environment: nothing where it is empty, the
/// package itself where it names a source, and else the package of that name in the
/// nixpkgs channel.
pub open spec fn line_stands_for(line: Seq<char>, packages: Seq<Seq<char>>) -> bool {
    if line.len() == 0 {
        packages.len() == 0
    } else if storage_laws::has_source(line) {
        packages == seq![line]
    } else {
        packages == seq!["nixpkgs."@ + line]
    }
}

proof fn lemma_filter_map_first(
    first: Seq<char>,
    rest: Seq<Seq<char>>,
    f: spec_fn(Seq<char>) -> Option<Seq<char>>,
)
    ensures
        (seq![first] + rest).filter_map(f) == seq![first].filter_map(f) + rest.filter_map(f),
    decreases rest.len(),
{
    let all = seq![first] + rest;
    if rest.len() == 0 {
        assert(all =~= seq![first]);
        assert(rest.filter_map(f) =~= Seq::empty());
        assert(all.filter_map(f) =~= seq![first].filter_map(f) + rest.filter_map(f));
    } else {
        lemma_filter_map_first(first, rest.drop_last(), f);
        assert(all.drop_last() =~= seq![first] + rest.drop_last());
        assert(all.filter_map(f) =~= seq![first].filter_map(f) + rest.filter_map(f));
    }
}

/// A file is read line by line: what its first line stands for comes before what the
/// rest lists.
pub proof fn law_files_are_read_by_lines(line: Seq<char>, rest: Seq<char>)
    requires
        !line.contains('\n'),
        line.len() == 0 || line.last() != '\r',
    ensures
        exists|first: Seq<Seq<char>>| #[trigger]
            line_stands_for(line, first) && storage::listed_in(line + seq!['\n'] + rest) == first
                + storage::listed_in(rest),
        line_stands_for(line, storage::listed_in(line)),
{
    let f = |l: Seq<char>| storage::entry_of_line(l);
    let first = seq![line].filter_map(f);
    reveal_with_fuel(Seq::filter_map, 2);
    Seq::<Seq<char>>::lemma_filter_map_singleton(line, f);
    assert(line_stands_for(line, first));
    text_laws::law_lines(line, rest);
    lemma_filter_map_first(line, text::lines_of(rest), f);
    if line.len() == 0 {
        assert(text::lines_of(line) =~= Seq::empty());
        assert(storage::listed_in(line) =~= Seq::empty());
    }
}

/// A package that names no source is one of the nixpkgs channel wherever it is read, and
/// one that names its source is that of this source.
pub proof fn law_entries_name_a_source(entry: Seq<char>)
    ensures
        !entry.contains('.') && !entry.contains('#') ==> package::parsed(
            storage::with_source(entry),
        ) == Some(PackageRefView::Channel { source: "nixpkgs"@, attr: entry }),
        storage_laws::has_source(entry) ==> storage::with_source(entry) == entry,
        storage_laws::has_source(storage::with_source(entry)),
{
    reveal_strlit("nixpkgs");
    reveal_strlit("nixpkgs.");
    if !entry.contains('.') && !entry.contains('#') {
        let p = PackageRefView::Channel { source: "nixpkgs"@, attr: entry };
        assert(!"nixpkgs"@.contains('.') && !"nixpkgs"@.contains('#'));
        package::law_write_then_parse(p);
        assert(p.written() =~= "nixpkgs."@ + entry);
        assert(("nixpkgs."@ + entry)[7] == '.');
    }
}

/// A package to remove is the one of that name where there is one, else that of the
/// nixpkgs channel, else that of the nixpkgs flake; the one that is removed is told.
pub proof fn law_which_package_is_removed(storage: StorageView, pkg: Seq<char>, p: Seq<char>)
    ensures
        ({
            let held = storage.packages;
            let left = removals::removed(storage, pkg).packages;
            let said = removals::removal_notice(held, pkg);
            let entry = if held.contains(pkg) {
                pkg
            } else if held.contains("nixpkgs."@ + pkg) {
                "nixpkgs."@ + pkg
            } else {
                "nixpkgs#"@ + pkg
            };
            &&& left.contains(p) <==> held.contains(p) && p != entry
            &&& held.contains(entry) ==> said == (Notice::Removing { pkg: entry })
            &&& !held.contains(entry) ==> said == (Notice::NotInstalled { pkg })
        }),
{
    removals::law_removal_spares_the_others(storage, pkg, p);
}

/// Each package to remove is told, in its turn and by its name.
pub proof fn law_every_removal_is_told(storage: StorageView, pkgs: Seq<Seq<char>>, i: int)
    requires
        0 <= i < pkgs.len(),
    ensures
        removals::removal_notices(storage, pkgs).len() == pkgs.len(),
        nix::occurs(pkgs[i], removals::removal_notices(storage, pkgs)[i].said()),
    decreases pkgs.len(),
{
    let front = pkgs.drop_last();
    lemma_as_many_removals(storage, front);
    if i < front.len() {
        law_every_removal_is_told(storage, front, i);
    } else {
        let pkg = pkgs.last();
        let held = removals::all_removed(storage, front).packages;
        let n = removals::removal_notice(held, pkg);
        telling_laws::law_notices_tell_their_subject(n);
        if let Some(entry) = removals::entry_for(held, pkg) {
            let none = Seq::<char>::empty();
            assert(pkg =~= none + pkg + none);
            assert("nixpkgs."@ + pkg =~= "nixpkgs."@ + pkg + none);
            assert("nixpkgs#"@ + pkg =~= "nixpkgs#"@ + pkg + none);
            assert(nix::occurs(pkg, entry));
            nix::lemma_occurs_through(pkg, entry, n.said());
        }
    }
}

proof fn lemma_as_many_removals(storage: StorageView, pkgs: Seq<Seq<char>>)
    ensures
        removals::removal_notices(storage, pkgs).len() == pkgs.len(),
    decreases pkgs.len(),
{
    if pkgs.len() > 0 {
        lemma_as_many_removals(storage, pkgs.drop_last());
    }
}

/// A package that came in from the flake without naming its source is removed under the
/// same name: the packages of before come back, put in order.
pub proof fn law_bare_name_removes_what_came_from_the_flake(storage: StorageView, pkg: Seq<char>)
    requires
        !storage.packages.contains(pkg),
        !storage.packages.contains("nixpkgs."@ + pkg),
        !storage.packages.contains("nixpkgs#"@ + pkg),
    ensures
        removals::removed(
            storage.with(additions::in_flake(pkg).written()),
            pkg,
        ).packages == text::sorted_texts(storage.packages),
{
    let entry = "nixpkgs#"@ + pkg;
    reveal_strlit("nixpkgs#");
    reveal_strlit("nixpkgs.");
    reveal_strlit("nixpkgs");
    assert(additions::in_flake(pkg).written() =~= entry);
    storage_laws::law_add_adds(storage, entry);
    assert(pkg != entry) by {
        assert(entry.len() == pkg.len() + 8);
    }
    assert("nixpkgs."@ + pkg != entry) by {
        assert(("nixpkgs."@ + pkg)[7] == '.');
        assert(entry[7] == '#');
    }
    storage_laws::law_add_then_remove(storage, entry);
}

/// A name behind a path: an absolute one stands for itself; any other ends the path, whose
/// beginning is the path that it was put behind, with a slash between them.
pub proof fn law_names_behind_paths(base: Seq<char>, name: Seq<char>)
    ensures
        ({
            let path = paths::joined_path(base, name);
            let relative = name.len() == 0 || name.first() != '/';
            &&& !relative ==> path == name
            &&& relative ==> {
                &&& base.is_prefix_of(path)
                &&& question_laws::ends_with(path, name)
                &&& path.len() <= base.len() + 1 + name.len()
                &&& base.len() > 0 ==> path[path.len() - name.len() - 1] == '/'
                &&& base.len() == 0 ==> path == name
                &&& base.len() > 0 && base.last() == '/' ==> path == base + name
            }
        }),
{
    let path = paths::joined_path(base, name);
    if name.len() == 0 || name.first() != '/' {
        assert(path.take(base.len() as int) =~= base);
        if base.len() == 0 {
            assert(path =~= name);
            assert(path =~= Seq::<char>::empty() + name);
        } else if base.last() == '/' {
            assert(path =~= base + name);
        } else {
            assert(path =~= (base + seq!['/']) + name);
        }
    }
}

/// The directory of the tool is the one that was chosen, whatever else is known; else it
/// lies in that of the user, under the name of the tool.
pub proof fn law_directory_of_the_tool(
    chosen: Option<Seq<char>>,
    user: Option<Seq<char>>,
)
    ensures
        chosen is Some ==> paths::tool_dir(chosen, user) == chosen,
        chosen is None && user is None ==> paths::tool_dir(chosen, user) is None,
        chosen is None ==> (user matches Some(dir) ==> paths::tool_dir(chosen, user) == Some(
            paths::joined_path(dir, "fhs"@),
        )),
{
}

} // verus!
