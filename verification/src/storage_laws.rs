//! What holds of an environment's packages whatever is done with them.

use crate::package;
use crate::storage;
use crate::storage::StorageView;
use crate::text;
use vstd::prelude::*;
use vstd::seq_lib::*;

verus! {

/// A package names its source.
pub open spec fn has_source(entry: Seq<char>) -> bool {
    entry.contains('.') || entry.contains('#')
}

/// A package that a line of a file can hold.
pub open spec fn fits_line(entry: Seq<char>) -> bool {
    &&& entry.len() > 0
    &&& !entry.contains('\n')
    &&& has_source(entry)
}

/// A list of packages that a file can hold. A carriage return at the end of a
/// package that another one follows would be taken for a part of the line break.
pub open spec fn fits_file(packages: Seq<Seq<char>>) -> bool {
    &&& forall|i: int| 0 <= i < packages.len() ==> fits_line(#[trigger] packages[i])
    &&& forall|i: int|
        0 <= i < packages.len() - 1 ==> (#[trigger] packages[i]).last() != '\r'
}

/// A joined list, taken apart at its first text.
proof fn lemma_joined_first(list: Seq<Seq<char>>, sep: Seq<char>)
    requires
        list.len() >= 2,
    ensures
        text::joined(list, sep) == list.first() + sep + text::joined(list.drop_first(), sep),
    decreases list.len(),
{
    let rest = list.drop_first();
    reveal_with_fuel(text::joined, 3);
    if list.len() == 2 {
        assert(list.drop_last() =~= seq![list[0]]);
        assert(rest =~= seq![list[1]]);
    } else {
        lemma_joined_first(list.drop_last(), sep);
        assert(list.drop_last().drop_first() =~= rest.drop_last());
        assert(text::joined(list, sep) =~= list.first() + sep + text::joined(rest, sep));
    }
}

/// The lines of a file that was written are the packages that were written.
proof fn lemma_lines_of_written(packages: Seq<Seq<char>>)
    requires
        fits_file(packages),
    ensures
        text::lines_of(text::joined(packages, "\n"@)) == packages,
    decreases packages.len(),
{
    reveal_strlit("\n");
    let s = text::joined(packages, "\n"@);
    if packages.len() == 0 {
        assert(text::lines_of(s) =~= packages);
    } else if packages.len() == 1 {
        text::lemma_cut_at_none(s, '\n');
        assert(fits_line(packages[0]));
        assert(text::lines_of(s) =~= packages);
    } else {
        let first = packages.first();
        let rest = packages.drop_first();
        lemma_joined_first(packages, "\n"@);
        assert(fits_line(packages[0]));
        assert("\n"@ =~= seq!['\n']);
        text::lemma_cut_at_glued(first, '\n', text::joined(rest, "\n"@));
        assert forall|i: int| 0 <= i < rest.len() implies fits_line(#[trigger] rest[i]) by {
            assert(fits_line(packages[i + 1]));
        }
        assert forall|i: int| 0 <= i < rest.len() - 1 implies (#[trigger] rest[i]).last()
            != '\r' by {
            assert(packages[i + 1].last() != '\r');
        }
        lemma_lines_of_written(rest);
        assert(packages[0].last() != '\r');
        assert(text::lines_of(s) =~= packages);
    }
}

/// Filtering and mapping changes nothing where each item is mapped to itself.
proof fn lemma_filter_map_same(list: Seq<Seq<char>>, f: spec_fn(Seq<char>) -> Option<Seq<char>>)
    requires
        forall|i: int| 0 <= i < list.len() ==> f(#[trigger] list[i]) == Some(list[i]),
    ensures
        list.filter_map(f) == list,
    decreases list.len(),
{
    if list.len() > 0 {
        lemma_filter_map_same(list.drop_last(), f);
        assert(f(list[list.len() - 1]) == Some(list.last()));
        assert(list =~= list.drop_last() + seq![list.last()]);
    } else {
        assert(list.filter_map(f) =~= list);
    }
}

/// What is written to an environment's file is read back from it: the same
/// packages in the same order.
pub proof fn law_write_then_read(storage: StorageView)
    requires
        fits_file(storage.packages),
    ensures
        storage::listed_in(storage.written()) == storage.packages,
{
    let packages = storage.packages;
    lemma_lines_of_written(packages);
    assert forall|i: int| 0 <= i < packages.len() implies storage::entry_of_line(
        #[trigger] packages[i],
    ) == Some(packages[i]) by {
        assert(fits_line(packages[i]));
    }
    lemma_filter_map_same(packages, |line: Seq<char>| storage::entry_of_line(line));
}

/// No line of a text holds a line feed.
proof fn lemma_lines_hold_no_break(s: Seq<char>)
    ensures
        forall|i: int|
            0 <= i < text::lines_of(s).len() ==> !(#[trigger] text::lines_of(s)[i]).contains('\n'),
    decreases s.len(),
{
    if s.len() > 0 {
        text::lemma_cut_at_none(s, '\n');
        match text::cut_at(s, '\n') {
            Some(parts) => {
                text::lemma_cut_at_parts(s, '\n');
                lemma_lines_hold_no_break(parts.1);
                let first = text::without_return(parts.0);
                if first.contains('\n') {
                    let i = choose|i: int| 0 <= i < first.len() && first[i] == '\n';
                    assert(parts.0[i] == '\n');
                }
                let lines = text::lines_of(s);
                assert forall|i: int| 0 <= i < lines.len() implies !(
                #[trigger] lines[i]).contains('\n') by {
                    if i > 0 {
                        assert(lines[i] == text::lines_of(parts.1)[i - 1]);
                    }
                }
            },
            None => {},
        }
    }
}

/// Every package that is read from a file names its source, and fits a line of a
/// file again.
pub proof fn law_read_packages_fit_lines(file: Seq<char>)
    ensures
        forall|i: int|
            0 <= i < storage::listed_in(file).len() ==> fits_line(
                #[trigger] storage::listed_in(file)[i],
            ),
{
    let f = |line: Seq<char>| storage::entry_of_line(line);
    let lines = text::lines_of(file);
    let packages = storage::listed_in(file);
    lemma_lines_hold_no_break(file);
    assert forall|i: int| 0 <= i < packages.len() implies fits_line(#[trigger] packages[i]) by {
        assert(packages.contains(packages[i]));
        lines.lemma_filter_map_contains(f, packages[i]);
        let line = choose|line: Seq<char>| #[trigger]
            lines.contains(line) && f(line) == Some(packages[i]);
        let k = choose|k: int| 0 <= k < lines.len() && lines[k] == line;
        assert(!lines[k].contains('\n'));
        reveal_strlit("nixpkgs.");
        if !has_source(line) {
            let entry = "nixpkgs."@ + line;
            assert(entry[7] == '.');
            if entry.contains('\n') {
                let j = choose|j: int| 0 <= j < entry.len() && entry[j] == '\n';
                assert(j >= 8);
                assert(line[j - 8] == '\n');
            }
        }
    }
}

/// A file that was read and written again is read as before, where no package but
/// the last ends in a carriage return.
pub proof fn law_read_write_read(storage: StorageView, file: Seq<char>)
    requires
        storage.packages == storage::listed_in(file),
        forall|i: int|
            0 <= i < storage.packages.len() - 1 ==> (#[trigger] storage.packages[i]).last()
                != '\r',
    ensures
        storage::listed_in(storage.written()) == storage::listed_in(file),
{
    law_read_packages_fit_lines(file);
    law_write_then_read(storage);
}

/// After a package was added it is there, the others are still there, and nothing
/// else has come in.
pub proof fn law_add_adds(storage: StorageView, pkg: Seq<char>)
    ensures
        forall|p: Seq<char>|
            storage.with(pkg).packages.contains(p) <==> storage.packages.contains(p) || p == pkg,
{
    text::lemma_sorted_texts(storage.packages.push(pkg));
    assert forall|p: Seq<char>|
        storage.with(pkg).packages.contains(p) <==> storage.packages.contains(p) || p == pkg by {
        lemma_seq_contains_after_push(storage.packages, pkg, p);
    }
}

/// Adding a package a second time changes nothing.
pub proof fn law_add_twice(storage: StorageView, pkg: Seq<char>)
    ensures
        storage.with(pkg).with(pkg) == storage.with(pkg),
{
    law_add_adds(storage, pkg);
}

/// Where a package comes in, all the packages are in order behind it.
pub proof fn law_add_orders(storage: StorageView, pkg: Seq<char>)
    requires
        !storage.packages.contains(pkg),
    ensures
        text::in_order(storage.with(pkg).packages),
        storage.with(pkg).packages.len() == storage.packages.len() + 1,
{
    text::lemma_sorted_texts(storage.packages.push(pkg));
}

/// Packages in order stay in order when one is added.
pub proof fn law_add_keeps_order(storage: StorageView, pkg: Seq<char>)
    requires
        text::in_order(storage.packages),
    ensures
        text::in_order(storage.with(pkg).packages),
{
    if !storage.packages.contains(pkg) {
        law_add_orders(storage, pkg);
    }
}

/// Adding a package makes no duplicates.
pub proof fn law_add_makes_no_duplicates(storage: StorageView, pkg: Seq<char>)
    requires
        storage.packages.no_duplicates(),
    ensures
        storage.with(pkg).packages.no_duplicates(),
{
    if !storage.packages.contains(pkg) {
        let more = storage.packages.push(pkg);
        text::lemma_sorted_texts(more);
        assert(more.no_duplicates());
        more.lemma_multiset_has_no_duplicates();
        text::sorted_texts(more).lemma_multiset_has_no_duplicates_conv();
    }
}

/// After a package was removed it is gone, and all the others are still there.
pub proof fn law_remove_removes(storage: StorageView, pkg: Seq<char>)
    ensures
        forall|p: Seq<char>|
            storage.without(pkg).packages.contains(p) <==> storage.packages.contains(p) && p
                != pkg,
{
    let f = storage::other_than(pkg);
    let all = storage.packages;
    broadcast use group_filter_ensures;

    let kept = all.filter(f);
    assert forall|p: Seq<char>| kept.contains(p) <==> all.contains(p) && p != pkg by {
        if kept.contains(p) {
            all.lemma_filter_contains_rev(f, p);
            let i = choose|i: int| 0 <= i < kept.len() && kept[i] == p;
            assert(f(kept[i]));
        }
        if all.contains(p) && p != pkg {
            let i = choose|i: int| 0 <= i < all.len() && all[i] == p;
            assert(f(all[i]));
            assert(kept.contains(all[i]));
        }
    }
}

/// Removing a package that is not there changes nothing.
pub proof fn law_remove_absent(storage: StorageView, pkg: Seq<char>)
    requires
        !storage.packages.contains(pkg),
    ensures
        storage.without(pkg) == storage,
{
    lemma_filter_all(storage.packages, storage::other_than(pkg));
}

proof fn lemma_filter_all(list: Seq<Seq<char>>, f: spec_fn(Seq<char>) -> bool)
    requires
        forall|i: int| 0 <= i < list.len() ==> f(#[trigger] list[i]),
    ensures
        list.filter(f) == list,
    decreases list.len(),
{
    reveal(Seq::filter);
    if list.len() > 0 {
        lemma_filter_all(list.drop_last(), f);
        assert(f(list[list.len() - 1]));
        assert(list =~= list.drop_last().push(list.last()));
    }
}

/// Removing a package that was just added gives the packages of before back, put
/// in order.
pub proof fn law_add_then_remove(storage: StorageView, pkg: Seq<char>)
    requires
        !storage.packages.contains(pkg),
    ensures
        storage.with(pkg).without(pkg).packages == text::sorted_texts(storage.packages),
{
    broadcast use group_to_multiset_ensures;

    let all = storage.packages.push(pkg);
    let sorted = text::sorted_texts(all);
    let f = storage::other_than(pkg);
    let kept = sorted.filter(f);
    text::lemma_sorted_texts(all);
    lemma_filter_in_order(sorted, f);
    to_multiset_build(storage.packages, pkg);
    assert(storage.packages.to_multiset().count(pkg) == 0);
    assert forall|p: Seq<char>| #[trigger]
        kept.to_multiset().count(p) == storage.packages.to_multiset().count(p) by {
        lemma_filter_count(sorted, pkg, p);
    }
    assert(kept.to_multiset() =~= storage.packages.to_multiset());
    text::lemma_sorted_texts_unique(storage.packages, kept);
}

/// A list in order stays in order when some of its texts are left out.
proof fn lemma_filter_in_order(list: Seq<Seq<char>>, f: spec_fn(Seq<char>) -> bool)
    requires
        text::in_order(list),
    ensures
        text::in_order(list.filter(f)),
    decreases list.len(),
{
    reveal(Seq::filter);
    let r = text::text_order();
    if list.len() > 0 {
        let front = list.drop_last();
        assert forall|i: int, j: int| 0 <= i < j < front.len() implies #[trigger] r(
            front[i],
            front[j],
        ) by {
            assert(r(list[i], list[j]));
        }
        lemma_filter_in_order(front, f);
        let kept = front.filter(f);
        if f(list.last()) {
            let more = kept.push(list.last());
            assert forall|i: int, j: int| 0 <= i < j < more.len() implies #[trigger] r(
                more[i],
                more[j],
            ) by {
                if j < kept.len() {
                    assert(r(kept[i], kept[j]));
                } else {
                    assert(kept.contains(kept[i]));
                    front.lemma_filter_contains_rev(f, kept[i]);
                    let k = choose|k: int| 0 <= k < front.len() && front[k] == kept[i];
                    assert(r(list[k], list[list.len() - 1]));
                }
            }
        }
    }
}

/// Leaving out all of one text leaves the others, each as often.
proof fn lemma_filter_count(list: Seq<Seq<char>>, pkg: Seq<char>, p: Seq<char>)
    ensures
        list.filter(storage::other_than(pkg)).to_multiset().count(p) == if p == pkg {
            0
        } else {
            list.to_multiset().count(p)
        },
    decreases list.len(),
{
    broadcast use group_to_multiset_ensures;

    reveal(Seq::filter);
    let f = storage::other_than(pkg);
    if list.len() > 0 {
        let front = list.drop_last();
        lemma_filter_count(front, pkg, p);
        assert(list =~= front.push(list.last()));
        to_multiset_build(front, list.last());
        to_multiset_build(front.filter(f), list.last());
    } else {
        assert(list.filter(f) =~= list);
        assert(!list.contains(p));
    }
}

/// The packages that name their source.
pub open spec fn with_sources() -> spec_fn(Seq<char>) -> bool {
    |entry: Seq<char>| has_source(entry)
}

/// The references of a list are those of the packages that name their source: none
/// of these is lost, no other comes in, and each is written as its package.
pub proof fn law_refs_are_the_packages(packages: Seq<Seq<char>>)
    ensures
        storage::refs_of(packages).len() == packages.filter(with_sources()).len(),
        forall|i: int|
            0 <= i < storage::refs_of(packages).len() ==> (#[trigger] storage::refs_of(
                packages,
            )[i]).written() == packages.filter(with_sources())[i],
    decreases packages.len(),
{
    reveal(Seq::filter);
    let f = |p: Seq<char>| package::parsed(p);
    let refs = storage::refs_of(packages);
    let named = packages.filter(with_sources());
    if packages.len() > 0 {
        let front = packages.drop_last();
        let last = packages.last();
        law_refs_are_the_packages(front);
        text::lemma_cut_at_none(last, '#');
        text::lemma_cut_at_none(last, '.');
        package::law_parse_then_write(last);
        let before = storage::refs_of(front);
        if has_source(last) {
            assert(refs == before + seq![f(last).unwrap()]);
            assert(named == front.filter(with_sources()).push(last));
        } else {
            assert(refs == before);
            assert(named == front.filter(with_sources()));
        }
        assert forall|i: int| 0 <= i < refs.len() implies (#[trigger] refs[i]).written()
            == named[i] by {
            if i < before.len() {
                assert(refs[i] == before[i]);
            }
        }
    }
}

/// An item of a list is mapped into the filtered and mapped list.
pub proof fn lemma_filter_map_takes<B>(
    list: Seq<Seq<char>>,
    f: spec_fn(Seq<char>) -> Option<B>,
    i: int,
)
    requires
        0 <= i < list.len(),
        f(list[i]) is Some,
    ensures
        list.filter_map(f).contains(f(list[i]).unwrap()),
    decreases list.len(),
{
    let front = list.drop_last();
    let b = f(list[i]).unwrap();
    if i < front.len() {
        lemma_filter_map_takes(front, f, i);
        let k = choose|k: int| 0 <= k < front.filter_map(f).len() && front.filter_map(f)[k] == b;
        assert(list.filter_map(f)[k] == b);
    } else {
        assert(list.filter_map(f).last() == b);
    }
}

/// The channels of a list of packages are exactly those that some package needs.
pub proof fn law_channels_are_those_needed(packages: Seq<Seq<char>>, name: Seq<char>)
    ensures
        storage::channels_of(packages).contains(name) <==> exists|i: int|
            0 <= i < packages.len() && storage::channel_of(#[trigger] packages[i]) == Some(name),
{
    let f = |p: Seq<char>| storage::channel_of(p);
    let named = packages.filter_map(f);
    storage::lemma_each_once(named);
    text::lemma_sorted_texts(storage::each_once(named));
    if named.contains(name) {
        packages.lemma_filter_map_contains(f, name);
        let p = choose|p: Seq<char>| #[trigger] packages.contains(p) && f(p) == Some(name);
        let i = choose|i: int| 0 <= i < packages.len() && packages[i] == p;
        assert(storage::channel_of(packages[i]) == Some(name));
    }
    if exists|i: int|
        0 <= i < packages.len() && storage::channel_of(#[trigger] packages[i]) == Some(name) {
        let i = choose|i: int|
            0 <= i < packages.len() && storage::channel_of(#[trigger] packages[i]) == Some(name);
        lemma_filter_map_takes(packages, f, i);
    }
}

/// The flakes of a list of packages are exactly those that some package needs.
pub proof fn law_flakes_are_those_needed(packages: Seq<Seq<char>>, name: Seq<char>)
    ensures
        storage::flakes_of(packages).contains(name) <==> exists|i: int|
            0 <= i < packages.len() && storage::flake_of(#[trigger] packages[i]) == Some(name),
{
    let f = |p: Seq<char>| storage::flake_of(p);
    let named = packages.filter_map(f);
    storage::lemma_each_once(named);
    text::lemma_sorted_texts(storage::each_once(named));
    if named.contains(name) {
        packages.lemma_filter_map_contains(f, name);
        let p = choose|p: Seq<char>| #[trigger] packages.contains(p) && f(p) == Some(name);
        let i = choose|i: int| 0 <= i < packages.len() && packages[i] == p;
        assert(storage::flake_of(packages[i]) == Some(name));
    }
    if exists|i: int|
        0 <= i < packages.len() && storage::flake_of(#[trigger] packages[i]) == Some(name) {
        let i = choose|i: int|
            0 <= i < packages.len() && storage::flake_of(#[trigger] packages[i]) == Some(name);
        lemma_filter_map_takes(packages, f, i);
    }
}

} // verus!
