//! Removing packages from an environment.

use crate::notice;
use crate::notice::Notice;
use crate::storage::{Storage, StorageView};
use crate::storage_laws;
use crate::text;
use vstd::prelude::*;
use vstd::string::*;

verus! {

/// The entry that a package to remove stands for: the one of that name, else the
/// one of the nixpkgs channel, else the one of the nixpkgs flake.
pub open spec fn entry_for(packages: Seq<Seq<char>>, pkg: Seq<char>) -> Option<Seq<char>> {
    if packages.contains(pkg) {
        Some(pkg)
    } else if packages.contains("nixpkgs."@ + pkg) {
        Some("nixpkgs."@ + pkg)
    } else if packages.contains("nixpkgs#"@ + pkg) {
        Some("nixpkgs#"@ + pkg)
    } else {
        None
    }
}

/// The storage without a package, however it was named.
pub open spec fn removed(storage: StorageView, pkg: Seq<char>) -> StorageView {
    match entry_for(storage.packages, pkg) {
        Some(entry) => storage.without(entry),
        None => storage,
    }
}

/// What is said of a package to remove.
pub open spec fn removal_notice(packages: Seq<Seq<char>>, pkg: Seq<char>) -> Notice<Seq<char>> {
    match entry_for(packages, pkg) {
        Some(entry) => Notice::Removing { pkg: entry },
        None => Notice::NotInstalled { pkg },
    }
}

/// The storage without several packages, taken one behind the other.
pub open spec fn all_removed(storage: StorageView, pkgs: Seq<Seq<char>>) -> StorageView
    decreases pkgs.len(),
{
    if pkgs.len() == 0 {
        storage
    } else {
        removed(all_removed(storage, pkgs.drop_last()), pkgs.last())
    }
}

/// What is said of several packages to remove.
pub open spec fn removal_notices(storage: StorageView, pkgs: Seq<Seq<char>>) -> Seq<
    Notice<Seq<char>>,
>
    decreases pkgs.len(),
{
    if pkgs.len() == 0 {
        seq![]
    } else {
        removal_notices(storage, pkgs.drop_last()).push(
            removal_notice(all_removed(storage, pkgs.drop_last()).packages, pkgs.last()),
        )
    }
}

/// Removes a package, however it was named.
pub fn remove_package(storage: &mut Storage, pkg: &str) -> (r: Notice<String>)
    ensures
        final(storage)@ == removed(old(storage)@, pkg@),
        r@ == removal_notice(old(storage)@.packages, pkg@),
{
    if storage.contains(pkg) {
        storage.remove(pkg);
        return Notice::Removing { pkg: pkg.to_owned() };
    }
    let channel_pkg = "nixpkgs.".to_owned().concat(pkg);
    if storage.contains(channel_pkg.as_str()) {
        storage.remove(channel_pkg.as_str());
        return Notice::Removing { pkg: channel_pkg };
    }
    let flake_pkg = "nixpkgs#".to_owned().concat(pkg);
    if storage.contains(flake_pkg.as_str()) {
        storage.remove(flake_pkg.as_str());
        return Notice::Removing { pkg: flake_pkg };
    }
    Notice::NotInstalled { pkg: pkg.to_owned() }
}

/// Removes packages, one behind the other.
pub fn remove_packages(storage: &mut Storage, pkgs: &Vec<String>) -> (r: Vec<Notice<String>>)
    ensures
        final(storage)@ == all_removed(old(storage)@, text::texts(pkgs@)),
        notice::notices_view(r@) == removal_notices(old(storage)@, text::texts(pkgs@)),
{
    let mut said: Vec<Notice<String>> = Vec::new();
    let mut i: usize = 0;
    let ghost all = text::texts(pkgs@);
    let ghost begun = storage@;
    assert(notice::notices_view(said@) =~= removal_notices(begun, all.take(0)));
    while i < pkgs.len()
        invariant
            i <= pkgs@.len(),
            all == text::texts(pkgs@),
            storage@ == all_removed(begun, all.take(i as int)),
            notice::notices_view(said@) == removal_notices(begun, all.take(i as int)),
        decreases pkgs@.len() - i,
    {
        let ghost before = notice::notices_view(said@);
        assert(all.take(i + 1).drop_last() =~= all.take(i as int));
        let notice = remove_package(storage, pkgs[i].as_str());
        said.push(notice);
        assert(notice::notices_view(said@) =~= before.push(notice@));
        i = i + 1;
    }
    assert(all.take(i as int) =~= all);
    said
}

/// Removing a package takes nothing out but the entry that it stands for.
pub proof fn law_removal_spares_the_others(storage: StorageView, pkg: Seq<char>, p: Seq<char>)
    ensures
        removed(storage, pkg).packages.contains(p) <==> storage.packages.contains(p) && Some(p)
            != entry_for(storage.packages, pkg),
{
    if let Some(entry) = entry_for(storage.packages, pkg) {
        storage_laws::law_remove_removes(storage, entry);
    }
}

/// A package that does not stand for any entry changes nothing.
pub proof fn law_removal_of_the_unknown(storage: StorageView, pkg: Seq<char>)
    requires
        !storage.packages.contains(pkg),
        !storage.packages.contains("nixpkgs."@ + pkg),
        !storage.packages.contains("nixpkgs#"@ + pkg),
    ensures
        removed(storage, pkg) == storage,
        removal_notice(storage.packages, pkg) == (Notice::NotInstalled { pkg }),
{
}

/// A package that was added without naming its source is removed under the same
/// name: the packages of before come back, put in order.
pub proof fn law_bare_name_removes_what_it_added(storage: StorageView, pkg: Seq<char>)
    requires
        !storage.packages.contains(pkg),
        !storage.packages.contains("nixpkgs."@ + pkg),
    ensures
        removed(
            storage.with(crate::additions::in_channel(pkg).written()),
            pkg,
        ).packages == text::sorted_texts(storage.packages),
{
    let entry = "nixpkgs."@ + pkg;
    reveal_strlit("nixpkgs.");
    reveal_strlit("nixpkgs");
    assert(crate::additions::in_channel(pkg).written() =~= entry);
    storage_laws::law_add_adds(storage, entry);
    assert(pkg != entry) by {
        assert(entry.len() == pkg.len() + 8);
    }
    storage_laws::law_add_then_remove(storage, entry);
}

/// Whatever package is named for removal, no entry of that name is left at the end.
pub proof fn law_named_package_is_gone(storage: StorageView, pkgs: Seq<Seq<char>>, i: int)
    requires
        0 <= i < pkgs.len(),
    ensures
        !all_removed(storage, pkgs).packages.contains(pkgs[i]),
    decreases pkgs.len(),
{
    let front = pkgs.drop_last();
    let before = all_removed(storage, front);
    law_removal_spares_the_others(before, pkgs.last(), pkgs[i]);
    if i < front.len() {
        law_named_package_is_gone(storage, front, i);
    }
}

} // verus!
