//! The packages of an environment and the file that keeps them.

use crate::package::PackageRef;
use crate::package;
use crate::paths;
use crate::text;
use vstd::prelude::*;
use vstd::seq_lib::*;
use vstd::string::*;

verus! {

/// What was found at the path of an environment's file.
pub enum EnvFile<T> {
    Missing,
    Unreadable,
    Text(T),
}

impl View for EnvFile<String> {
    type V = EnvFile<Seq<char>>;

    open spec fn view(&self) -> EnvFile<Seq<char>> {
        match self {
            EnvFile::Missing => EnvFile::Missing,
            EnvFile::Unreadable => EnvFile::Unreadable,
            EnvFile::Text(s) => EnvFile::Text(s@),
        }
    }
}

/// The packages of an environment, as they stand in its file.
pub struct Storage {
    pub packages: Vec<String>,
    pub disk_path: String,
    pub is_new: bool,
}

/// What a storage holds.
pub struct StorageView {
    pub packages: Seq<Seq<char>>,
    pub disk_path: Seq<char>,
    pub is_new: bool,
}

/// An entry with neither a dot nor a number sign is a package of `nixpkgs`.
pub open spec fn with_source(entry: Seq<char>) -> Seq<char> {
    if !entry.contains('.') && !entry.contains('#') {
        "nixpkgs."@ + entry
    } else {
        entry
    }
}

/// The package that a line of an environment's file stands for. An empty line
/// stands for none.
pub open spec fn entry_of_line(line: Seq<char>) -> Option<Seq<char>> {
    if line.len() == 0 {
        None
    } else {
        Some(with_source(line))
    }
}

/// The packages that an environment's file lists.
pub open spec fn listed_in(file: Seq<char>) -> Seq<Seq<char>> {
    text::lines_of(file).filter_map(|line: Seq<char>| entry_of_line(line))
}

/// The packages that were found at the path of an environment's file.
pub open spec fn found_in(file: EnvFile<Seq<char>>) -> Seq<Seq<char>> {
    match file {
        EnvFile::Text(s) => listed_in(s),
        _ => Seq::empty(),
    }
}

/// The texts of a list, each once, in the order of their first occurrence.
pub open spec fn each_once(list: Seq<Seq<char>>) -> Seq<Seq<char>>
    decreases list.len(),
{
    if list.len() == 0 {
        Seq::empty()
    } else {
        let before = each_once(list.drop_last());
        if before.contains(list.last()) {
            before
        } else {
            before.push(list.last())
        }
    }
}

/// All texts but one.
pub open spec fn other_than(pkg: Seq<char>) -> spec_fn(Seq<char>) -> bool {
    |p: Seq<char>| p != pkg
}

/// The channel of a package, where it has one.
pub open spec fn channel_of(entry: Seq<char>) -> Option<Seq<char>> {
    match package::parsed(entry) {
        Some(package::PackageRefView::Channel { source, .. }) => Some(source),
        _ => None,
    }
}

/// The flake of a package, where it has one.
pub open spec fn flake_of(entry: Seq<char>) -> Option<Seq<char>> {
    match package::parsed(entry) {
        Some(package::PackageRefView::Flake { source, .. }) => Some(source),
        _ => None,
    }
}

/// The references that a list of packages holds.
pub open spec fn refs_of(packages: Seq<Seq<char>>) -> Seq<package::PackageRefView> {
    packages.filter_map(|p: Seq<char>| package::parsed(p))
}

/// The channels that a list of packages needs, each once and in order.
pub open spec fn channels_of(packages: Seq<Seq<char>>) -> Seq<Seq<char>> {
    text::sorted_texts(each_once(packages.filter_map(|p: Seq<char>| channel_of(p))))
}

/// The flakes that a list of packages needs, each once and in order.
pub open spec fn flakes_of(packages: Seq<Seq<char>>) -> Seq<Seq<char>> {
    text::sorted_texts(each_once(packages.filter_map(|p: Seq<char>| flake_of(p))))
}

impl StorageView {
    /// The storage of environment `env` when `file` is what was found at its path.
    pub open spec fn loaded(
        config_dir: Seq<char>,
        env: Seq<char>,
        file: EnvFile<Seq<char>>,
    ) -> StorageView {
        StorageView {
            packages: found_in(file),
            disk_path: paths::joined_path(config_dir, paths::env_file_name(env)),
            is_new: file is Missing,
        }
    }

    /// The storage with a package more. One that is there already changes nothing;
    /// any other puts all the packages in order.
    pub open spec fn with(self, pkg: Seq<char>) -> StorageView {
        if self.packages.contains(pkg) {
            self
        } else {
            StorageView { packages: text::sorted_texts(self.packages.push(pkg)), ..self }
        }
    }

    /// The storage without a package.
    pub open spec fn without(self, pkg: Seq<char>) -> StorageView {
        StorageView { packages: self.packages.filter(other_than(pkg)), ..self }
    }

    /// The text of the environment's file.
    pub open spec fn written(self) -> Seq<char> {
        text::joined(self.packages, "\n"@)
    }
}

impl View for Storage {
    type V = StorageView;

    open spec fn view(&self) -> StorageView {
        StorageView {
            packages: text::texts(self.packages@),
            disk_path: self.disk_path@,
            is_new: self.is_new,
        }
    }
}

/// What a list of references says.
pub open spec fn refs_view(refs: Seq<PackageRef>) -> Seq<package::PackageRefView> {
    Seq::new(refs.len(), |i: int| refs[i]@)
}

/// Reads an environment's file.
pub fn read_packages(file: &str) -> (r: Vec<String>)
    ensures
        text::texts(r@) == listed_in(file@),
{
    let lines = text::lines(file);
    let mut out: Vec<String> = Vec::new();
    let mut i: usize = 0;
    let ghost all = text::texts(lines@);
    let ghost f = |line: Seq<char>| entry_of_line(line);
    assert(all.take(0).filter_map(f) =~= text::texts(out@));
    while i < lines.len()
        invariant
            i <= lines@.len(),
            all == text::texts(lines@),
            f == (|line: Seq<char>| entry_of_line(line)),
            text::texts(out@) == all.take(i as int).filter_map(f),
        decreases lines@.len() - i,
    {
        proof {
            all.lemma_filter_map_take_succ(f, i as int);
        }
        let ghost before = text::texts(out@);
        let line = lines[i].as_str();
        if line.unicode_len() > 0 {
            let entry = if !text::holds(line, '.') && !text::holds(line, '#') {
                "nixpkgs.".to_owned().concat(line)
            } else {
                line.to_owned()
            };
            out.push(entry);
            assert(text::texts(out@) =~= before + seq![entry@]);
        }
        i = i + 1;
        assert(text::texts(out@) =~= all.take(i as int).filter_map(f));
    }
    assert(all.take(i as int) =~= all);
    out
}

/// What is known of the texts of a list, each taken once.
pub proof fn lemma_each_once(list: Seq<Seq<char>>)
    ensures
        each_once(list).no_duplicates(),
        forall|x: Seq<char>| each_once(list).contains(x) <==> list.contains(x),
    decreases list.len(),
{
    if list.len() > 0 {
        let last = list.last();
        lemma_each_once(list.drop_last());
        assert(list =~= list.drop_last().push(last));
        assert forall|x: Seq<char>| each_once(list).contains(x) <==> list.contains(x) by {
            broadcast use group_seq_properties;

        }
    }
}

/// Putting a list in order keeps its texts different.
proof fn lemma_sorted_no_duplicates(list: Seq<Seq<char>>)
    requires
        list.no_duplicates(),
    ensures
        text::sorted_texts(list).no_duplicates(),
{
    text::lemma_sorted_texts(list);
    list.lemma_multiset_has_no_duplicates();
    text::sorted_texts(list).lemma_multiset_has_no_duplicates_conv();
}

/// What is known of the texts of a list, each taken once and put in order.
proof fn lemma_names(list: Seq<Seq<char>>)
    ensures
        text::in_order(text::sorted_texts(each_once(list))),
        text::sorted_texts(each_once(list)).no_duplicates(),
        forall|x: Seq<char>|
            text::sorted_texts(each_once(list)).contains(x) <==> list.contains(x),
{
    lemma_each_once(list);
    text::lemma_sorted_texts(each_once(list));
    lemma_sorted_no_duplicates(each_once(list));
}

impl Storage {
    /// The storage of environment `env`, from what was found at its path.
    pub fn new(config_dir: &str, env: &str, file: EnvFile<String>) -> (r: Storage)
        ensures
            r@ == StorageView::loaded(config_dir@, env@, file@),
    {
        let disk_path = paths::env_file(config_dir, env);
        let (packages, is_new) = match file {
            EnvFile::Missing => (Vec::new(), true),
            EnvFile::Unreadable => (Vec::new(), false),
            EnvFile::Text(s) => (read_packages(s.as_str()), false),
        };
        assert(text::texts(packages@) =~= found_in(file@));
        Storage { packages, disk_path, is_new }
    }

    /// The text to write to the environment's file.
    pub fn write(&self) -> (r: String)
        ensures
            r@ == self@.written(),
    {
        text::join(&self.packages, "\n")
    }

    /// Adds a package.
    pub fn add(&mut self, pkg: &str)
        ensures
            final(self)@ == old(self)@.with(pkg@),
    {
        if !self.contains(pkg) {
            let ghost before = text::texts(self.packages@);
            self.packages.push(pkg.to_owned());
            assert(text::texts(self.packages@) =~= before.push(pkg@));
            text::sort(&mut self.packages);
        }
    }

    /// Removes a package.
    pub fn remove(&mut self, pkg: &str)
        ensures
            final(self)@ == old(self)@.without(pkg@),
    {
        let mut kept: Vec<String> = Vec::new();
        let mut i: usize = 0;
        let ghost all = text::texts(self.packages@);
        let ghost f = other_than(pkg@);
        proof {
            reveal_with_fuel(Seq::filter, 1);
        }
        assert(all.take(0).filter(f) =~= text::texts(kept@));
        while i < self.packages.len()
            invariant
                i <= self.packages@.len(),
                all == text::texts(self.packages@),
                f == other_than(pkg@),
                text::texts(kept@) == all.take(i as int).filter(f),
                self.disk_path == old(self).disk_path,
                self.is_new == old(self).is_new,
            decreases self.packages@.len() - i,
        {
            let ghost before = text::texts(kept@);
            proof {
                assert(all.take(i + 1) =~= all.take(i as int).push(all[i as int]));
                all.take(i as int).lemma_filter_push(all[i as int], f);
            }
            if !text::same(self.packages[i].as_str(), pkg) {
                kept.push(self.packages[i].clone());
                assert(text::texts(kept@) =~= before.push(all[i as int]));
            }
            i = i + 1;
        }
        assert(all.take(i as int) =~= all);
        self.packages = kept;
    }

    /// Whether a package is there.
    pub fn contains(&self, pkg: &str) -> (r: bool)
        ensures
            r == self@.packages.contains(pkg@),
    {
        text::among(&self.packages, pkg)
    }

    /// The packages as references. One that names no source is left out.
    pub fn get_refs(&self) -> (r: Vec<PackageRef>)
        ensures
            refs_view(r@) == refs_of(self@.packages),
    {
        let mut out: Vec<PackageRef> = Vec::new();
        let mut i: usize = 0;
        let ghost all = self@.packages;
        let ghost f = |p: Seq<char>| package::parsed(p);
        assert(all.take(0).filter_map(f) =~= refs_view(out@));
        while i < self.packages.len()
            invariant
                i <= self.packages@.len(),
                all == self@.packages,
                f == (|p: Seq<char>| package::parsed(p)),
                refs_view(out@) == all.take(i as int).filter_map(f),
            decreases self.packages@.len() - i,
        {
            proof {
                all.lemma_filter_map_take_succ(f, i as int);
            }
            let ghost before = refs_view(out@);
            if let Some(p) = PackageRef::parse(self.packages[i].as_str()) {
                out.push(p);
                assert(refs_view(out@) =~= before + seq![p@]);
            }
            i = i + 1;
            assert(refs_view(out@) =~= all.take(i as int).filter_map(f));
        }
        assert(all.take(i as int) =~= all);
        out
    }

    /// The channels that the packages need, each once and in order.
    pub fn list_channels(&self) -> (r: Vec<String>)
        ensures
            text::texts(r@) == channels_of(self@.packages),
            text::in_order(text::texts(r@)),
            text::texts(r@).no_duplicates(),
    {
        let mut out: Vec<String> = Vec::new();
        let mut i: usize = 0;
        let ghost all = self@.packages;
        let ghost f = |p: Seq<char>| channel_of(p);
        assert(all.take(0).filter_map(f) =~= Seq::<Seq<char>>::empty());
        assert(each_once(all.take(0).filter_map(f)) =~= text::texts(out@));
        while i < self.packages.len()
            invariant
                i <= self.packages@.len(),
                all == self@.packages,
                f == (|p: Seq<char>| channel_of(p)),
                text::texts(out@) == each_once(all.take(i as int).filter_map(f)),
            decreases self.packages@.len() - i,
        {
            let ghost before = all.take(i as int).filter_map(f);
            let ghost after = all.take(i + 1).filter_map(f);
            let ghost names = text::texts(out@);
            proof {
                all.lemma_filter_map_take_succ(f, i as int);
            }
            match PackageRef::parse(self.packages[i].as_str()) {
                Some(PackageRef::Channel { source, .. }) => {
                    assert(after =~= before.push(source@));
                    assert(after.drop_last() =~= before);
                    if !text::among(&out, source.as_str()) {
                        let ghost name = source@;
                        out.push(source);
                        assert(text::texts(out@) =~= names.push(name));
                    }
                },
                _ => {
                    assert(after =~= before);
                },
            }
            i = i + 1;
        }
        assert(all.take(i as int) =~= all);
        proof {
            lemma_names(all.filter_map(f));
        }
        text::sort(&mut out);
        out
    }

    /// The flakes that the packages need, each once and in order.
    pub fn list_flakes(&self) -> (r: Vec<String>)
        ensures
            text::texts(r@) == flakes_of(self@.packages),
            text::in_order(text::texts(r@)),
            text::texts(r@).no_duplicates(),
    {
        let mut out: Vec<String> = Vec::new();
        let mut i: usize = 0;
        let ghost all = self@.packages;
        let ghost f = |p: Seq<char>| flake_of(p);
        assert(all.take(0).filter_map(f) =~= Seq::<Seq<char>>::empty());
        assert(each_once(all.take(0).filter_map(f)) =~= text::texts(out@));
        while i < self.packages.len()
            invariant
                i <= self.packages@.len(),
                all == self@.packages,
                f == (|p: Seq<char>| flake_of(p)),
                text::texts(out@) == each_once(all.take(i as int).filter_map(f)),
            decreases self.packages@.len() - i,
        {
            let ghost before = all.take(i as int).filter_map(f);
            let ghost after = all.take(i + 1).filter_map(f);
            let ghost names = text::texts(out@);
            proof {
                all.lemma_filter_map_take_succ(f, i as int);
            }
            match PackageRef::parse(self.packages[i].as_str()) {
                Some(PackageRef::Flake { source, .. }) => {
                    assert(after =~= before.push(source@));
                    assert(after.drop_last() =~= before);
                    if !text::among(&out, source.as_str()) {
                        let ghost name = source@;
                        out.push(source);
                        assert(text::texts(out@) =~= names.push(name));
                    }
                },
                _ => {
                    assert(after =~= before);
                },
            }
            i = i + 1;
        }
        assert(all.take(i as int) =~= all);
        proof {
            lemma_names(all.filter_map(f));
        }
        text::sort(&mut out);
        out
    }
}

} // verus!
