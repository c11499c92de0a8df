//! References to packages: an attribute of a channel or of a flake.

use crate::text;
use vstd::prelude::*;
use vstd::string::*;

verus! {

/// A reference to a package, either from a channel or from a flake.
#[derive(Debug, PartialEq)]
pub enum PackageRef {
    /// Channel package: `channel.attr` (e.g. `nixpkgs.git`).
    Channel { source: String, attr: String },
    /// Flake package: `flake#attr` (e.g. `nixpkgs#git`).
    Flake { source: String, attr: String },
}

/// What a package reference says.
pub enum PackageRefView {
    Channel { source: Seq<char>, attr: Seq<char> },
    Flake { source: Seq<char>, attr: Seq<char> },
}

impl PackageRefView {
    /// The name of the channel or flake.
    pub open spec fn source(self) -> Seq<char> {
        match self {
            PackageRefView::Channel { source, .. } => source,
            PackageRefView::Flake { source, .. } => source,
        }
    }

    /// The attribute path within the source.
    pub open spec fn attr(self) -> Seq<char> {
        match self {
            PackageRefView::Channel { attr, .. } => attr,
            PackageRefView::Flake { attr, .. } => attr,
        }
    }

    /// The reference as it is written down.
    pub open spec fn written(self) -> Seq<char> {
        match self {
            PackageRefView::Channel { source, attr } => source + seq!['.'] + attr,
            PackageRefView::Flake { source, attr } => source + seq!['#'] + attr,
        }
    }

    /// The nix expression that the package has in a generated file.
    pub open spec fn nix_expr(self) -> Seq<char> {
        match self {
            PackageRefView::Channel { source, attr } => "_channel_"@ + source + "."@ + attr,
            PackageRefView::Flake { source, attr } => "_flake_"@ + source + "."@ + attr,
        }
    }

    /// References that can be told apart when written down: the source of a
    /// channel package ends at the first dot and nothing in it looks like a flake;
    /// the source of a flake package ends at the first number sign.
    pub open spec fn legible(self) -> bool {
        match self {
            PackageRefView::Channel { source, attr } => !source.contains('.') && !source.contains(
                '#',
            ) && !attr.contains('#'),
            PackageRefView::Flake { source, .. } => !source.contains('#'),
        }
    }
}

/// The reference that a text is read as: a number sign makes it a flake package,
/// else a dot makes it a channel package.
pub open spec fn parsed(s: Seq<char>) -> Option<PackageRefView> {
    match text::cut_at(s, '#') {
        Some(parts) => Some(PackageRefView::Flake { source: parts.0, attr: parts.1 }),
        None => match text::cut_at(s, '.') {
            Some(parts) => Some(PackageRefView::Channel { source: parts.0, attr: parts.1 }),
            None => None,
        },
    }
}

impl View for PackageRef {
    type V = PackageRefView;

    open spec fn view(&self) -> PackageRefView {
        match self {
            PackageRef::Channel { source, attr } => PackageRefView::Channel {
                source: source@,
                attr: attr@,
            },
            PackageRef::Flake { source, attr } => PackageRefView::Flake {
                source: source@,
                attr: attr@,
            },
        }
    }
}

impl Clone for PackageRef {
    fn clone(&self) -> (r: Self)
        ensures
            r == *self,
    {
        match self {
            PackageRef::Channel { source, attr } => PackageRef::Channel {
                source: source.clone(),
                attr: attr.clone(),
            },
            PackageRef::Flake { source, attr } => PackageRef::Flake {
                source: source.clone(),
                attr: attr.clone(),
            },
        }
    }
}

impl PackageRef {
    /// Reads a package reference. There is none exactly where the text holds
    /// neither a number sign nor a dot.
    pub fn parse(s: &str) -> (r: Option<Self>)
        ensures
            match r {
                Some(p) => parsed(s@) == Some(p@),
                None => parsed(s@) is None,
            },
            r is None <==> !s@.contains('#') && !s@.contains('.'),
            r matches Some(PackageRef::Flake { source, attr }) ==> !source@.contains('#') && s@
                == source@ + seq!['#'] + attr@,
            r matches Some(PackageRef::Channel { source, attr }) ==> !s@.contains('#')
                && !source@.contains('.') && s@ == source@ + seq!['.'] + attr@,
    {
        proof {
            text::lemma_cut_at_none(s@, '#');
            text::lemma_cut_at_none(s@, '.');
            if s@.contains('#') {
                text::lemma_cut_at_parts(s@, '#');
            } else if s@.contains('.') {
                text::lemma_cut_at_parts(s@, '.');
            }
        }
        match text::cut(s, '#') {
            Some((source, attr)) => Some(PackageRef::Flake { source, attr }),
            None => match text::cut(s, '.') {
                Some((source, attr)) => Some(PackageRef::Channel { source, attr }),
                None => None,
            },
        }
    }

    /// The name of the channel or flake.
    pub fn source_name(&self) -> (r: &str)
        ensures
            r@ == self@.source(),
    {
        match self {
            PackageRef::Channel { source, .. } => source.as_str(),
            PackageRef::Flake { source, .. } => source.as_str(),
        }
    }

    /// The reference as it is written down.
    pub fn to_string(&self) -> (r: String)
        ensures
            r@ == self@.written(),
    {
        proof {
            reveal_strlit(".");
            reveal_strlit("#");
        }
        let out = match self {
            PackageRef::Channel { source, attr } => source.clone().concat(".").concat(
                attr.as_str(),
            ),
            PackageRef::Flake { source, attr } => source.clone().concat("#").concat(attr.as_str()),
        };
        assert(out@ =~= self@.written());
        out
    }

    /// The nix expression to access this package.
    pub fn to_nix_expr(&self) -> (r: String)
        ensures
            r@ == self@.nix_expr(),
    {
        match self {
            PackageRef::Channel { source, attr } => "_channel_".to_owned().concat(
                source.as_str(),
            ).concat(".").concat(attr.as_str()),
            PackageRef::Flake { source, attr } => "_flake_".to_owned().concat(
                source.as_str(),
            ).concat(".").concat(attr.as_str()),
        }
    }
}

/// Whatever text is read as a reference, writing the reference gives the text back.
pub proof fn law_parse_then_write(s: Seq<char>)
    ensures
        parsed(s) matches Some(p) ==> p.written() == s,
{
    if text::cut_at(s, '#') is Some {
        text::lemma_cut_at_parts(s, '#');
    } else if text::cut_at(s, '.') is Some {
        text::lemma_cut_at_parts(s, '.');
    }
}

/// Whatever is read as a reference is legible.
pub proof fn law_parsed_is_legible(s: Seq<char>)
    ensures
        parsed(s) matches Some(p) ==> p.legible(),
{
    text::lemma_cut_at_none(s, '#');
    if text::cut_at(s, '#') is Some {
        text::lemma_cut_at_parts(s, '#');
    } else if text::cut_at(s, '.') is Some {
        text::lemma_cut_at_parts(s, '.');
        let parts = text::cut_at(s, '.').unwrap();
        assert forall|c: char| c == '#' implies !parts.0.contains(c) && !parts.1.contains(c) by {
            if parts.0.contains(c) {
                let i = parts.0.index_of(c);
                assert(s[i] == c);
            }
            if parts.1.contains(c) {
                let i = parts.1.index_of(c);
                assert(s[parts.0.len() + 1 + i] == c);
            }
        }
    }
}

/// Writing a legible reference and reading it gives the reference back.
pub proof fn law_write_then_parse(p: PackageRefView)
    requires
        p.legible(),
    ensures
        parsed(p.written()) == Some(p),
{
    let s = p.written();
    match p {
        PackageRefView::Flake { source, attr } => {
            text::lemma_cut_at_glued(source, '#', attr);
        },
        PackageRefView::Channel { source, attr } => {
            text::lemma_cut_at_none(s, '#');
            if s.contains('#') {
                let i = s.index_of('#');
                if i < source.len() {
                    assert(source[i] == '#');
                } else {
                    assert(attr[i - source.len() - 1] == '#');
                }
            }
            text::lemma_cut_at_glued(source, '.', attr);
        },
    }
}

} // verus!
