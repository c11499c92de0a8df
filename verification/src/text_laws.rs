//! What holds of texts, whatever they are.

use crate::text;
use vstd::prelude::*;

verus! {

/// A text of white space.
pub open spec fn all_space(s: Seq<char>) -> bool {
    forall|i: int| 0 <= i < s.len() ==> text::is_space(#[trigger] s[i])
}

/// A text that neither starts nor ends with white space.
pub open spec fn is_tight(s: Seq<char>) -> bool {
    s.len() > 0 ==> !text::is_space(s.first()) && !text::is_space(s.last())
}

proof fn lemma_trim_start(before: Seq<char>, s: Seq<char>)
    requires
        all_space(before),
        s.len() > 0 ==> !text::is_space(s.first()),
    ensures
        text::trim_start(before + s) == s,
    decreases before.len(),
{
    if before.len() == 0 {
        assert(before + s =~= s);
    } else {
        assert(text::is_space(before[0]));
        assert((before + s).drop_first() =~= before.drop_first() + s);
        assert forall|i: int| 0 <= i < before.drop_first().len() implies text::is_space(
            #[trigger] before.drop_first()[i],
        ) by {
            assert(text::is_space(before[i + 1]));
        }
        lemma_trim_start(before.drop_first(), s);
    }
}

proof fn lemma_trim_end(s: Seq<char>, after: Seq<char>)
    requires
        all_space(after),
        s.len() > 0 ==> !text::is_space(s.last()),
    ensures
        text::trim_end(s + after) == s,
    decreases after.len(),
{
    if after.len() == 0 {
        assert(s + after =~= s);
    } else {
        assert(text::is_space(after[after.len() - 1]));
        assert((s + after).drop_last() =~= s + after.drop_last());
        assert forall|i: int| 0 <= i < after.drop_last().len() implies text::is_space(
            #[trigger] after.drop_last()[i],
        ) by {
            assert(text::is_space(after[i]));
        }
        lemma_trim_end(s, after.drop_last());
    }
}

proof fn lemma_trim_start_all(s: Seq<char>)
    requires
        all_space(s),
    ensures
        text::trim_start(s).len() == 0,
    decreases s.len(),
{
    if s.len() > 0 {
        assert(text::is_space(s[0]));
        assert forall|i: int| 0 <= i < s.drop_first().len() implies text::is_space(
            #[trigger] s.drop_first()[i],
        ) by {
            assert(text::is_space(s[i + 1]));
        }
        lemma_trim_start_all(s.drop_first());
    }
}

/// Trimming takes all the white space around a text off, and nothing else.
pub proof fn law_trimming(before: Seq<char>, s: Seq<char>, after: Seq<char>)
    requires
        all_space(before),
        all_space(after),
        is_tight(s),
    ensures
        text::trimmed(before + s + after) == s,
{
    if s.len() > 0 {
        assert(before + s + after =~= before + (s + after));
        lemma_trim_start(before, s + after);
        lemma_trim_end(s, after);
    } else {
        let whole = before + s + after;
        assert forall|i: int| 0 <= i < whole.len() implies text::is_space(
            #[trigger] whole[i],
        ) by {
            if i < before.len() {
                assert(text::is_space(before[i]));
            } else {
                assert(text::is_space(after[i - before.len()]));
            }
        }
        lemma_trim_start_all(whole);
        assert(text::trimmed(whole) =~= s);
    }
}

/// A text without a `c` is one piece; one that holds a `c` has the pieces before it
/// and those behind it.
pub proof fn law_pieces(a: Seq<char>, c: char, b: Seq<char>)
    ensures
        !a.contains(c) ==> text::pieces(a, c) == seq![a],
        text::pieces(a + seq![c] + b, c) == text::pieces(a, c) + text::pieces(b, c),
    decreases a.len(),
{
    text::lemma_cut_at_none(a, c);
    if !a.contains(c) {
        text::lemma_cut_at_glued(a, c, b);
    } else {
        text::lemma_cut_at_parts(a, c);
        let (first, rest) = text::cut_at(a, c).unwrap();
        law_pieces(rest, c, b);
        assert(a + seq![c] + b =~= first + seq![c] + (rest + seq![c] + b));
        text::lemma_cut_at_glued(first, c, rest + seq![c] + b);
        assert(text::pieces(a + seq![c] + b, c) =~= text::pieces(a, c) + text::pieces(b, c));
    }
}

/// Lists are joined with the separator between each two of their texts, and nowhere
/// else.
pub proof fn law_joining(a: Seq<Seq<char>>, b: Seq<Seq<char>>, s: Seq<char>, sep: Seq<char>)
    ensures
        text::joined(seq![s], sep) == s,
        a.len() > 0 && b.len() > 0 ==> text::joined(a + b, sep) == text::joined(a, sep) + sep
            + text::joined(b, sep),
        text::joined(Seq::<Seq<char>>::empty(), sep).len() == 0,
    decreases b.len(),
{
    if a.len() > 0 && b.len() > 0 {
        let all = a + b;
        assert(all.last() == b.last());
        if b.len() == 1 {
            assert(all.drop_last() =~= a);
        } else {
            assert(all.drop_last() =~= a + b.drop_last());
            law_joining(a, b.drop_last(), s, sep);
            assert(text::joined(all, sep) =~= text::joined(a, sep) + sep + text::joined(b, sep));
        }
    }
}

/// Texts that do not hold a `c` and are joined with it are its pieces.
pub proof fn law_joined_texts_are_the_pieces(list: Seq<Seq<char>>, c: char)
    requires
        list.len() > 0,
        forall|i: int| 0 <= i < list.len() ==> !(#[trigger] list[i]).contains(c),
    ensures
        text::pieces(text::joined(list, seq![c]), c) == list,
    decreases list.len(),
{
    if list.len() == 1 {
        law_pieces(list[0], c, Seq::empty());
        assert(list =~= seq![list[0]]);
    } else {
        let front = list.drop_last();
        assert forall|i: int| 0 <= i < front.len() implies !(#[trigger] front[i]).contains(c) by {
            assert(!list[i].contains(c));
        }
        law_joined_texts_are_the_pieces(front, c);
        law_pieces(text::joined(front, seq![c]), c, list.last());
        assert(!list[list.len() - 1].contains(c));
        law_pieces(list.last(), c, Seq::empty());
        assert(front + seq![list.last()] =~= list);
    }
}

/// A text ends a line with a line feed, or with a carriage return and a line feed; what
/// is behind the last is a line where it is not empty.
pub proof fn law_lines(a: Seq<char>, b: Seq<char>)
    requires
        !a.contains('\n'),
    ensures
        text::lines_of(a + seq!['\r', '\n'] + b) == seq![a] + text::lines_of(b),
        a.len() == 0 || a.last() != '\r' ==> text::lines_of(a + seq!['\n'] + b) == seq![a]
            + text::lines_of(b),
        a.len() > 0 ==> text::lines_of(a) == seq![a],
        a.len() == 0 ==> text::lines_of(a).len() == 0,
{
    let with_return = a.push('\r');
    assert(a + seq!['\r', '\n'] + b =~= with_return + seq!['\n'] + b);
    assert(!with_return.contains('\n')) by {
        if with_return.contains('\n') {
            let i = choose|i: int| 0 <= i < with_return.len() && with_return[i] == '\n';
            assert(a[i] == '\n');
        }
    }
    text::lemma_cut_at_glued(with_return, '\n', b);
    text::lemma_cut_at_glued(a, '\n', b);
    text::lemma_cut_at_none(a, '\n');
    assert(with_return.drop_last() =~= a);
}

/// Texts are ordered by the first character in which they differ; a text comes before
/// those that it is the beginning of.
pub proof fn law_order(common: Seq<char>, a: Seq<char>, b: Seq<char>)
    ensures
        a.len() > 0 && b.len() > 0 && a.first() < b.first() ==> text::precedes(
            common + a,
            common + b,
        ) && !text::precedes(common + b, common + a),
        b.len() > 0 ==> text::precedes(common, common + b),
        !text::precedes(common, common),
    decreases common.len(),
{
    if common.len() == 0 {
        assert(common + a =~= a);
        assert(common + b =~= b);
    } else {
        law_order(common.drop_first(), a, b);
        assert((common + a).drop_first() =~= common.drop_first() + a);
        assert((common + b).drop_first() =~= common.drop_first() + b);
    }
}

} // verus!
