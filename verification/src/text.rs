//! Text as sequences of characters: cutting, trimming, joining and ordering.

use vstd::prelude::*;
use vstd::relations::*;
use vstd::seq_lib::*;

verus! {

/// The texts that a vector of strings holds.
pub open spec fn texts(list: Seq<String>) -> Seq<Seq<char>> {
    Seq::new(list.len(), |i: int| list[i]@)
}

/// `i` is the place of the first `c` in `s`.
pub open spec fn is_first(s: Seq<char>, c: char, i: int) -> bool {
    &&& 0 <= i < s.len()
    &&& s[i] == c
    &&& forall|j: int| 0 <= j < i ==> s[j] != c
}

/// What stands before and after the first `c` in `s`.
pub open spec fn cut_at(s: Seq<char>, c: char) -> Option<(Seq<char>, Seq<char>)> {
    if exists|i: int| is_first(s, c, i) {
        let i = choose|i: int| is_first(s, c, i);
        Some((s.take(i), s.skip(i + 1)))
    } else {
        None
    }
}

/// `cut_at` cuts at the first `c`, wherever that is known to be.
pub proof fn lemma_cut_at(s: Seq<char>, c: char, i: int)
    requires
        is_first(s, c, i),
    ensures
        cut_at(s, c) == Some((s.take(i), s.skip(i + 1))),
{
    let j = choose|j: int| is_first(s, c, j);
    assert(j == i);
}

/// `cut_at` finds nothing to cut exactly where the character does not occur.
pub proof fn lemma_cut_at_none(s: Seq<char>, c: char)
    ensures
        cut_at(s, c) is None <==> !s.contains(c),
{
    if s.contains(c) {
        let k = s.index_of_first(c);
        s.index_of_first_ensures(c);
        assert(is_first(s, c, k->0));
    }
}

/// The two sides of a cut, put together again, and what is known of the first.
pub proof fn lemma_cut_at_parts(s: Seq<char>, c: char)
    requires
        cut_at(s, c) is Some,
    ensures
        s == cut_at(s, c).unwrap().0 + seq![c] + cut_at(s, c).unwrap().1,
        !cut_at(s, c).unwrap().0.contains(c),
        cut_at(s, c).unwrap().1.len() < s.len(),
{
    let i = choose|i: int| is_first(s, c, i);
    assert(s =~= s.take(i) + seq![c] + s.skip(i + 1));
}

/// A text that is glued together at a `c` is cut there, when no `c` stands before.
pub proof fn lemma_cut_at_glued(a: Seq<char>, c: char, b: Seq<char>)
    requires
        !a.contains(c),
    ensures
        cut_at(a + seq![c] + b, c) == Some((a, b)),
{
    let s = a + seq![c] + b;
    assert forall|j: int| 0 <= j < a.len() implies s[j] != c by {
        assert(s[j] == a[j]);
        assert(a.contains(a[j]));
    }
    assert(is_first(s, c, a.len() as int));
    lemma_cut_at(s, c, a.len() as int);
    assert(s.take(a.len() as int) =~= a);
    assert(s.skip(a.len() as int + 1) =~= b);
}

/// The characters of a string.
pub fn chars_of(s: &str) -> (r: Vec<char>)
    ensures
        r@ == s@,
{
    let mut out: Vec<char> = Vec::new();
    for c in it: s.chars()
        invariant
            it.seq() == s@,
            out@ == s@.take(it.index() as int),
    {
        out.push(c);
        assert(s@.take(it.index() + 1) =~= s@.take(it.index() as int).push(c));
    }
    assert(s@.take(s@.len() as int) =~= s@);
    out
}

/// The place of the first `c` at or behind `from`.
fn place_of(chars: &Vec<char>, from: usize, c: char) -> (r: Option<usize>)
    requires
        from <= chars@.len(),
    ensures
        match r {
            Some(i) => from <= i < chars@.len() && is_first(chars@.skip(from as int), c, i - from),
            None => !chars@.skip(from as int).contains(c),
        },
{
    let mut i: usize = from;
    while i < chars.len()
        invariant
            from <= i <= chars@.len(),
            forall|j: int| from <= j < i ==> chars@[j] != c,
        decreases chars@.len() - i,
    {
        if chars[i] == c {
            return Some(i);
        }
        i = i + 1;
    }
    None
}

/// Cuts a text at the first `c`.
pub fn cut(s: &str, c: char) -> (r: Option<(String, String)>)
    ensures
        match r {
            Some(parts) => cut_at(s@, c) == Some((parts.0@, parts.1@)),
            None => cut_at(s@, c) is None,
        },
{
    let chars = chars_of(s);
    let end: usize = chars.len();
    assert(s@.skip(0) =~= s@);
    match place_of(&chars, 0, c) {
        Some(i) => {
            proof {
                lemma_cut_at(s@, c, i as int);
            }
            let before = s.substring_char(0, i).to_owned();
            let after = s.substring_char(i + 1, end).to_owned();
            assert(before@ =~= s@.take(i as int));
            assert(after@ =~= s@.skip(i + 1));
            Some((before, after))
        },
        None => {
            proof {
                lemma_cut_at_none(s@, c);
            }
            None
        },
    }
}

/// Whether a character occurs in a text.
pub fn holds(s: &str, c: char) -> (r: bool)
    ensures
        r == s@.contains(c),
{
    let chars = chars_of(s);
    assert(s@.skip(0) =~= s@);
    match place_of(&chars, 0, c) {
        Some(i) => {
            assert(s@[i as int] == c);
            true
        },
        None => false,
    }
}

/// Whether two texts are the same.
pub fn same(a: &str, b: &str) -> (r: bool)
    ensures
        r == (a@ == b@),
{
    a.to_owned() == b.to_owned()
}

/// Whether a text is among those of a list.
pub fn among(list: &Vec<String>, s: &str) -> (r: bool)
    ensures
        r == texts(list@).contains(s@),
{
    let mut i: usize = 0;
    while i < list.len()
        invariant
            i <= list@.len(),
            forall|j: int| 0 <= j < i ==> texts(list@)[j] != s@,
        decreases list@.len() - i,
    {
        if same(list[i].as_str(), s) {
            assert(texts(list@)[i as int] == s@);
            return true;
        }
        i = i + 1;
    }
    false
}

/// The same strings once more.
pub fn copy_texts(list: &Vec<String>) -> (r: Vec<String>)
    ensures
        texts(r@) == texts(list@),
{
    let mut out: Vec<String> = Vec::new();
    let mut i: usize = 0;
    while i < list.len()
        invariant
            i <= list@.len(),
            out@.len() == i,
            forall|j: int| 0 <= j < i ==> (#[trigger] out@[j])@ == list@[j]@,
        decreases list@.len() - i,
    {
        out.push(list[i].clone());
        i = i + 1;
    }
    assert(texts(out@) =~= texts(list@));
    out
}

/// A text without its `prefix`, where it starts with that.
pub open spec fn without_prefix(s: Seq<char>, prefix: Seq<char>) -> Option<Seq<char>> {
    if prefix.is_prefix_of(s) {
        Some(s.skip(prefix.len() as int))
    } else {
        None
    }
}

/// Takes a prefix off a text.
pub fn strip(s: &str, prefix: &str) -> (r: Option<String>)
    ensures
        match r {
            Some(rest) => without_prefix(s@, prefix@) == Some(rest@),
            None => without_prefix(s@, prefix@) is None,
        },
{
    let n: usize = s.unicode_len();
    let m: usize = prefix.unicode_len();
    if m > n {
        return None;
    }
    let head = s.substring_char(0, m);
    if same(head, prefix) {
        assert(prefix@.is_prefix_of(s@));
        let rest = s.substring_char(m, n).to_owned();
        assert(rest@ =~= s@.skip(m as int));
        Some(rest)
    } else {
        assert(prefix@.is_prefix_of(s@) ==> head@ =~= prefix@);
        None
    }
}

/// The characters that count as white space: those with the Unicode property
/// `White_Space`.
pub open spec fn is_space(c: char) -> bool {
    ||| '\u{9}' <= c <= '\u{d}'
    ||| c == ' '
    ||| c == '\u{85}'
    ||| c == '\u{a0}'
    ||| c == '\u{1680}'
    ||| '\u{2000}' <= c <= '\u{200a}'
    ||| c == '\u{2028}'
    ||| c == '\u{2029}'
    ||| c == '\u{202f}'
    ||| c == '\u{205f}'
    ||| c == '\u{3000}'
}

/// Whether a character counts as white space.
pub fn space(c: char) -> (r: bool)
    ensures
        r == is_space(c),
{
    ('\u{9}' <= c && c <= '\u{d}') || c == ' ' || c == '\u{85}' || c == '\u{a0}'
        || c == '\u{1680}' || ('\u{2000}' <= c && c <= '\u{200a}') || c == '\u{2028}'
        || c == '\u{2029}' || c == '\u{202f}' || c == '\u{205f}' || c == '\u{3000}'
}

/// A text without the white space that it starts with.
pub open spec fn trim_start(s: Seq<char>) -> Seq<char>
    decreases s.len(),
{
    if s.len() > 0 && is_space(s.first()) {
        trim_start(s.drop_first())
    } else {
        s
    }
}

/// A text without the white space that it ends with.
pub open spec fn trim_end(s: Seq<char>) -> Seq<char>
    decreases s.len(),
{
    if s.len() > 0 && is_space(s.last()) {
        trim_end(s.drop_last())
    } else {
        s
    }
}

/// A text without the white space around it.
pub open spec fn trimmed(s: Seq<char>) -> Seq<char> {
    trim_end(trim_start(s))
}

/// Takes the white space around a text off.
pub fn trim(s: &str) -> (r: String)
    ensures
        r@ == trimmed(s@),
{
    let chars = chars_of(s);
    let mut from: usize = 0;
    let mut to: usize = chars.len();
    assert(s@.skip(0) =~= s@);
    while from < to && space(chars[from])
        invariant
            chars@ == s@,
            from <= to,
            to == chars@.len(),
            trim_start(s@) == trim_start(s@.skip(from as int)),
        decreases to - from,
    {
        assert(s@.skip(from as int).drop_first() =~= s@.skip(from + 1));
        from = from + 1;
    }
    assert(trim_start(s@) == s@.skip(from as int));
    assert(s@.skip(from as int) =~= s@.subrange(from as int, to as int));
    while from < to && space(chars[to - 1])
        invariant
            chars@ == s@,
            from <= to <= chars@.len(),
            trim_end(trim_start(s@)) == trim_end(s@.subrange(from as int, to as int)),
        decreases to - from,
    {
        assert(s@.subrange(from as int, to as int).drop_last() =~= s@.subrange(
            from as int,
            to - 1,
        ));
        to = to - 1;
    }
    s.substring_char(from, to).to_owned()
}

/// The texts of a list with `sep` between each two.
pub open spec fn joined(list: Seq<Seq<char>>, sep: Seq<char>) -> Seq<char>
    decreases list.len(),
{
    if list.len() == 0 {
        Seq::empty()
    } else if list.len() == 1 {
        list.first()
    } else {
        joined(list.drop_last(), sep) + sep + list.last()
    }
}

/// Writes a list as one text.
pub fn join(list: &Vec<String>, sep: &str) -> (r: String)
    ensures
        r@ == joined(texts(list@), sep@),
{
    let mut out = String::new();
    let mut i: usize = 0;
    let ghost all = texts(list@);
    while i < list.len()
        invariant
            i <= list@.len(),
            all == texts(list@),
            out@ == joined(all.take(i as int), sep@),
        decreases list@.len() - i,
    {
        assert(all.take(i + 1).drop_last() =~= all.take(i as int));
        if i > 0 {
            out.append(sep);
        }
        out.append(list[i].as_str());
        i = i + 1;
        assert(out@ =~= joined(all.take(i as int), sep@));
    }
    assert(all.take(i as int) =~= all);
    out
}

/// The parts of a text between its `c`.
pub open spec fn pieces(s: Seq<char>, c: char) -> Seq<Seq<char>>
    decreases s.len(),
{
    match cut_at(s, c) {
        Some(parts) => seq![parts.0] + pieces(parts.1, c),
        None => seq![s],
    }
}

/// A line without the carriage return that a line break may have before it.
pub open spec fn without_return(line: Seq<char>) -> Seq<char> {
    if line.len() > 0 && line.last() == '\r' {
        line.drop_last()
    } else {
        line
    }
}

/// The lines of a text. A line ends with a line feed, with or without a carriage
/// return before it; the last may lack its end.
pub open spec fn lines_of(s: Seq<char>) -> Seq<Seq<char>>
    decreases s.len(),
{
    if s.len() == 0 {
        Seq::empty()
    } else {
        match cut_at(s, '\n') {
            Some(parts) => seq![without_return(parts.0)] + lines_of(parts.1),
            None => seq![s],
        }
    }
}

/// Splits a text at each `c`.
pub fn split(s: &str, c: char) -> (r: Vec<String>)
    ensures
        texts(r@) == pieces(s@, c),
{
    let chars = chars_of(s);
    let end: usize = chars.len();
    let mut out: Vec<String> = Vec::new();
    let mut from: usize = 0;
    assert(s@.skip(0) =~= s@);
    assert(texts(out@) + pieces(s@, c) =~= pieces(s@, c));
    loop
        invariant
            chars@ == s@,
            end == chars@.len(),
            from <= end,
            pieces(s@, c) == texts(out@) + pieces(s@.skip(from as int), c),
        decreases end - from,
    {
        let ghost rest = s@.skip(from as int);
        let ghost before = texts(out@);
        match place_of(&chars, from, c) {
            Some(i) => {
                let piece = s.substring_char(from, i).to_owned();
                out.push(piece);
                proof {
                    lemma_cut_at(rest, c, i - from);
                    assert(piece@ =~= rest.take(i - from));
                    assert(rest.skip(i - from + 1) =~= s@.skip(i + 1));
                    assert(texts(out@) =~= before.push(piece@));
                    assert(before + (seq![piece@] + pieces(s@.skip(i + 1), c)) =~= texts(out@)
                        + pieces(s@.skip(i + 1), c));
                }
                from = i + 1;
            },
            None => {
                let piece = s.substring_char(from, end).to_owned();
                out.push(piece);
                proof {
                    lemma_cut_at_none(rest, c);
                    assert(piece@ =~= rest);
                    assert(texts(out@) =~= before + seq![rest]);
                }
                return out;
            },
        }
    }
}

/// Splits a text into its lines.
pub fn lines(s: &str) -> (r: Vec<String>)
    ensures
        texts(r@) == lines_of(s@),
{
    let chars = chars_of(s);
    let end: usize = chars.len();
    let mut out: Vec<String> = Vec::new();
    let mut from: usize = 0;
    assert(s@.skip(0) =~= s@);
    assert(texts(out@) + lines_of(s@) =~= lines_of(s@));
    while from < end
        invariant
            chars@ == s@,
            end == chars@.len(),
            from <= end,
            lines_of(s@) == texts(out@) + lines_of(s@.skip(from as int)),
        decreases end - from,
    {
        let ghost rest = s@.skip(from as int);
        let ghost before = texts(out@);
        match place_of(&chars, from, '\n') {
            Some(i) => {
                let to: usize = if from < i && chars[i - 1] == '\r' {
                    i - 1
                } else {
                    i
                };
                let line = s.substring_char(from, to).to_owned();
                out.push(line);
                proof {
                    lemma_cut_at(rest, '\n', i - from);
                    assert(line@ =~= without_return(rest.take(i - from)));
                    assert(rest.skip(i - from + 1) =~= s@.skip(i + 1));
                    assert(texts(out@) =~= before.push(line@));
                    assert(before + (seq![line@] + lines_of(s@.skip(i + 1))) =~= texts(out@)
                        + lines_of(s@.skip(i + 1)));
                }
                from = i + 1;
            },
            None => {
                let line = s.substring_char(from, end).to_owned();
                out.push(line);
                proof {
                    lemma_cut_at_none(rest, '\n');
                    assert(line@ =~= rest);
                    assert(texts(out@) =~= before + seq![rest]);
                }
                return out;
            },
        }
    }
    assert(s@.skip(from as int).len() == 0);
    assert(texts(out@) + lines_of(s@.skip(from as int)) =~= texts(out@));
    out
}

/// `a` comes before `b` in the order of their characters' code points.
pub open spec fn precedes(a: Seq<char>, b: Seq<char>) -> bool
    decreases a.len(),
{
    if b.len() == 0 {
        false
    } else if a.len() == 0 {
        true
    } else if a.first() != b.first() {
        a.first() < b.first()
    } else {
        precedes(a.drop_first(), b.drop_first())
    }
}

/// `a` is `b` or comes before it.
pub open spec fn at_most(a: Seq<char>, b: Seq<char>) -> bool {
    !precedes(b, a)
}

/// The order of texts, as a relation.
pub open spec fn text_order() -> spec_fn(Seq<char>, Seq<char>) -> bool {
    |a: Seq<char>, b: Seq<char>| at_most(a, b)
}

/// A list in order.
pub open spec fn in_order(list: Seq<Seq<char>>) -> bool {
    sorted_by(list, text_order())
}

/// The texts of a list, put in order.
pub open spec fn sorted_texts(list: Seq<Seq<char>>) -> Seq<Seq<char>> {
    list.sort_by(text_order())
}

proof fn lemma_precedes_total(a: Seq<char>, b: Seq<char>)
    ensures
        a == b ==> !precedes(a, b),
        a != b ==> precedes(a, b) != precedes(b, a),
    decreases a.len(),
{
    if a.len() > 0 && b.len() > 0 && a.first() == b.first() {
        lemma_precedes_total(a.drop_first(), b.drop_first());
        if a.drop_first() == b.drop_first() {
            assert(a =~= seq![a.first()] + a.drop_first());
            assert(b =~= seq![b.first()] + b.drop_first());
        }
    } else if a.len() == 0 && b.len() == 0 {
        assert(a =~= b);
    }
}

proof fn lemma_precedes_transitive(a: Seq<char>, b: Seq<char>, c: Seq<char>)
    requires
        precedes(a, b),
        precedes(b, c),
    ensures
        precedes(a, c),
    decreases a.len(),
{
    if a.len() > 0 && a.first() == b.first() && b.first() == c.first() {
        lemma_precedes_transitive(a.drop_first(), b.drop_first(), c.drop_first());
    }
}

/// The order of texts is total: any two texts stand in one order, and only equal
/// texts stand in both.
pub proof fn lemma_text_order_total()
    ensures
        total_ordering(text_order()),
{
    let r = text_order();
    assert forall|a: Seq<char>| #[trigger] r(a, a) by {
        lemma_precedes_total(a, a);
    }
    assert forall|a: Seq<char>, b: Seq<char>| #[trigger] r(a, b) && #[trigger] r(b, a) implies a
        == b by {
        lemma_precedes_total(a, b);
    }
    assert forall|a: Seq<char>, b: Seq<char>| #[trigger] r(a, b) || #[trigger] r(b, a) by {
        lemma_precedes_total(a, b);
    }
    assert forall|a: Seq<char>, b: Seq<char>, c: Seq<char>| #[trigger]
        r(a, b) && #[trigger] r(b, c) implies r(a, c) by {
        lemma_precedes_total(a, b);
        lemma_precedes_total(b, c);
        lemma_precedes_total(a, c);
        if a != b && b != c {
            lemma_precedes_transitive(a, b, c);
        }
    }
}

/// A list put in order is in order and holds the same texts, each as often.
pub proof fn lemma_sorted_texts(list: Seq<Seq<char>>)
    ensures
        in_order(sorted_texts(list)),
        sorted_texts(list).to_multiset() == list.to_multiset(),
        sorted_texts(list).len() == list.len(),
        forall|x: Seq<char>| sorted_texts(list).contains(x) <==> list.contains(x),
{
    broadcast use group_to_multiset_ensures;

    lemma_text_order_total();
    list.lemma_sort_by_ensures(text_order());
    assert(sorted_texts(list).to_multiset().len() == list.to_multiset().len());
    assert forall|x: Seq<char>| sorted_texts(list).contains(x) <==> list.contains(x) by {
        assert(sorted_texts(list).to_multiset().count(x) == list.to_multiset().count(x));
    }
}

/// A list in order that holds the texts of another is that other, put in order.
pub proof fn lemma_sorted_texts_unique(list: Seq<Seq<char>>, sorted: Seq<Seq<char>>)
    requires
        in_order(sorted),
        sorted.to_multiset() == list.to_multiset(),
    ensures
        sorted == sorted_texts(list),
{
    lemma_text_order_total();
    lemma_sorted_texts(list);
    lemma_sorted_unique(sorted, sorted_texts(list), text_order());
}

/// Whether one text comes before another.
pub fn less(a: &str, b: &str) -> (r: bool)
    ensures
        r == precedes(a@, b@),
{
    let left = chars_of(a);
    let right = chars_of(b);
    let mut i: usize = 0;
    assert(a@.skip(0) =~= a@);
    assert(b@.skip(0) =~= b@);
    while i < left.len() && i < right.len()
        invariant
            left@ == a@,
            right@ == b@,
            i <= left@.len(),
            i <= right@.len(),
            precedes(a@, b@) == precedes(a@.skip(i as int), b@.skip(i as int)),
        decreases left@.len() - i,
    {
        if left[i] != right[i] {
            return left[i] < right[i];
        }
        assert(a@.skip(i as int).drop_first() =~= a@.skip(i + 1));
        assert(b@.skip(i as int).drop_first() =~= b@.skip(i + 1));
        i = i + 1;
    }
    i < right.len()
}

/// Puts a text into a list in order, at its place.
pub fn insert_in_order(list: &mut Vec<String>, s: String)
    requires
        in_order(texts(old(list)@)),
    ensures
        in_order(texts(final(list)@)),
        texts(final(list)@).to_multiset() == texts(old(list)@).to_multiset().insert(s@),
{
    broadcast use group_to_multiset_ensures;

    let ghost before = texts(list@);
    let ghost text = s@;
    let mut i: usize = 0;
    while i < list.len() && !less(s.as_str(), list[i].as_str())
        invariant
            i <= list@.len(),
            before == texts(list@),
            text == s@,
            forall|j: int| 0 <= j < i ==> at_most(#[trigger] before[j], text),
        decreases list@.len() - i,
    {
        assert(before[i as int] == list@[i as int]@);
        i = i + 1;
    }
    assert(i < before.len() ==> precedes(text, before[i as int]));
    list.insert(i, s);
    proof {
        let after = texts(list@);
        assert(after =~= before.insert(i as int, text));
        lemma_text_order_total();
        let r = text_order();
        assert forall|j: int, k: int| 0 <= j < k < after.len() implies #[trigger] r(
            after[j],
            after[k],
        ) by {
            if j < i && k == i {
                assert(at_most(before[j], text));
            } else if j == i {
                lemma_precedes_total(text, before[i as int]);
                assert(r(text, before[i as int]));
                if k > i + 1 {
                    assert(r(before[i as int], before[k - 1]));
                }
            } else if j < i && k < i {
                assert(r(before[j], before[k]));
            } else if j < i {
                assert(r(before[j], before[k - 1]));
            } else {
                assert(r(before[j - 1], before[k - 1]));
            }
        }
    }
}

/// Puts a list in order.
pub fn sort(list: &mut Vec<String>)
    ensures
        texts(final(list)@) == sorted_texts(texts(old(list)@)),
        in_order(texts(final(list)@)),
        texts(final(list)@).to_multiset() == texts(old(list)@).to_multiset(),
{
    broadcast use group_to_multiset_ensures;

    let ghost all = texts(list@);
    let mut out: Vec<String> = Vec::new();
    assert(texts(out@).to_multiset() =~= vstd::multiset::Multiset::empty());
    while list.len() > 0
        invariant
            in_order(texts(out@)),
            texts(list@).to_multiset().add(texts(out@).to_multiset()) =~= all.to_multiset(),
        decreases list@.len(),
    {
        let ghost rest = texts(list@);
        if let Some(s) = list.pop() {
            let ghost kept = texts(out@).to_multiset();
            proof {
                assert(rest =~= texts(list@).push(s@));
                to_multiset_build(texts(list@), s@);
            }
            insert_in_order(&mut out, s);
            assert(texts(list@).to_multiset().add(kept.insert(s@)) =~= texts(
                list@,
            ).to_multiset().insert(s@).add(kept));
        }
    }
    proof {
        assert(texts(list@) =~= Seq::<Seq<char>>::empty());
        assert(texts(out@).to_multiset() =~= all.to_multiset());
        lemma_sorted_texts_unique(all, texts(out@));
    }
    *list = out;
}

} // verus!
