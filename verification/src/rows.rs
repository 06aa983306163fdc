//! Splitting a reply into lines and a line into tab-separated fields.

use crate::format::joined;
use crate::text::chars_of;
use vstd::prelude::*;

verus! {

/// The index of the first `c` in `s`, or the length of `s` when it holds none.
pub open spec fn first_index(s: Seq<char>, c: char) -> int
    decreases s.len(),
{
    if s.len() == 0 || s[0] == c {
        0
    } else {
        1 + first_index(s.drop_first(), c)
    }
}

/// `first_index` is the position before which no `c` occurs and at which
/// one does, or the text ends.
pub proof fn lemma_first_index(s: Seq<char>, c: char, k: int)
    requires
        0 <= k <= s.len(),
        forall|j: int| 0 <= j < k ==> s[j] != c,
        k < s.len() ==> s[k] == c,
    ensures
        first_index(s, c) == k,
    decreases k,
{
    if k > 0 {
        lemma_first_index(s.drop_first(), c, k - 1);
    }
}

/// The pieces of `s` between occurrences of `sep`. There is always at least
/// one piece; `n` separators give `n + 1` pieces, some of which may be empty.
pub open spec fn split_on(s: Seq<char>, sep: char) -> Seq<Seq<char>>
    decreases s.len(),
{
    let i = first_index(s, sep);
    if 0 <= i < s.len() {
        seq![s.take(i)] + split_on(s.skip(i + 1), sep)
    } else {
        seq![s]
    }
}

/// The first piece of a split is what precedes the first separator.
pub proof fn lemma_split_first(s: Seq<char>, sep: char)
    ensures
        split_on(s, sep).len() >= 1,
        split_on(s, sep)[0] == s.take(first_index(s, sep)),
        0 <= first_index(s, sep) <= s.len(),
{
    lemma_first_index_in_range(s, sep);
    let i = first_index(s, sep);
    if !(0 <= i < s.len()) {
        assert(s.take(i) =~= s);
    }
}

/// `first_index` lies within the text or at its end.
pub proof fn lemma_first_index_in_range(s: Seq<char>, c: char)
    ensures
        0 <= first_index(s, c) <= s.len(),
        forall|j: int| 0 <= j < first_index(s, c) ==> s[j] != c,
        first_index(s, c) < s.len() ==> s[first_index(s, c)] == c,
    decreases s.len(),
{
    if !(s.len() == 0 || s[0] == c) {
        let rest = s.drop_first();
        lemma_first_index_in_range(rest, c);
        assert forall|j: int| 0 <= j < first_index(s, c) implies s[j] != c by {
            if j > 0 {
                assert(rest[j - 1] == s[j]);
            }
        }
    }
}

/// No piece of a split holds the separator.
pub proof fn lemma_split_pieces_hold_no_separator(s: Seq<char>, sep: char)
    ensures
        forall|k: int|
            0 <= k < split_on(s, sep).len() ==> !(#[trigger] split_on(s, sep)[k]).contains(sep),
    decreases s.len(),
{
    lemma_first_index_in_range(s, sep);
    let i = first_index(s, sep);
    if 0 <= i < s.len() {
        let rest = split_on(s.skip(i + 1), sep);
        lemma_split_pieces_hold_no_separator(s.skip(i + 1), sep);
        assert forall|k: int| 0 <= k < split_on(s, sep).len() implies !(#[trigger] split_on(
            s,
            sep,
        )[k]).contains(sep) by {
            if k > 0 {
                assert(split_on(s, sep)[k] == rest[k - 1]);
            }
        }
    }
}

/// Joining a piece and further pieces puts the separator after the piece.
pub proof fn lemma_joined_first(first: Seq<char>, rest: Seq<Seq<char>>, sep: Seq<char>)
    requires
        rest.len() > 0,
    ensures
        joined(seq![first] + rest, sep) == first + sep + joined(rest, sep),
    decreases rest.len(),
{
    let all = seq![first] + rest;
    let front = rest.drop_last();
    assert(all.len() == rest.len() + 1);
    assert(all.drop_last() =~= seq![first] + front);
    assert(all.last() == rest.last());
    assert(joined(all, sep) == joined(all.drop_last(), sep) + sep + rest.last());
    if rest.len() == 1 {
        assert(all.drop_last() =~= seq![first]);
        assert(seq![first].len() == 1);
        assert(joined(seq![first], sep) == first);
        assert(joined(rest, sep) == rest.last());
    } else {
        lemma_joined_first(first, front, sep);
        assert(joined(rest, sep) == joined(front, sep) + sep + rest.last());
        assert(first + sep + joined(front, sep) + sep + rest.last() =~= first + sep + (joined(
            front,
            sep,
        ) + sep + rest.last()));
    }
}

/// Splitting loses nothing: the pieces, joined with the separator, are the
/// text that was split.
pub proof fn lemma_split_joins_back(s: Seq<char>, sep: char)
    ensures
        joined(split_on(s, sep), seq![sep]) == s,
    decreases s.len(),
{
    lemma_first_index_in_range(s, sep);
    let i = first_index(s, sep);
    if 0 <= i < s.len() {
        let tail = s.skip(i + 1);
        lemma_split_joins_back(tail, sep);
        lemma_split_first(tail, sep);
        lemma_joined_first(s.take(i), split_on(tail, sep), seq![sep]);
        assert(s.take(i) + seq![sep] + tail =~= s);
    }
}

/// Splits `line` at every `sep`.
pub fn split_fields(line: &str, sep: char) -> (fields: Vec<String>)
    ensures
        fields.deep_view() == split_on(line@, sep),
        fields.len() >= 1,
{
    let v = chars_of(line);
    let mut fields: Vec<String> = Vec::new();
    let mut start: usize = 0;
    let mut i: usize = 0;
    assert(line@.skip(0) =~= line@);
    assert(fields.deep_view() + split_on(line@, sep) =~= split_on(line@, sep));
    while i < v.len()
        invariant
            start <= i <= v.len(),
            v@ == line@,
            forall|j: int| start <= j < i ==> line@[j] != sep,
            split_on(line@, sep) == fields.deep_view() + split_on(line@.skip(start as int), sep),
        decreases v.len() - i,
    {
        if v[i] == sep {
            let piece = line.substring_char(start, i).to_owned();
            proof {
                let rest = line@.skip(start as int);
                lemma_first_index(rest, sep, i - start);
                assert(rest.take(i - start) =~= line@.subrange(start as int, i as int));
                assert(rest.skip(i - start + 1) =~= line@.skip(i + 1));
                assert(fields.deep_view().push(piece@) + split_on(line@.skip(i + 1), sep)
                    =~= fields.deep_view() + split_on(rest, sep));
            }
            let ghost before = fields.deep_view();
            fields.push(piece);
            assert(fields.deep_view() =~= before.push(piece@));
            start = i + 1;
        }
        i += 1;
    }
    let piece = line.substring_char(start, i).to_owned();
    proof {
        let rest = line@.skip(start as int);
        lemma_first_index(rest, sep, i - start);
        assert(rest =~= line@.subrange(start as int, i as int));
        assert(fields.deep_view().push(piece@) =~= fields.deep_view() + split_on(rest, sep));
    }
    let ghost before = fields.deep_view();
    fields.push(piece);
    assert(fields.deep_view() =~= before.push(piece@));
    fields
}

/// `line` without the carriage return that may end it.
pub open spec fn without_cr(line: Seq<char>) -> Seq<char> {
    if line.len() > 0 && line.last() == '\r' {
        line.drop_last()
    } else {
        line
    }
}

/// The lines of `s`. A line ends at a line feed, or at a carriage return
/// directly followed by one; the ending is not part of the line. What follows
/// the last line feed is a line of its own unless it is empty, so a final line
/// ending adds no empty line, and the empty text has no lines. A carriage
/// return that no line feed follows stays in its line.
pub open spec fn lines_of(s: Seq<char>) -> Seq<Seq<char>>
    decreases s.len(),
{
    let i = first_index(s, '\n');
    if s.len() == 0 {
        Seq::empty()
    } else if 0 <= i < s.len() {
        seq![without_cr(s.take(i))] + lines_of(s.skip(i + 1))
    } else {
        seq![s]
    }
}

/// No line holds a line feed.
pub proof fn lemma_lines_hold_no_line_feed(s: Seq<char>)
    ensures
        forall|k: int| 0 <= k < lines_of(s).len() ==> !(#[trigger] lines_of(s)[k]).contains('\n'),
    decreases s.len(),
{
    lemma_first_index_in_range(s, '\n');
    let i = first_index(s, '\n');
    if s.len() > 0 && 0 <= i < s.len() {
        let rest = lines_of(s.skip(i + 1));
        lemma_lines_hold_no_line_feed(s.skip(i + 1));
        assert forall|k: int| 0 <= k < lines_of(s).len() implies !(#[trigger] lines_of(
            s,
        )[k]).contains('\n') by {
            if k > 0 {
                assert(lines_of(s)[k] == rest[k - 1]);
            }
        }
    }
}

/// Splits `text` into its lines.
pub fn lines(text: &str) -> (out: Vec<String>)
    ensures
        out.deep_view() == lines_of(text@),
{
    let v = chars_of(text);
    let mut out: Vec<String> = Vec::new();
    let mut start: usize = 0;
    let mut i: usize = 0;
    assert(text@.skip(0) =~= text@);
    assert(out.deep_view() + lines_of(text@) =~= lines_of(text@));
    while i < v.len()
        invariant
            start <= i <= v.len(),
            v@ == text@,
            forall|j: int| start <= j < i ==> text@[j] != '\n',
            lines_of(text@) == out.deep_view() + lines_of(text@.skip(start as int)),
        decreases v.len() - i,
    {
        if v[i] == '\n' {
            let end: usize = if i > start && v[i - 1] == '\r' {
                i - 1
            } else {
                i
            };
            let piece = text.substring_char(start, end).to_owned();
            proof {
                let rest = text@.skip(start as int);
                lemma_first_index(rest, '\n', i - start);
                assert(rest.take(i - start) =~= text@.subrange(start as int, i as int));
                assert(without_cr(text@.subrange(start as int, i as int)) =~= text@.subrange(
                    start as int,
                    end as int,
                ));
                assert(rest.skip(i - start + 1) =~= text@.skip(i + 1));
                assert(out.deep_view().push(piece@) + lines_of(text@.skip(i + 1))
                    =~= out.deep_view() + lines_of(rest));
            }
            let ghost before = out.deep_view();
            out.push(piece);
            assert(out.deep_view() =~= before.push(piece@));
            start = i + 1;
        }
        i += 1;
    }
    if start < i {
        let piece = text.substring_char(start, i).to_owned();
        proof {
            let rest = text@.skip(start as int);
            lemma_first_index(rest, '\n', i - start);
            assert(rest =~= text@.subrange(start as int, i as int));
            assert(out.deep_view().push(piece@) =~= out.deep_view() + lines_of(rest));
        }
        let ghost before = out.deep_view();
        out.push(piece);
        assert(out.deep_view() =~= before.push(piece@));
    } else {
        assert(out.deep_view() + lines_of(text@.skip(start as int)) =~= out.deep_view());
    }
    out
}

} // verus!
