//! Character-level building blocks: text is modelled as `Seq<char>`, the view
//! of `str` and `String`.

use vstd::prelude::*;
use vstd::utf8::encode_scalar;
use vstd::utf8::encode_utf8;

verus! {

/// A run of `n` space characters.
pub open spec fn spaces(n: nat) -> Seq<char> {
    Seq::new(n, |i: int| ' ')
}

/// The number of bytes that `s` occupies when encoded as UTF-8.
pub open spec fn byte_len(s: Seq<char>) -> nat {
    encode_utf8(s).len()
}

/// Every character takes at least one byte, so a text is never longer in
/// characters than in bytes.
pub proof fn lemma_byte_len_covers_chars(s: Seq<char>)
    ensures
        s.len() <= byte_len(s),
    decreases s.len(),
{
    if s.len() > 0 {
        lemma_byte_len_covers_chars(s.drop_first());
        assert(encode_scalar(s[0] as u32).len() >= 1);
    }
}

/// The characters of `s`, in order.
pub fn chars_of(s: &str) -> (v: Vec<char>)
    ensures
        v@ == s@,
{
    let mut v: Vec<char> = Vec::new();
    for c in it: s.chars()
        invariant
            it.seq() == s@,
            v@ == s@.take(it.index() as int),
    {
        v.push(c);
    }
    v
}

/// Whether `c` occurs anywhere in `s`.
pub fn contains_char(s: &str, c: char) -> (found: bool)
    ensures
        found == s@.contains(c),
{
    let v = chars_of(s);
    let mut i: usize = 0;
    while i < v.len()
        invariant
            i <= v.len(),
            v@ == s@,
            forall|j: int| 0 <= j < i ==> s@[j] != c,
        decreases v.len() - i,
    {
        if v[i] == c {
            return true;
        }
        i += 1;
    }
    false
}

/// Whether two string slices hold the same text.
pub fn same_text(a: &str, b: &str) -> (same: bool)
    ensures
        same == (a@ == b@),
{
    let x = chars_of(a);
    let y = chars_of(b);
    if x.len() != y.len() {
        return false;
    }
    let mut i: usize = 0;
    while i < x.len()
        invariant
            i <= x.len(),
            x.len() == y.len(),
            x@ == a@,
            y@ == b@,
            forall|j: int| 0 <= j < i ==> a@[j] == b@[j],
        decreases x.len() - i,
    {
        if x[i] != y[i] {
            return false;
        }
        i += 1;
    }
    assert(a@ =~= b@);
    true
}

/// `cell` followed by as many spaces as it takes to reach `width` characters;
/// a cell that is already that long is left as it is.
pub open spec fn padded(cell: Seq<char>, width: nat) -> Seq<char> {
    if cell.len() >= width {
        cell
    } else {
        cell + spaces((width - cell.len()) as nat)
    }
}

/// Pads `cell` on the right with spaces to `width` characters.
pub fn pad(cell: &str, width: usize) -> (out: String)
    ensures
        out@ == padded(cell@, width as nat),
{
    let mut out = cell.to_owned();
    let have = cell.unicode_len();
    if have >= width {
        return out;
    }
    let mut n: usize = have;
    while n < width
        invariant
            have <= n <= width,
            have == cell@.len(),
            out@ == cell@ + spaces((n - have) as nat),
        decreases width - n,
    {
        proof {
            reveal_strlit(" ");
            assert(spaces((n - have) as nat) + " "@ =~= spaces((n + 1 - have) as nat));
        }
        out.append(" ");
        n += 1;
    }
    out
}

/// Whether `c` is white space: a character with Unicode's `White_Space`
/// property.
pub open spec fn is_white_space(c: char) -> bool {
    let u = c as u32;
    ||| 0x09 <= u <= 0x0d
    ||| u == 0x20
    ||| u == 0x85
    ||| u == 0xa0
    ||| u == 0x1680
    ||| 0x2000 <= u <= 0x200a
    ||| u == 0x2028
    ||| u == 0x2029
    ||| u == 0x202f
    ||| u == 0x205f
    ||| u == 0x3000
}

/// Tests a character for white space.
pub fn white_space(c: char) -> (b: bool)
    ensures
        b == is_white_space(c),
{
    let u: u32 = c as u32;
    (0x09 <= u && u <= 0x0d) || u == 0x20 || u == 0x85 || u == 0xa0 || u == 0x1680 || (0x2000 <= u
        && u <= 0x200a) || u == 0x2028 || u == 0x2029 || u == 0x202f || u == 0x205f || u == 0x3000
}

/// `s` without its leading white space.
pub open spec fn trimmed_start(s: Seq<char>) -> Seq<char>
    decreases s.len(),
{
    if s.len() > 0 && is_white_space(s[0]) {
        trimmed_start(s.drop_first())
    } else {
        s
    }
}

/// `s` without its trailing white space.
pub open spec fn trimmed_end(s: Seq<char>) -> Seq<char>
    decreases s.len(),
{
    if s.len() > 0 && is_white_space(s.last()) {
        trimmed_end(s.drop_last())
    } else {
        s
    }
}

/// `s` without its leading and trailing white space.
pub open spec fn trimmed(s: Seq<char>) -> Seq<char> {
    trimmed_end(trimmed_start(s))
}

/// Neither end of `s` is white space (an empty text qualifies).
pub open spec fn is_trimmed(s: Seq<char>) -> bool {
    s.len() > 0 ==> !is_white_space(s[0]) && !is_white_space(s.last())
}

/// Trimming the start leaves a suffix of the text that does not begin with
/// white space.
pub proof fn lemma_trimmed_start(s: Seq<char>)
    ensures
        trimmed_start(s).len() <= s.len(),
        trimmed_start(s) == s.skip(s.len() - trimmed_start(s).len()),
        trimmed_start(s).len() > 0 ==> !is_white_space(trimmed_start(s)[0]),
    decreases s.len(),
{
    if s.len() > 0 && is_white_space(s[0]) {
        let rest = s.drop_first();
        lemma_trimmed_start(rest);
        assert(rest.skip(rest.len() - trimmed_start(rest).len()) =~= s.skip(
            s.len() - trimmed_start(rest).len(),
        ));
    } else {
        assert(s.skip(0) =~= s);
    }
}

/// Trimming the end leaves a prefix of the text that does not end with white
/// space.
pub proof fn lemma_trimmed_end(s: Seq<char>)
    ensures
        trimmed_end(s).len() <= s.len(),
        trimmed_end(s) == s.take(trimmed_end(s).len() as int),
        trimmed_end(s).len() > 0 ==> !is_white_space(trimmed_end(s).last()),
    decreases s.len(),
{
    if s.len() > 0 && is_white_space(s.last()) {
        let rest = s.drop_last();
        lemma_trimmed_end(rest);
        assert(rest.take(trimmed_end(rest).len() as int) =~= s.take(
            trimmed_end(rest).len() as int,
        ));
    } else {
        assert(s.take(s.len() as int) =~= s);
    }
}

/// What trimming returns has no white space at either end.
pub proof fn lemma_trimmed_is_trimmed(s: Seq<char>)
    ensures
        is_trimmed(trimmed(s)),
{
    let a = trimmed_start(s);
    lemma_trimmed_start(s);
    lemma_trimmed_end(a);
}

/// Trimming changes nothing in a text that has no white space at either end.
pub proof fn lemma_trimmed_keeps_trimmed(s: Seq<char>)
    requires
        is_trimmed(s),
    ensures
        trimmed(s) == s,
{
}

/// Removes leading and trailing white space.
pub fn trim<'a>(s: &'a str) -> (r: &'a str)
    ensures
        r@ == trimmed(s@),
{
    let v = chars_of(s);
    let mut start: usize = 0;
    assert(s@.skip(0) =~= s@);
    while start < v.len() && white_space(v[start])
        invariant
            start <= v.len(),
            v@ == s@,
            trimmed_start(s@) == trimmed_start(s@.skip(start as int)),
        decreases v.len() - start,
    {
        assert(s@.skip(start as int).drop_first() =~= s@.skip(start + 1));
        start += 1;
    }
    assert(trimmed_start(s@) == s@.skip(start as int));
    let mut end: usize = v.len();
    assert(s@.subrange(start as int, end as int) =~= s@.skip(start as int));
    while end > start && white_space(v[end - 1])
        invariant
            start <= end <= v.len(),
            v@ == s@,
            trimmed(s@) == trimmed_end(s@.subrange(start as int, end as int)),
        decreases end,
    {
        assert(s@.subrange(start as int, end as int).drop_last() =~= s@.subrange(
            start as int,
            end - 1,
        ));
        end -= 1;
    }
    s.substring_char(start, end)
}

/// Removes trailing white space.
pub fn trim_end<'a>(s: &'a str) -> (r: &'a str)
    ensures
        r@ == trimmed_end(s@),
{
    let v = chars_of(s);
    let mut end: usize = v.len();
    assert(s@.take(end as int) =~= s@);
    while end > 0 && white_space(v[end - 1])
        invariant
            end <= v.len(),
            v@ == s@,
            trimmed_end(s@) == trimmed_end(s@.take(end as int)),
        decreases end,
    {
        assert(s@.take(end as int).drop_last() =~= s@.take(end - 1));
        end -= 1;
    }
    s.substring_char(0, end)
}

/// Appends one text to a list of texts.
pub fn push_text(list: &mut Vec<String>, item: String)
    ensures
        final(list).deep_view() == old(list).deep_view().push(item@),
{
    let ghost before = list.deep_view();
    let ghost text = item@;
    list.push(item);
    assert(list.deep_view() =~= before.push(text));
}

/// Appends one row to a table of texts.
pub fn push_row(table: &mut Vec<Vec<String>>, row: Vec<String>)
    ensures
        final(table).deep_view() == old(table).deep_view().push(row.deep_view()),
{
    let ghost before = table.deep_view();
    let ghost cells = row.deep_view();
    table.push(row);
    assert(table.deep_view() =~= before.push(cells));
}

} // verus!
