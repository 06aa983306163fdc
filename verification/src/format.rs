//! The tabular formatter: truncation of over-long cells and alignment of
//! ragged tables into lines of text.

use crate::text::byte_len;
use crate::text::lemma_byte_len_covers_chars;
use crate::text::pad;
use crate::text::padded;
use crate::text::spaces;
use vstd::prelude::*;

verus! {

/// Longest session or window name that a listing shows in full.
pub const MAX_NAME_LEN: usize = 20;

/// Longest command name that a listing shows in full.
pub const MAX_CMD_LEN: usize = 16;

/// The marker that replaces the cut-off tail of a truncated text.
pub open spec fn ellipsis() -> Seq<char> {
    seq!['.', '.', '.']
}

/// `s` cut down to `max` characters: a text that fits is unchanged, a longer
/// one keeps its first `max - 3` characters (none when `max < 3`) and ends in
/// the ellipsis.
pub open spec fn truncated(s: Seq<char>, max: nat) -> Seq<char> {
    if s.len() <= max {
        s
    } else if max >= 3 {
        s.take(max - 3) + ellipsis()
    } else {
        ellipsis()
    }
}

/// Shortens `s` to at most `max` characters, counted as characters and not as
/// bytes, marking the cut with `...`.
pub fn truncate(s: &str, max: usize) -> (out: String)
    ensures
        out@ == truncated(s@, max as nat),
        s@.len() <= max ==> out@ == s@,
        s@.len() > max >= 3 ==> out@ == s@.take(max - 3) + ellipsis() && out@.len() == max,
        s@.len() > max && max < 3 ==> out@ == ellipsis(),
        max >= 3 ==> out@.len() <= max,
{
    let n = s.unicode_len();
    if n <= max {
        s.to_owned()
    } else {
        let keep: usize = if max >= 3 {
            max - 3
        } else {
            0
        };
        let mut out = s.substring_char(0, keep).to_owned();
        proof {
            reveal_strlit("...");
            assert("..."@ =~= ellipsis());
            assert(s@.subrange(0, 0) + ellipsis() =~= ellipsis());
        }
        out.append("...");
        out
    }
}

/// `parts` written one after another with `sep` between neighbours.
pub open spec fn joined(parts: Seq<Seq<char>>, sep: Seq<char>) -> Seq<char>
    decreases parts.len(),
{
    if parts.len() == 0 {
        Seq::empty()
    } else if parts.len() == 1 {
        parts[0]
    } else {
        joined(parts.drop_last(), sep) + sep + parts.last()
    }
}

/// Concatenates `parts`, putting `sep` between neighbours.
pub fn join(parts: &Vec<String>, sep: &str) -> (out: String)
    ensures
        out@ == joined(parts.deep_view(), sep@),
{
    let mut out = String::new();
    let mut i: usize = 0;
    while i < parts.len()
        invariant
            i <= parts.len(),
            out@ == joined(parts.deep_view().take(i as int), sep@),
        decreases parts.len() - i,
    {
        proof {
            let before = parts.deep_view().take(i as int);
            let after = parts.deep_view().take(i + 1);
            assert(after.drop_last() =~= before);
            assert(after.last() == parts[i as int]@);
            if i == 0 {
                assert(out@ + parts[i as int]@ =~= parts[i as int]@);
            }
        }
        if i > 0 {
            out.append(sep);
        }
        out.append(parts[i].as_str());
        i += 1;
    }
    assert(parts.deep_view().take(i as int) =~= parts.deep_view());
    out
}

/// The width of column `col`: the largest byte length of a cell at that index,
/// taken over the rows that reach so far; 0 when no row does.
pub open spec fn column_width(rows: Seq<Seq<Seq<char>>>, col: int) -> nat
    decreases rows.len(),
{
    if rows.len() == 0 {
        0
    } else {
        let rest = column_width(rows.drop_last(), col);
        let row = rows.last();
        if 0 <= col < row.len() && byte_len(row[col]) > rest {
            byte_len(row[col])
        } else {
            rest
        }
    }
}

/// Cell `c` of row `r` as it is printed: padded to its column's width, except
/// for the last cell of its row, which is printed as it is.
pub open spec fn aligned_cell(rows: Seq<Seq<Seq<char>>>, r: int, c: int) -> Seq<char> {
    if c + 1 < rows[r].len() {
        padded(rows[r][c], column_width(rows, c))
    } else {
        rows[r][c]
    }
}

/// The printed cells of row `r`.
pub open spec fn aligned_cells(rows: Seq<Seq<Seq<char>>>, r: int) -> Seq<Seq<char>> {
    Seq::new(rows[r].len(), |c: int| aligned_cell(rows, r, c))
}

/// The separator between two columns.
pub open spec fn column_gap() -> Seq<char> {
    seq![' ', ' ']
}

/// Row `r` as a line of text.
pub open spec fn aligned_line(rows: Seq<Seq<Seq<char>>>, r: int) -> Seq<char> {
    joined(aligned_cells(rows, r), column_gap())
}

/// The table as lines of text, one per row.
pub open spec fn aligned(rows: Seq<Seq<Seq<char>>>) -> Seq<Seq<char>> {
    Seq::new(rows.len(), |r: int| aligned_line(rows, r))
}

/// A column's width is an upper bound on the byte length of each of its
/// cells, and some cell reaches it unless the width is 0.
pub proof fn lemma_column_width_is_max(rows: Seq<Seq<Seq<char>>>, col: int)
    ensures
        forall|r: int|
            0 <= r < rows.len() && 0 <= col < rows[r].len() ==> byte_len(#[trigger] rows[r][col])
                <= column_width(rows, col),
        column_width(rows, col) > 0 ==> exists|r: int|
            0 <= r < rows.len() && 0 <= col < rows[r].len() && byte_len(#[trigger] rows[r][col])
                == column_width(rows, col),
    decreases rows.len(),
{
    if rows.len() > 0 {
        let front = rows.drop_last();
        lemma_column_width_is_max(front, col);
        assert forall|r: int| 0 <= r < rows.len() && 0 <= col < rows[r].len() implies byte_len(
            #[trigger] rows[r][col],
        ) <= column_width(rows, col) by {
            if r < front.len() {
                assert(front[r] == rows[r]);
            }
        }
        if column_width(rows, col) > 0 {
            if column_width(rows, col) == column_width(front, col) {
                let r = choose|r: int|
                    0 <= r < front.len() && 0 <= col < front[r].len() && byte_len(
                        #[trigger] front[r][col],
                    ) == column_width(front, col);
                assert(front[r] == rows[r]);
                assert(byte_len(rows[r][col]) == column_width(rows, col));
            } else {
                let r = rows.len() - 1;
                assert(byte_len(rows[r][col]) == column_width(rows, col));
            }
        }
    }
}

/// Every cell but the last of its row is printed exactly as wide as its
/// column: the cell itself, then spaces up to the column's width.
pub proof fn lemma_aligned_cell_fills_column(rows: Seq<Seq<Seq<char>>>, r: int, c: int)
    requires
        0 <= r < rows.len(),
        0 <= c,
        c + 1 < rows[r].len(),
    ensures
        aligned_cell(rows, r, c).len() == column_width(rows, c),
        aligned_cell(rows, r, c) == rows[r][c] + spaces(
            (column_width(rows, c) - rows[r][c].len()) as nat,
        ),
{
    lemma_column_width_is_max(rows, c);
    lemma_byte_len_covers_chars(rows[r][c]);
    assert(byte_len(rows[r][c]) <= column_width(rows, c));
    if rows[r][c].len() == column_width(rows, c) {
        assert(rows[r][c] + spaces(0) =~= rows[r][c]);
    }
}

/// A line ends with the last cell of its row, unpadded: nothing is printed
/// after it.
pub proof fn lemma_aligned_line_ends_with_last_cell(rows: Seq<Seq<Seq<char>>>, r: int)
    requires
        0 <= r < rows.len(),
        rows[r].len() > 0,
    ensures
        aligned_line(rows, r).len() >= rows[r].last().len(),
        aligned_line(rows, r).skip(aligned_line(rows, r).len() - rows[r].last().len())
            == rows[r].last(),
{
    let cells = aligned_cells(rows, r);
    let line = aligned_line(rows, r);
    let last = rows[r].last();
    assert(cells.last() == last);
    if cells.len() == 1 {
        assert(line.skip(0) =~= last);
    } else {
        let head = joined(cells.drop_last(), column_gap()) + column_gap();
        assert(line == head + last);
        assert((head + last).skip(head.len() as int) =~= last);
    }
}

/// Renders a table as aligned lines, one per row. Cells of a row are
/// separated by two spaces; each cell but the last of its row is padded with
/// spaces to the width of its column. Rows may differ in length: a column's
/// width takes in the rows that reach it. The width is the largest length
/// in bytes among the column's cells, and a cell is padded until it counts
/// that many characters, so cells of plain ASCII end level with the widest.
pub fn align_columns(rows: &[Vec<String>]) -> (lines: Vec<String>)
    ensures
        lines.deep_view() == aligned(rows.deep_view()),
        lines.len() == rows.len(),
{
    let ghost table = rows.deep_view();
    let mut col_count: usize = 0;
    let mut r: usize = 0;
    while r < rows.len()
        invariant
            r <= rows.len(),
            forall|k: int| 0 <= k < r ==> rows[k].len() <= col_count,
        decreases rows.len() - r,
    {
        if rows[r].len() > col_count {
            col_count = rows[r].len();
        }
        r += 1;
    }
    let mut widths: Vec<usize> = Vec::new();
    let mut c: usize = 0;
    while c < col_count
        invariant
            c <= col_count,
            widths.len() == c,
            forall|k: int| 0 <= k < c ==> widths[k] == 0,
        decreases col_count - c,
    {
        widths.push(0);
        c += 1;
    }
    r = 0;
    assert(table.take(0) =~= Seq::empty());
    while r < rows.len()
        invariant
            r <= rows.len(),
            table == rows.deep_view(),
            widths.len() == col_count,
            forall|k: int| 0 <= k < rows.len() ==> rows[k].len() <= col_count,
            forall|k: int|
                0 <= k < col_count ==> widths[k] == column_width(table.take(r as int), k),
        decreases rows.len() - r,
    {
        let row = &rows[r];
        let ghost done = table.take(r as int);
        let ghost next = table.take(r + 1);
        assert(next.drop_last() =~= done);
        assert(next.last() == table[r as int]);
        assert(table[r as int].len() == row.len());
        c = 0;
        while c < row.len()
            invariant
                c <= row.len(),
                row.len() <= col_count,
                widths.len() == col_count,
                r < rows.len(),
                table == rows.deep_view(),
                row == rows[r as int],
                done == table.take(r as int),
                next == table.take(r + 1),
                next.drop_last() == done,
                next.last() == table[r as int],
                table[r as int].len() == row.len(),
                forall|k: int| 0 <= k < c ==> widths[k] == column_width(next, k),
                forall|k: int| c <= k < col_count ==> widths[k] == column_width(done, k),
            decreases row.len() - c,
        {
            let n = row[c].as_str().as_bytes().len();
            assert(table[r as int][c as int] == row[c as int]@);
            assert(n == byte_len(next.last()[c as int]));
            assert(column_width(next, c as int) == if n > column_width(done, c as int) {
                n as nat
            } else {
                column_width(done, c as int)
            });
            if n > widths[c] {
                widths.set(c, n);
            }
            c += 1;
        }
        assert forall|k: int| 0 <= k < col_count implies widths[k] == column_width(next, k) by {
            if k >= row.len() {
                assert(column_width(next, k) == column_width(next.drop_last(), k));
            }
        }
        r += 1;
    }
    assert(table.take(r as int) =~= table);
    let mut lines: Vec<String> = Vec::new();
    r = 0;
    while r < rows.len()
        invariant
            r <= rows.len(),
            table == rows.deep_view(),
            widths.len() == col_count,
            forall|k: int| 0 <= k < rows.len() ==> rows[k].len() <= col_count,
            forall|k: int| 0 <= k < col_count ==> widths[k] == column_width(table, k),
            lines.len() == r,
            forall|k: int| 0 <= k < r ==> lines[k]@ == aligned_line(table, k),
        decreases rows.len() - r,
    {
        let row = &rows[r];
        let mut cells: Vec<String> = Vec::new();
        c = 0;
        while c < row.len()
            invariant
                c <= row.len(),
                row.len() <= col_count,
                widths.len() == col_count,
                r < rows.len(),
                table == rows.deep_view(),
                row == rows[r as int],
                forall|k: int| 0 <= k < col_count ==> widths[k] == column_width(table, k),
                cells.len() == c,
                forall|k: int| 0 <= k < c ==> cells[k]@ == aligned_cell(table, r as int, k),
            decreases row.len() - c,
        {
            assert(table[r as int][c as int] == row[c as int]@);
            assert(table[r as int].len() == row.len());
            let cell = if c + 1 < row.len() {
                pad(row[c].as_str(), widths[c])
            } else {
                row[c].clone()
            };
            cells.push(cell);
            c += 1;
        }
        assert(table[r as int].len() == row.len());
        assert(cells.deep_view() =~= aligned_cells(table, r as int));
        let line = join(&cells, "  ");
        proof {
            reveal_strlit("  ");
            assert("  "@ =~= column_gap());
        }
        lines.push(line);
        r += 1;
    }
    assert(lines.deep_view() =~= aligned(table));
    lines
}

} // verus!
