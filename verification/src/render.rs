//! What the listings show: the cells of a session, window or pane, the header
//! lines of the trees, and the blocks of text made of them.

use crate::format::align_columns;
use crate::format::aligned;
use crate::format::join;
use crate::format::joined;
use crate::format::truncate;
use crate::format::truncated;
use crate::format::MAX_CMD_LEN;
use crate::format::MAX_NAME_LEN;
use crate::number::decimal;
use crate::number::number_or_zero;
use crate::number::parse_or_zero;
use crate::number::render_u32;
use crate::text::push_row;
use crate::text::push_text;
use crate::text::same_text;
use crate::topology::PaneFields;
use crate::topology::PaneInfo;
use crate::topology::SessionFields;
use crate::topology::SessionRow;
use crate::topology::WinFields;
use crate::topology::WinRow;
use crate::topology::WindowEntry;
use crate::topology::WindowEntryFields;
use vstd::prelude::*;

verus! {

/// The ending of a counted noun: none for one, `s` otherwise.
pub open spec fn plural(one: bool) -> Seq<char> {
    if one {
        ""@
    } else {
        "s"@
    }
}

/// `lines`, each followed by a line feed.
pub open spec fn stacked(lines: Seq<Seq<char>>) -> Seq<char>
    decreases lines.len(),
{
    if lines.len() == 0 {
        Seq::empty()
    } else {
        stacked(lines.drop_last()) + lines.last() + "\n"@
    }
}

/// Appends each of `lines` to `out`, with a line feed after it.
pub fn stack(out: &mut String, lines: &Vec<String>)
    ensures
        final(out)@ == old(out)@ + stacked(lines.deep_view()),
{
    let mut i: usize = 0;
    assert(lines.deep_view().take(0) =~= Seq::empty());
    assert(out@ + stacked(Seq::empty()) =~= out@);
    while i < lines.len()
        invariant
            i <= lines.len(),
            out@ == old(out)@ + stacked(lines.deep_view().take(i as int)),
        decreases lines.len() - i,
    {
        proof {
            let next = lines.deep_view().take(i + 1);
            assert(next.drop_last() =~= lines.deep_view().take(i as int));
            assert(next.last() == lines[i as int]@);
            assert(old(out)@ + stacked(next) =~= old(out)@ + stacked(next.drop_last())
                + lines[i as int]@ + "\n"@);
        }
        out.append(lines[i].as_str());
        out.append("\n");
        i += 1;
    }
    assert(lines.deep_view().take(i as int) =~= lines.deep_view());
}

/// The cells of a session in the short listing: its name, cut to 20
/// characters; its state in brackets; the number of its windows as tmux wrote
/// it, with `window` in the singular when that is `1`.
pub open spec fn session_cells(s: SessionFields) -> Seq<Seq<char>> {
    seq![
        truncated(s.name, MAX_NAME_LEN as nat),
        "("@ + s.state + ")"@,
        s.window_count + " window"@ + plural(s.window_count == "1"@),
    ]
}

/// The table of the short listing of sessions.
pub open spec fn session_table(sessions: Seq<SessionFields>) -> Seq<Seq<Seq<char>>> {
    Seq::new(sessions.len(), |i: int| session_cells(sessions[i]))
}

/// The short listing of sessions: one aligned line per session, with line
/// feeds between the lines; empty when there is no session.
pub open spec fn session_listing(sessions: Seq<SessionFields>) -> Seq<char> {
    joined(aligned(session_table(sessions)), "\n"@)
}

/// Writes the short listing of sessions.
pub fn render_sessions(sessions: &Vec<SessionRow>) -> (out: String)
    ensures
        out@ == session_listing(sessions.deep_view()),
{
    let mut table: Vec<Vec<String>> = Vec::new();
    let mut i: usize = 0;
    assert(table.deep_view() =~= session_table(sessions.deep_view()).take(0));
    while i < sessions.len()
        invariant
            i <= sessions.len(),
            table.deep_view() == session_table(sessions.deep_view()).take(i as int),
        decreases sessions.len() - i,
    {
        let s = &sessions[i];
        let mut cells: Vec<String> = Vec::new();
        assert(cells.deep_view() =~= Seq::empty());
        push_text(&mut cells, truncate(s.name.as_str(), MAX_NAME_LEN));
        let mut state = "(".to_owned();
        state.append(s.state.as_str());
        state.append(")");
        push_text(&mut cells, state);
        let mut count = s.window_count.clone();
        count.append(" window");
        count.append(
            if same_text(s.window_count.as_str(), "1") {
                ""
            } else {
                "s"
            },
        );
        push_text(&mut cells, count);
        assert(cells.deep_view() =~= session_cells(sessions[i as int].deep_view()));
        let ghost before = table.deep_view();
        push_row(&mut table, cells);
        assert(table.deep_view() =~= session_table(sessions.deep_view()).take(i + 1));
        i += 1;
    }
    assert(session_table(sessions.deep_view()).take(i as int) =~= session_table(
        sessions.deep_view(),
    ));
    let lines = align_columns(table.as_slice());
    join(&lines, "\n")
}

/// The line that heads a session in the tree: its name, cut to 20 characters,
/// its state in brackets, and the number of its windows.
pub open spec fn session_header(s: SessionFields) -> Seq<char> {
    let n = number_or_zero(s.window_count);
    truncated(s.name, MAX_NAME_LEN as nat) + " ("@ + s.state + ")  "@ + decimal(n as nat)
        + " window"@ + plural(n == 1) + "\n"@
}

/// Appends the line that heads a session in the tree.
pub fn push_session_header(out: &mut String, s: &SessionRow)
    ensures
        final(out)@ == old(out)@ + session_header(s.deep_view()),
{
    let n = parse_or_zero(s.window_count.as_str());
    let name = truncate(s.name.as_str(), MAX_NAME_LEN);
    let count = render_u32(n);
    let ending = if n == 1 {
        ""
    } else {
        "s"
    };
    assert(old(out)@ + session_header(s.deep_view()) =~= old(out)@ + name@ + " ("@ + s.state@
        + ")  "@ + count@ + " window"@ + ending@ + "\n"@);
    out.append(name.as_str());
    out.append(" (");
    out.append(s.state.as_str());
    out.append(")  ");
    out.append(count.as_str());
    out.append(" window");
    out.append(ending);
    out.append("\n");
}

/// The line of a window in the session tree: indented by two spaces, its
/// index, its name cut to 20 characters, and the number of its panes.
pub open spec fn window_entry_line(w: WindowEntryFields) -> Seq<char> {
    "  "@ + w.index + ":  "@ + truncated(w.name, MAX_NAME_LEN as nat) + "  "@ + decimal(
        w.pane_count as nat,
    ) + " pane"@ + plural(w.pane_count == 1) + "\n"@
}

/// Appends the line of a window in the session tree.
pub fn push_window_entry_line(out: &mut String, w: &WindowEntry)
    ensures
        final(out)@ == old(out)@ + window_entry_line(w.deep_view()),
{
    let name = truncate(w.name.as_str(), MAX_NAME_LEN);
    let count = render_u32(w.pane_count);
    let ending = if w.pane_count == 1 {
        ""
    } else {
        "s"
    };
    assert(old(out)@ + window_entry_line(w.deep_view()) =~= old(out)@ + "  "@ + w.index@ + ":  "@
        + name@ + "  "@ + count@ + " pane"@ + ending@ + "\n"@);
    out.append("  ");
    out.append(w.index.as_str());
    out.append(":  ");
    out.append(name.as_str());
    out.append("  ");
    out.append(count.as_str());
    out.append(" pane");
    out.append(ending);
    out.append("\n");
}

/// The marks behind a pane: `(active)` for the active pane of its window,
/// `<-- current` for the pane that the server runs in, both with two spaces
/// between them.
pub open spec fn pane_marks(active: bool, current: bool) -> Seq<char> {
    if active && current {
        "(active)"@ + "  "@ + "<-- current"@
    } else if active {
        "(active)"@
    } else if current {
        "<-- current"@
    } else {
        Seq::empty()
    }
}

/// Whether pane `p` is the one to mark as current: the pane whose id is
/// `marked`.
pub open spec fn is_marked(p: PaneFields, marked: Option<Seq<char>>) -> bool {
    marked == Some(p.pane_id)
}

/// The cells of a pane: behind `indent`, a dot and its index; its size as
/// `width x height`; its command, cut to 16 characters; and its marks, if it
/// has any.
pub open spec fn pane_cells(p: PaneFields, indent: Seq<char>, marked: Option<Seq<char>>) -> Seq<
    Seq<char>,
> {
    let base = seq![
        indent + "."@ + decimal(p.pane_index as nat),
        decimal(p.width as nat) + "x"@ + decimal(p.height as nat),
        truncated(p.current_command, MAX_CMD_LEN as nat),
    ];
    if p.is_active || is_marked(p, marked) {
        base.push(pane_marks(p.is_active, is_marked(p, marked)))
    } else {
        base
    }
}

/// The table of the panes of one window.
pub open spec fn pane_table(
    panes: Seq<PaneFields>,
    indent: Seq<char>,
    marked: Option<Seq<char>>,
) -> Seq<Seq<Seq<char>>> {
    Seq::new(panes.len(), |i: int| pane_cells(panes[i], indent, marked))
}

/// The block of the panes of one window: one line per pane, aligned among
/// the panes of this window alone, each with a line feed after it.
pub open spec fn pane_block(
    panes: Seq<PaneFields>,
    indent: Seq<char>,
    marked: Option<Seq<char>>,
) -> Seq<char> {
    stacked(aligned(pane_table(panes, indent, marked)))
}

/// Whether a pane id is the one to mark.
pub fn marks_pane(marked: &Option<String>, pane_id: &str) -> (hit: bool)
    ensures
        hit == (crate::target::option_text(*marked) == Some(pane_id@)),
{
    match marked {
        Some(id) => same_text(id.as_str(), pane_id),
        None => false,
    }
}

/// Appends the block of the panes of one window.
pub fn push_pane_block(
    out: &mut String,
    panes: &Vec<PaneInfo>,
    indent: &str,
    marked: &Option<String>,
)
    ensures
        final(out)@ == old(out)@ + pane_block(
            panes.deep_view(),
            indent@,
            crate::target::option_text(*marked),
        ),
{
    let ghost mark = crate::target::option_text(*marked);
    let ghost want = pane_table(panes.deep_view(), indent@, mark);
    let mut table: Vec<Vec<String>> = Vec::new();
    let mut i: usize = 0;
    assert(table.deep_view() =~= want.take(0));
    while i < panes.len()
        invariant
            i <= panes.len(),
            mark == crate::target::option_text(*marked),
            want == pane_table(panes.deep_view(), indent@, mark),
            table.deep_view() == want.take(i as int),
        decreases panes.len() - i,
    {
        let p = &panes[i];
        let mut cells: Vec<String> = Vec::new();
        assert(cells.deep_view() =~= Seq::empty());
        let mut place = indent.to_owned();
        place.append(".");
        place.append(render_u32(p.pane_index).as_str());
        push_text(&mut cells, place);
        let mut size = render_u32(p.width);
        size.append("x");
        size.append(render_u32(p.height).as_str());
        push_text(&mut cells, size);
        push_text(&mut cells, truncate(p.current_command.as_str(), MAX_CMD_LEN));
        let current = marks_pane(marked, p.pane_id.as_str());
        if p.is_active || current {
            let mut marks = String::new();
            if p.is_active {
                marks.append("(active)");
            }
            if current {
                if p.is_active {
                    marks.append("  ");
                }
                marks.append("<-- current");
            }
            assert(marks@ =~= pane_marks(p.is_active, current));
            push_text(&mut cells, marks);
        }
        assert(cells.deep_view() =~= pane_cells(panes[i as int].deep_view(), indent@, mark));
        push_row(&mut table, cells);
        assert(table.deep_view() =~= want.take(i + 1));
        i += 1;
    }
    assert(want.take(i as int) =~= want);
    let lines = align_columns(table.as_slice());
    stack(out, &lines);
}

/// The key of a window: its session and index as `session:index`.
pub open spec fn window_key(w: WinFields) -> Seq<char> {
    w.session + ":"@ + w.index
}

/// Writes the key of a window.
pub fn render_window_key(w: &WinRow) -> (key: String)
    ensures
        key@ == window_key(w.deep_view()),
{
    let mut key = w.session.clone();
    key.append(":");
    key.append(w.index.as_str());
    key
}

/// Whether window `w` is the one that the server runs in: `current` is the
/// key of that window, if it is known.
pub open spec fn is_current_window(w: WinFields, current: Option<Seq<char>>) -> bool {
    current == Some(window_key(w))
}

/// Tells whether a window is the one that the server runs in.
pub fn current_window(w: &WinRow, current: &Option<String>) -> (hit: bool)
    ensures
        hit == is_current_window(w.deep_view(), crate::target::option_text(*current)),
{
    match current {
        Some(key) => {
            let own = render_window_key(w);
            same_text(key.as_str(), own.as_str())
        },
        None => false,
    }
}

/// The cells of a window in the short listing: its key; its name, cut to 20
/// characters; the number of its panes; `active` for the active window of its
/// session; `<-- current` for the window that the server runs in.
pub open spec fn window_cells(w: WinFields, current: Option<Seq<char>>) -> Seq<Seq<char>> {
    let n = number_or_zero(w.pane_count);
    let base = seq![
        window_key(w),
        truncated(w.name, MAX_NAME_LEN as nat),
        decimal(n as nat) + " pane"@ + plural(n == 1),
    ];
    let shown = if w.active == "active"@ {
        base.push("active"@)
    } else {
        base
    };
    if is_current_window(w, current) {
        shown.push("<-- current"@)
    } else {
        shown
    }
}

/// The table of the short listing of windows.
pub open spec fn window_table(windows: Seq<WinFields>, current: Option<Seq<char>>) -> Seq<
    Seq<Seq<char>>,
> {
    Seq::new(windows.len(), |i: int| window_cells(windows[i], current))
}

/// The short listing of windows: one aligned line per window, with line feeds
/// between the lines; empty when there is no window.
pub open spec fn window_listing(windows: Seq<WinFields>, current: Option<Seq<char>>) -> Seq<char> {
    joined(aligned(window_table(windows, current)), "\n"@)
}

/// Writes the short listing of windows.
pub fn render_windows(windows: &Vec<WinRow>, current: &Option<String>) -> (out: String)
    ensures
        out@ == window_listing(windows.deep_view(), crate::target::option_text(*current)),
{
    let ghost mark = crate::target::option_text(*current);
    let ghost want = window_table(windows.deep_view(), mark);
    let mut table: Vec<Vec<String>> = Vec::new();
    let mut i: usize = 0;
    assert(table.deep_view() =~= want.take(0));
    while i < windows.len()
        invariant
            i <= windows.len(),
            mark == crate::target::option_text(*current),
            want == window_table(windows.deep_view(), mark),
            table.deep_view() == want.take(i as int),
        decreases windows.len() - i,
    {
        let w = &windows[i];
        let n = parse_or_zero(w.pane_count.as_str());
        let mut cells: Vec<String> = Vec::new();
        assert(cells.deep_view() =~= Seq::empty());
        push_text(&mut cells, render_window_key(w));
        push_text(&mut cells, truncate(w.name.as_str(), MAX_NAME_LEN));
        let mut count = render_u32(n);
        count.append(" pane");
        count.append(
            if n == 1 {
                ""
            } else {
                "s"
            },
        );
        push_text(&mut cells, count);
        if same_text(w.active.as_str(), "active") {
            push_text(&mut cells, "active".to_owned());
        }
        if current_window(w, current) {
            push_text(&mut cells, "<-- current".to_owned());
        }
        assert(cells.deep_view() =~= window_cells(windows[i as int].deep_view(), mark));
        push_row(&mut table, cells);
        assert(table.deep_view() =~= want.take(i + 1));
        i += 1;
    }
    assert(want.take(i as int) =~= want);
    let lines = align_columns(table.as_slice());
    join(&lines, "\n")
}

/// The line that heads a window in the tree of windows: its key, its name cut
/// to 20 characters, the number of its panes, and `active` for the active
/// window of its session.
pub open spec fn window_header(w: WinFields) -> Seq<char> {
    let n = number_or_zero(w.pane_count);
    window_key(w) + ":  "@ + truncated(w.name, MAX_NAME_LEN as nat) + "  "@ + decimal(n as nat)
        + " pane"@ + plural(n == 1) + (if w.active == "active"@ {
        "  active"@
    } else {
        ""@
    }) + "\n"@
}

/// Appends the line that heads a window in the tree of windows.
pub fn push_window_header(out: &mut String, w: &WinRow)
    ensures
        final(out)@ == old(out)@ + window_header(w.deep_view()),
{
    let n = parse_or_zero(w.pane_count.as_str());
    let key = render_window_key(w);
    let name = truncate(w.name.as_str(), MAX_NAME_LEN);
    let count = render_u32(n);
    let ending = if n == 1 {
        ""
    } else {
        "s"
    };
    let active = if same_text(w.active.as_str(), "active") {
        "  active"
    } else {
        ""
    };
    assert(old(out)@ + window_header(w.deep_view()) =~= old(out)@ + key@ + ":  "@ + name@ + "  "@
        + count@ + " pane"@ + ending@ + active@ + "\n"@);
    out.append(key.as_str());
    out.append(":  ");
    out.append(name.as_str());
    out.append("  ");
    out.append(count.as_str());
    out.append(" pane");
    out.append(ending);
    out.append(active);
    out.append("\n");
}

/// The block of one pane in the contents of a window: a header with the
/// pane's target and the line that reported it, the pane's contents, and an
/// empty line.
pub open spec fn contents_block(target: Seq<char>, line: Seq<char>, contents: Seq<char>) -> Seq<
    char,
> {
    "=== Pane "@ + target + " ("@ + line + ") ===\n"@ + contents + "\n"@
}

/// Appends the block of one pane to the contents of a window.
pub fn push_contents_block(out: &mut String, target: &str, line: &str, contents: &str)
    ensures
        final(out)@ == old(out)@ + contents_block(target@, line@, contents@),
{
    assert(old(out)@ + contents_block(target@, line@, contents@) =~= old(out)@ + "=== Pane "@
        + target@ + " ("@ + line@ + ") ===\n"@ + contents@ + "\n"@);
    out.append("=== Pane ");
    out.append(target);
    out.append(" (");
    out.append(line);
    out.append(") ===\n");
    out.append(contents);
    out.append("\n");
}

} // verus!
