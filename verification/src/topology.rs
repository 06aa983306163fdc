//! The records that tmux reports, one per line of a reply: sessions, windows
//! and panes. A line with too few fields is skipped; a numeric field that is
//! no number counts as 0.

use crate::command::reply_text;
use crate::command::Reply;
use crate::number::number_or_zero;
use crate::number::parse_or_zero;
use crate::rows::lemma_split_first;
use crate::rows::lines;
use crate::rows::lines_of;
use crate::rows::split_fields;
use crate::rows::split_on;
use crate::text::same_text;
use vstd::prelude::*;

verus! {

/// The records that the lines of a reply give, in the order of the lines;
/// `read` tells which record a line gives, if any.
pub open spec fn kept<T>(lines: Seq<Seq<char>>, read: spec_fn(Seq<char>) -> Option<T>) -> Seq<T>
    decreases lines.len(),
{
    if lines.len() == 0 {
        Seq::empty()
    } else {
        let front = kept(lines.drop_last(), read);
        match read(lines.last()) {
            Some(record) => front.push(record),
            None => front,
        }
    }
}

/// A session as `list-sessions` reports it.
pub struct SessionRow {
    pub name: String,
    pub window_count: String,
    pub state: String,
}

/// The text of a `SessionRow`.
pub struct SessionFields {
    pub name: Seq<char>,
    pub window_count: Seq<char>,
    pub state: Seq<char>,
}

impl DeepView for SessionRow {
    type V = SessionFields;

    open spec fn deep_view(&self) -> SessionFields {
        SessionFields { name: self.name@, window_count: self.window_count@, state: self.state@ }
    }
}

/// The session that a line reports: its first three fields.
pub open spec fn session_of(line: Seq<char>) -> Option<SessionFields> {
    let f = split_on(line, '\t');
    if f.len() < 3 {
        None
    } else {
        Some(SessionFields { name: f[0], window_count: f[1], state: f[2] })
    }
}

/// The sessions that `lines` report.
pub open spec fn sessions_in(lines: Seq<Seq<char>>) -> Seq<SessionFields> {
    kept(lines, |line: Seq<char>| session_of(line))
}

/// Reads the reply to the listing of sessions.
pub fn parse_sessions(output: &str) -> (rows: Vec<SessionRow>)
    ensures
        rows.deep_view() == sessions_in(lines_of(output@)),
{
    let all = lines(output);
    let mut rows: Vec<SessionRow> = Vec::new();
    let mut i: usize = 0;
    assert(all.deep_view().take(0) =~= Seq::empty());
    assert(rows.deep_view() =~= Seq::empty());
    while i < all.len()
        invariant
            i <= all.len(),
            rows.deep_view() == sessions_in(all.deep_view().take(i as int)),
        decreases all.len() - i,
    {
        let f = split_fields(all[i].as_str(), '\t');
        proof {
            let next = all.deep_view().take(i + 1);
            assert(next.drop_last() =~= all.deep_view().take(i as int));
            assert(next.last() == all[i as int]@);
        }
        if f.len() >= 3 {
            let row = SessionRow {
                name: f[0].clone(),
                window_count: f[1].clone(),
                state: f[2].clone(),
            };
            let ghost before = rows.deep_view();
            rows.push(row);
            assert(rows.deep_view() =~= before.push(row.deep_view()));
        }
        i += 1;
    }
    assert(all.deep_view().take(i as int) =~= all.deep_view());
    rows
}

/// A window as the session tree shows it.
pub struct WindowEntry {
    pub index: String,
    pub name: String,
    pub pane_count: u32,
}

/// The text of a `WindowEntry`.
pub struct WindowEntryFields {
    pub index: Seq<char>,
    pub name: Seq<char>,
    pub pane_count: u32,
}

impl DeepView for WindowEntry {
    type V = WindowEntryFields;

    open spec fn deep_view(&self) -> WindowEntryFields {
        WindowEntryFields { index: self.index@, name: self.name@, pane_count: self.pane_count }
    }
}

/// The window that a line of a session's window list reports.
pub open spec fn window_entry_of(line: Seq<char>) -> Option<WindowEntryFields> {
    let f = split_on(line, '\t');
    if f.len() < 3 {
        None
    } else {
        Some(WindowEntryFields { index: f[0], name: f[1], pane_count: number_or_zero(f[2]) })
    }
}

/// The windows that `lines` report for the session tree.
pub open spec fn window_entries_in(lines: Seq<Seq<char>>) -> Seq<WindowEntryFields> {
    kept(lines, |line: Seq<char>| window_entry_of(line))
}

/// Reads the reply to the listing of one session's windows.
pub fn parse_window_entries(output: &str) -> (rows: Vec<WindowEntry>)
    ensures
        rows.deep_view() == window_entries_in(lines_of(output@)),
{
    let all = lines(output);
    let mut rows: Vec<WindowEntry> = Vec::new();
    let mut i: usize = 0;
    assert(all.deep_view().take(0) =~= Seq::empty());
    assert(rows.deep_view() =~= Seq::empty());
    while i < all.len()
        invariant
            i <= all.len(),
            rows.deep_view() == window_entries_in(all.deep_view().take(i as int)),
        decreases all.len() - i,
    {
        let f = split_fields(all[i].as_str(), '\t');
        proof {
            let next = all.deep_view().take(i + 1);
            assert(next.drop_last() =~= all.deep_view().take(i as int));
            assert(next.last() == all[i as int]@);
        }
        if f.len() >= 3 {
            let row = WindowEntry {
                index: f[0].clone(),
                name: f[1].clone(),
                pane_count: parse_or_zero(f[2].as_str()),
            };
            let ghost before = rows.deep_view();
            rows.push(row);
            assert(rows.deep_view() =~= before.push(row.deep_view()));
        }
        i += 1;
    }
    assert(all.deep_view().take(i as int) =~= all.deep_view());
    rows
}

/// A window as `list-windows` reports it.
pub struct WinRow {
    pub session: String,
    pub index: String,
    pub name: String,
    pub pane_count: String,
    pub active: String,
}

/// The text of a `WinRow`.
pub struct WinFields {
    pub session: Seq<char>,
    pub index: Seq<char>,
    pub name: Seq<char>,
    pub pane_count: Seq<char>,
    pub active: Seq<char>,
}

impl DeepView for WinRow {
    type V = WinFields;

    open spec fn deep_view(&self) -> WinFields {
        WinFields {
            session: self.session@,
            index: self.index@,
            name: self.name@,
            pane_count: self.pane_count@,
            active: self.active@,
        }
    }
}

/// The window that a line reports: its first five fields.
pub open spec fn window_of(line: Seq<char>) -> Option<WinFields> {
    let f = split_on(line, '\t');
    if f.len() < 5 {
        None
    } else {
        Some(WinFields { session: f[0], index: f[1], name: f[2], pane_count: f[3], active: f[4] })
    }
}

/// The windows that `lines` report.
pub open spec fn windows_in(lines: Seq<Seq<char>>) -> Seq<WinFields> {
    kept(lines, |line: Seq<char>| window_of(line))
}

/// Reads the reply to the listing of windows.
pub fn parse_windows(output: &str) -> (rows: Vec<WinRow>)
    ensures
        rows.deep_view() == windows_in(lines_of(output@)),
{
    let all = lines(output);
    let mut rows: Vec<WinRow> = Vec::new();
    let mut i: usize = 0;
    assert(all.deep_view().take(0) =~= Seq::empty());
    assert(rows.deep_view() =~= Seq::empty());
    while i < all.len()
        invariant
            i <= all.len(),
            rows.deep_view() == windows_in(all.deep_view().take(i as int)),
        decreases all.len() - i,
    {
        let f = split_fields(all[i].as_str(), '\t');
        proof {
            let next = all.deep_view().take(i + 1);
            assert(next.drop_last() =~= all.deep_view().take(i as int));
            assert(next.last() == all[i as int]@);
        }
        if f.len() >= 5 {
            let row = WinRow {
                session: f[0].clone(),
                index: f[1].clone(),
                name: f[2].clone(),
                pane_count: f[3].clone(),
                active: f[4].clone(),
            };
            let ghost before = rows.deep_view();
            rows.push(row);
            assert(rows.deep_view() =~= before.push(row.deep_view()));
        }
        i += 1;
    }
    assert(all.deep_view().take(i as int) =~= all.deep_view());
    rows
}

/// A pane as `list-panes` reports it.
pub struct PaneInfo {
    pub pane_index: u32,
    pub width: u32,
    pub height: u32,
    pub current_command: String,
    pub is_active: bool,
    pub pane_id: String,
}

/// The text of a `PaneInfo`.
pub struct PaneFields {
    pub pane_index: u32,
    pub width: u32,
    pub height: u32,
    pub current_command: Seq<char>,
    pub is_active: bool,
    pub pane_id: Seq<char>,
}

impl DeepView for PaneInfo {
    type V = PaneFields;

    open spec fn deep_view(&self) -> PaneFields {
        PaneFields {
            pane_index: self.pane_index,
            width: self.width,
            height: self.height,
            current_command: self.current_command@,
            is_active: self.is_active,
            pane_id: self.pane_id@,
        }
    }
}

/// The pane that a line reports: its first six fields. The pane is active
/// when the fifth field is `1`.
pub open spec fn pane_of(line: Seq<char>) -> Option<PaneFields> {
    let f = split_on(line, '\t');
    if f.len() < 6 {
        None
    } else {
        Some(
            PaneFields {
                pane_index: number_or_zero(f[0]),
                width: number_or_zero(f[1]),
                height: number_or_zero(f[2]),
                current_command: f[3],
                is_active: f[4] == "1"@,
                pane_id: f[5],
            },
        )
    }
}

/// The panes that `lines` report.
pub open spec fn panes_in(lines: Seq<Seq<char>>) -> Seq<PaneFields> {
    kept(lines, |line: Seq<char>| pane_of(line))
}

/// Reads the reply to the listing of a window's panes.
pub fn parse_panes(output: &str) -> (panes: Vec<PaneInfo>)
    ensures
        panes.deep_view() == panes_in(lines_of(output@)),
{
    let all = lines(output);
    let mut panes: Vec<PaneInfo> = Vec::new();
    let mut i: usize = 0;
    assert(all.deep_view().take(0) =~= Seq::empty());
    assert(panes.deep_view() =~= Seq::empty());
    while i < all.len()
        invariant
            i <= all.len(),
            panes.deep_view() == panes_in(all.deep_view().take(i as int)),
        decreases all.len() - i,
    {
        let f = split_fields(all[i].as_str(), '\t');
        proof {
            let next = all.deep_view().take(i + 1);
            assert(next.drop_last() =~= all.deep_view().take(i as int));
            assert(next.last() == all[i as int]@);
        }
        if f.len() >= 6 {
            let pane = PaneInfo {
                pane_index: parse_or_zero(f[0].as_str()),
                width: parse_or_zero(f[1].as_str()),
                height: parse_or_zero(f[2].as_str()),
                current_command: f[3].clone(),
                is_active: same_text(f[4].as_str(), "1"),
                pane_id: f[5].clone(),
            };
            let ghost before = panes.deep_view();
            panes.push(pane);
            assert(panes.deep_view() =~= before.push(pane.deep_view()));
        }
        i += 1;
    }
    assert(all.deep_view().take(i as int) =~= all.deep_view());
    panes
}

/// What the listing of a window's panes amounts to: the panes that a reply
/// reports, or its error.
pub open spec fn fetched_panes(reply: Reply) -> Result<
    Seq<PaneFields>,
    Seq<char>,
> {
    match reply {
        Ok(output) => Ok(panes_in(lines_of(output))),
        Err(error) => Err(error),
    }
}

/// Reads the reply to the listing of a window's panes, passing an error on.
pub fn fetch_panes(reply: Result<String, String>) -> (panes: Result<Vec<PaneInfo>, String>)
    ensures
        match panes {
            Ok(list) => fetched_panes(reply_text(reply)) == Ok::<Seq<PaneFields>, Seq<char>>(
                list.deep_view(),
            ),
            Err(error) => fetched_panes(reply_text(reply)) == Err::<Seq<PaneFields>, Seq<char>>(
                error@,
            ),
        },
{
    match reply {
        Ok(output) => Ok(parse_panes(output.as_str())),
        Err(error) => Err(error),
    }
}

/// A pane of a window whose contents are asked for: its full target, and the
/// line that reported it.
pub struct PaneLine {
    pub target: String,
    pub line: String,
}

/// The text of a `PaneLine`.
pub struct PaneLineFields {
    pub target: Seq<char>,
    pub line: Seq<char>,
}

impl DeepView for PaneLine {
    type V = PaneLineFields;

    open spec fn deep_view(&self) -> PaneLineFields {
        PaneLineFields { target: self.target@, line: self.line@ }
    }
}

/// The pane that a line names: its first field is the target. A line that
/// starts with a tab, or is empty, names none.
pub open spec fn pane_line_of(line: Seq<char>) -> Option<PaneLineFields> {
    let target = split_on(line, '\t')[0];
    if target.len() == 0 {
        None
    } else {
        Some(PaneLineFields { target, line })
    }
}

/// The panes that `lines` name.
pub open spec fn pane_lines_in(lines: Seq<Seq<char>>) -> Seq<PaneLineFields> {
    kept(lines, |line: Seq<char>| pane_line_of(line))
}

/// Reads the reply that names the panes of a window.
pub fn parse_pane_lines(output: &str) -> (panes: Vec<PaneLine>)
    ensures
        panes.deep_view() == pane_lines_in(lines_of(output@)),
{
    let all = lines(output);
    let mut panes: Vec<PaneLine> = Vec::new();
    let mut i: usize = 0;
    assert(all.deep_view().take(0) =~= Seq::empty());
    assert(panes.deep_view() =~= Seq::empty());
    while i < all.len()
        invariant
            i <= all.len(),
            panes.deep_view() == pane_lines_in(all.deep_view().take(i as int)),
        decreases all.len() - i,
    {
        let f = split_fields(all[i].as_str(), '\t');
        proof {
            let next = all.deep_view().take(i + 1);
            assert(next.drop_last() =~= all.deep_view().take(i as int));
            assert(next.last() == all[i as int]@);
            lemma_split_first(all[i as int]@, '\t');
        }
        if f[0].as_str().unicode_len() > 0 {
            let pane = PaneLine { target: f[0].clone(), line: all[i].clone() };
            let ghost before = panes.deep_view();
            panes.push(pane);
            assert(panes.deep_view() =~= before.push(pane.deep_view()));
        }
        i += 1;
    }
    assert(all.deep_view().take(i as int) =~= all.deep_view());
    panes
}

} // verus!
