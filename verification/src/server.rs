//! The operations of the server. An operation never runs tmux itself: it
//! says which command it needs next, is resumed with the reply, and in the
//! end hands out one text. `Step` is what it says, `Task` is what it
//! remembers in between.

use crate::command::capture_args;
use crate::command::capture_command;
use crate::command::capture_pane;
use crate::command::captured;
use crate::command::display_args;
use crate::command::display_command;
use crate::command::fetch_panes_args;
use crate::command::fetch_panes_command;
use crate::command::list_panes_args;
use crate::command::list_panes_command;
use crate::command::list_sessions_args;
use crate::command::list_sessions_command;
use crate::command::list_windows_args;
use crate::command::list_windows_command;
use crate::command::lookup_reply;
use crate::command::reply_text;
use crate::command::resolve_pane_id;
use crate::command::session_windows_args;
use crate::command::session_windows_command;
use crate::command::Reply;
use crate::command::CURRENT_SESSION_FORMAT;
use crate::command::CURRENT_WINDOW_FORMAT;
use crate::command::DEFAULT_SCROLL_BACK;
use crate::command::WINDOW_KEY_FORMAT;
use crate::command::WINDOW_PANES_FORMAT;
use crate::render::contents_block;
use crate::render::current_window;
use crate::render::is_current_window;
use crate::render::pane_block;
use crate::render::push_contents_block;
use crate::render::push_pane_block;
use crate::render::push_session_header;
use crate::render::push_window_entry_line;
use crate::render::push_window_header;
use crate::render::render_sessions;
use crate::render::render_windows;
use crate::render::session_header;
use crate::render::session_listing;
use crate::render::window_entry_line;
use crate::render::window_header;
use crate::render::window_listing;
use crate::rows::lines_of;
use crate::target::complete_target;
use crate::target::completed;
use crate::target::lookup_format;
use crate::target::option_text;
use crate::target::pane_plan;
use crate::target::plan_lookup;
use crate::target::plan_pane_target;
use crate::target::plan_window_target;
use crate::target::window_plan;
use crate::target::Plan;
use crate::target::TargetPlan;
use crate::text::trim_end;
use crate::text::trimmed_end;
use crate::topology::fetch_panes;
use crate::topology::fetched_panes;
use crate::topology::pane_lines_in;
use crate::topology::parse_pane_lines;
use crate::topology::parse_sessions;
use crate::topology::parse_window_entries;
use crate::topology::parse_windows;
use crate::topology::sessions_in;
use crate::topology::window_entries_in;
use crate::topology::windows_in;
use crate::topology::PaneLine;
use crate::topology::PaneLineFields;
use crate::topology::SessionFields;
use crate::topology::SessionRow;
use crate::topology::WinFields;
use crate::topology::WinRow;
use crate::topology::WindowEntry;
use crate::topology::WindowEntryFields;
use vstd::prelude::*;

verus! {

/// The parameters of `list_sessions`.
pub struct ListSessionsRequest {
    /// Whether to show the full tree of sessions, windows and panes. Absent
    /// means no.
    pub verbose: Option<bool>,
}

/// The parameters of `list_windows`.
pub struct ListWindowsRequest {
    /// The session whose windows to list. Absent means all sessions.
    pub session: Option<String>,
    /// Whether to show the panes beneath each window. Absent means no.
    pub verbose: Option<bool>,
}

/// The parameters of `get_pane_contents`.
pub struct GetPaneContentsRequest {
    /// The pane: `x`, `y.x` or `sess:y.x`.
    pub target: String,
    /// Lines of history to include; 0 for the visible area alone. Absent
    /// means 1000.
    pub scroll_back_lines: Option<u32>,
}

/// The parameters of `get_window_contents`.
pub struct GetWindowContentsRequest {
    /// The window: `y` or `sess:y`. Absent means the window that the server
    /// runs in.
    pub target: Option<String>,
    /// Lines of history to include; 0 for the visible area alone. Absent
    /// means 1000.
    pub scroll_back_lines: Option<u32>,
}

/// What an operation remembers while it waits for a reply.
pub enum Task {
    /// The sessions were asked for.
    Sessions { verbose: bool },
    /// In the tree of sessions, the windows of session `name` were asked
    /// for; `sessions` are the sessions that follow it.
    SessionWindows { name: String, sessions: Vec<SessionRow>, out: String },
    /// In the tree of sessions, the panes of a window of session `name` were
    /// asked for; `entries` are the windows that follow it in that session.
    SessionPanes {
        name: String,
        entries: Vec<WindowEntry>,
        sessions: Vec<SessionRow>,
        out: String,
    },
    /// The windows were asked for.
    Windows { verbose: bool },
    /// The window that the server runs in was asked for, to mark it among
    /// `windows`.
    WindowMarker { verbose: bool, windows: Vec<WinRow> },
    /// In the tree of windows, the panes of a window were asked for; `mark`
    /// says whether it is the window that the server runs in, `windows` are
    /// the windows that follow it.
    WindowPanes { mark: bool, windows: Vec<WinRow>, current: Option<String>, out: String },
    /// The description of the ambient session or window was asked for.
    Describe,
    /// The lookup that completes the target of a pane was made.
    PaneLookup { plan: TargetPlan, scroll_back: u32 },
    /// The pane `target` was captured.
    Capture { target: String },
    /// The lookup that completes the target of a window was made.
    WindowLookup { plan: TargetPlan, scroll_back: u32 },
    /// The panes of the window were asked for.
    WindowPaneList { scroll_back: u32 },
    /// The pane `target`, reported by `line`, was captured; `panes` are the
    /// panes that follow it.
    WindowCapture {
        target: String,
        line: String,
        panes: Vec<PaneLine>,
        scroll_back: u32,
        out: String,
    },
}

/// The text of a `Task`.
pub enum TaskText {
    Sessions { verbose: bool },
    SessionWindows { name: Seq<char>, sessions: Seq<SessionFields>, out: Seq<char> },
    SessionPanes {
        name: Seq<char>,
        entries: Seq<WindowEntryFields>,
        sessions: Seq<SessionFields>,
        out: Seq<char>,
    },
    Windows { verbose: bool },
    WindowMarker { verbose: bool, windows: Seq<WinFields> },
    WindowPanes { mark: bool, windows: Seq<WinFields>, current: Option<Seq<char>>, out: Seq<char> },
    Describe,
    PaneLookup { plan: Plan, scroll_back: u32 },
    Capture { target: Seq<char> },
    WindowLookup { plan: Plan, scroll_back: u32 },
    WindowPaneList { scroll_back: u32 },
    WindowCapture {
        target: Seq<char>,
        line: Seq<char>,
        panes: Seq<PaneLineFields>,
        scroll_back: u32,
        out: Seq<char>,
    },
}

impl DeepView for Task {
    type V = TaskText;

    open spec fn deep_view(&self) -> TaskText {
        match self {
            Task::Sessions { verbose } => TaskText::Sessions { verbose: *verbose },
            Task::SessionWindows { name, sessions, out } => TaskText::SessionWindows {
                name: name@,
                sessions: sessions.deep_view(),
                out: out@,
            },
            Task::SessionPanes { name, entries, sessions, out } => TaskText::SessionPanes {
                name: name@,
                entries: entries.deep_view(),
                sessions: sessions.deep_view(),
                out: out@,
            },
            Task::Windows { verbose } => TaskText::Windows { verbose: *verbose },
            Task::WindowMarker { verbose, windows } => TaskText::WindowMarker {
                verbose: *verbose,
                windows: windows.deep_view(),
            },
            Task::WindowPanes { mark, windows, current, out } => TaskText::WindowPanes {
                mark: *mark,
                windows: windows.deep_view(),
                current: option_text(*current),
                out: out@,
            },
            Task::Describe => TaskText::Describe,
            Task::PaneLookup { plan, scroll_back } => TaskText::PaneLookup {
                plan: plan.deep_view(),
                scroll_back: *scroll_back,
            },
            Task::Capture { target } => TaskText::Capture { target: target@ },
            Task::WindowLookup { plan, scroll_back } => TaskText::WindowLookup {
                plan: plan.deep_view(),
                scroll_back: *scroll_back,
            },
            Task::WindowPaneList { scroll_back } => TaskText::WindowPaneList {
                scroll_back: *scroll_back,
            },
            Task::WindowCapture { target, line, panes, scroll_back, out } => {
                TaskText::WindowCapture {
                    target: target@,
                    line: line@,
                    panes: panes.deep_view(),
                    scroll_back: *scroll_back,
                    out: out@,
                }
            },
        }
    }
}

/// What an operation does next.
pub enum Step {
    /// Run tmux with the arguments `command` and resume `task` with the
    /// reply.
    Ask { task: Task, command: Vec<String> },
    /// The operation is over; the text is its result.
    Done(String),
}

/// The text of a `Step`.
pub enum StepText {
    Ask { task: TaskText, command: Seq<Seq<char>> },
    Done(Seq<char>),
}

impl DeepView for Step {
    type V = StepText;

    open spec fn deep_view(&self) -> StepText {
        match self {
            Step::Ask { task, command } => StepText::Ask {
                task: task.deep_view(),
                command: command.deep_view(),
            },
            Step::Done(text) => StepText::Done(text@),
        }
    }
}

/// The indentation of a pane in the tree of sessions.
pub open spec fn session_pane_indent() -> Seq<char> {
    "    "@
}

/// The indentation of a pane in the tree of windows.
pub open spec fn window_pane_indent() -> Seq<char> {
    "  "@
}

/// What is said for a description when the server runs outside tmux.
pub open spec fn not_inside_tmux() -> Seq<char> {
    "Not running inside tmux (TMUX_PANE not set)"@
}

/// The scrollback that a request asks for: 1000 lines when it names none.
pub open spec fn scroll_back_of(lines: Option<u32>) -> u32 {
    match lines {
        Some(n) => n,
        None => DEFAULT_SCROLL_BACK,
    }
}

/// Whether a request asks for the long form.
pub open spec fn verbose_of(verbose: Option<bool>) -> bool {
    match verbose {
        Some(v) => v,
        None => false,
    }
}

/// The tree of sessions goes on with the next session: its header is
/// written and its windows are asked for. After the last session the tree
/// is done and is handed out without trailing white space.
pub open spec fn session_tree_next(sessions: Seq<SessionFields>, out: Seq<char>) -> StepText {
    if sessions.len() == 0 {
        StepText::Done(trimmed_end(out))
    } else {
        StepText::Ask {
            task: TaskText::SessionWindows {
                name: sessions[0].name,
                sessions: sessions.drop_first(),
                out: out + session_header(sessions[0]),
            },
            command: session_windows_command(sessions[0].name),
        }
    }
}

/// The tree of sessions goes on with the next window of session `name`: its
/// line is written and its panes are asked for. After the last window the
/// next session follows.
pub open spec fn session_windows_next(
    name: Seq<char>,
    windows: Seq<WindowEntryFields>,
    sessions: Seq<SessionFields>,
    out: Seq<char>,
) -> StepText {
    if windows.len() == 0 {
        session_tree_next(sessions, out)
    } else {
        StepText::Ask {
            task: TaskText::SessionPanes {
                name,
                entries: windows.drop_first(),
                sessions,
                out: out + window_entry_line(windows[0]),
            },
            command: fetch_panes_command(name, windows[0].index),
        }
    }
}

/// The block that the reply to a listing of panes adds to a tree: the panes
/// it reports, or nothing when it is an error.
pub open spec fn panes_shown(
    reply: Reply,
    indent: Seq<char>,
    marked: Option<Seq<char>>,
) -> Seq<char> {
    match fetched_panes(reply) {
        Ok(panes) => pane_block(panes, indent, marked),
        Err(_) => Seq::empty(),
    }
}

/// The sessions have been reported. An error is the result. The short form is
/// the aligned listing; the long form starts the tree.
pub open spec fn after_sessions(verbose: bool, reply: Reply) -> StepText {
    match reply {
        Err(error) => StepText::Done(error),
        Ok(output) => {
            let sessions = sessions_in(lines_of(output));
            if verbose {
                session_tree_next(sessions, Seq::empty())
            } else {
                StepText::Done(session_listing(sessions))
            }
        },
    }
}

/// The windows of a session have been reported. On an error the session
/// keeps its header alone and the next session follows.
pub open spec fn after_session_windows(
    name: Seq<char>,
    sessions: Seq<SessionFields>,
    out: Seq<char>,
    reply: Reply,
) -> StepText {
    match reply {
        Err(_) => session_tree_next(sessions, out),
        Ok(output) => session_windows_next(
            name,
            window_entries_in(lines_of(output)),
            sessions,
            out,
        ),
    }
}

/// The panes of a window in the tree of sessions have been reported. The
/// pane that the server runs in is marked.
pub open spec fn after_session_panes(
    pane: Option<Seq<char>>,
    name: Seq<char>,
    windows: Seq<WindowEntryFields>,
    sessions: Seq<SessionFields>,
    out: Seq<char>,
    reply: Reply,
) -> StepText {
    session_windows_next(
        name,
        windows,
        sessions,
        out + panes_shown(reply, session_pane_indent(), pane),
    )
}

/// The tree of windows goes on with the next window: its header is written
/// and its panes are asked for. After the last window the tree is done and
/// is handed out without trailing white space.
pub open spec fn window_tree_next(
    windows: Seq<WinFields>,
    current: Option<Seq<char>>,
    out: Seq<char>,
) -> StepText {
    if windows.len() == 0 {
        StepText::Done(trimmed_end(out))
    } else {
        StepText::Ask {
            task: TaskText::WindowPanes {
                mark: is_current_window(windows[0], current),
                windows: windows.drop_first(),
                current,
                out: out + window_header(windows[0]),
            },
            command: fetch_panes_command(windows[0].session, windows[0].index),
        }
    }
}

/// The windows are known, and so is the window that the server runs in, as
/// far as it can be known. The short form is the aligned listing; the long
/// form starts the tree.
pub open spec fn windows_listed(
    verbose: bool,
    windows: Seq<WinFields>,
    current: Option<Seq<char>>,
) -> StepText {
    if verbose {
        window_tree_next(windows, current, Seq::empty())
    } else {
        StepText::Done(window_listing(windows, current))
    }
}

/// The windows have been reported. An error is the result. Inside tmux the
/// window that the server runs in is asked for next.
pub open spec fn after_windows(
    pane: Option<Seq<char>>,
    verbose: bool,
    reply: Reply,
) -> StepText {
    match reply {
        Err(error) => StepText::Done(error),
        Ok(output) => {
            let windows = windows_in(lines_of(output));
            match pane {
                Some(id) => StepText::Ask {
                    task: TaskText::WindowMarker { verbose, windows },
                    command: display_command(id, WINDOW_KEY_FORMAT@),
                },
                None => windows_listed(verbose, windows, None),
            }
        },
    }
}

/// The window that a lookup names, if it names one.
pub open spec fn window_named(reply: Reply) -> Option<Seq<char>> {
    match lookup_reply(reply) {
        Ok(key) => Some(key),
        Err(_) => None,
    }
}

/// The window that the server runs in has been asked for. On an error no
/// window is marked.
pub open spec fn after_window_marker(
    verbose: bool,
    windows: Seq<WinFields>,
    reply: Reply,
) -> StepText {
    windows_listed(verbose, windows, window_named(reply))
}

/// The panes of a window in the tree of windows have been reported. The pane
/// that the server runs in is marked, in the window that the server runs in.
pub open spec fn after_window_panes(
    pane: Option<Seq<char>>,
    mark: bool,
    windows: Seq<WinFields>,
    current: Option<Seq<char>>,
    out: Seq<char>,
    reply: Reply,
) -> StepText {
    window_tree_next(
        windows,
        current,
        out + panes_shown(
            reply,
            window_pane_indent(),
            if mark {
                pane
            } else {
                None
            },
        ),
    )
}

/// The description has been reported: it is the result, without surrounding
/// white space; an error is the result as it is.
pub open spec fn after_describe(reply: Reply) -> StepText {
    match lookup_reply(reply) {
        Ok(info) => StepText::Done(info),
        Err(error) => StepText::Done(error),
    }
}

/// The target of a pane is settled: the pane is captured, or the failure is
/// the result.
pub open spec fn pane_settled(target: Reply, scroll_back: u32) -> StepText {
    match target {
        Ok(t) => StepText::Ask {
            task: TaskText::Capture { target: t },
            command: capture_command(t, scroll_back),
        },
        Err(why) => StepText::Done(why),
    }
}

/// The target of a pane is planned: a plan that needs a lookup asks for it.
pub open spec fn pane_planned(pane: Option<Seq<char>>, plan: Plan, scroll_back: u32) -> StepText {
    match (plan_lookup(plan), pane) {
        (Some(format), Some(id)) => StepText::Ask {
            task: TaskText::PaneLookup { plan, scroll_back },
            command: display_command(id, format),
        },
        _ => pane_settled(completed(plan, Err(Seq::empty())), scroll_back),
    }
}

/// The target of a window is settled: its panes are asked for, or the
/// failure is the result.
pub open spec fn window_settled(target: Reply, scroll_back: u32) -> StepText {
    match target {
        Ok(t) => StepText::Ask {
            task: TaskText::WindowPaneList { scroll_back },
            command: list_panes_command(t, WINDOW_PANES_FORMAT@),
        },
        Err(why) => StepText::Done(why),
    }
}

/// The target of a window is planned: a plan that needs a lookup asks for it.
pub open spec fn window_planned(pane: Option<Seq<char>>, plan: Plan, scroll_back: u32) -> StepText {
    match (plan_lookup(plan), pane) {
        (Some(format), Some(id)) => StepText::Ask {
            task: TaskText::WindowLookup { plan, scroll_back },
            command: display_command(id, format),
        },
        _ => window_settled(completed(plan, Err(Seq::empty())), scroll_back),
    }
}

/// The contents of a window go on with the next pane: it is captured. After
/// the last pane the contents are the result.
pub open spec fn contents_next(
    panes: Seq<PaneLineFields>,
    scroll_back: u32,
    out: Seq<char>,
) -> StepText {
    if panes.len() == 0 {
        StepText::Done(out)
    } else {
        StepText::Ask {
            task: TaskText::WindowCapture {
                target: panes[0].target,
                line: panes[0].line,
                panes: panes.drop_first(),
                scroll_back,
                out,
            },
            command: capture_command(panes[0].target, scroll_back),
        }
    }
}

/// The panes of the window have been named. An error is the result.
pub open spec fn after_window_pane_list(scroll_back: u32, reply: Reply) -> StepText {
    match reply {
        Err(error) => StepText::Done(error),
        Ok(output) => contents_next(pane_lines_in(lines_of(output)), scroll_back, Seq::empty()),
    }
}

/// A pane of the window has been captured: its block is written, with the
/// text of the failure in place of the contents if the capture failed, and
/// the next pane follows.
pub open spec fn after_window_capture(
    target: Seq<char>,
    line: Seq<char>,
    panes: Seq<PaneLineFields>,
    scroll_back: u32,
    out: Seq<char>,
    reply: Reply,
) -> StepText {
    contents_next(panes, scroll_back, out + contents_block(target, line, captured(target, reply)))
}

/// What an operation does when it is resumed with a reply. `pane` is the
/// pane that the server runs in.
pub open spec fn resumed(
    pane: Option<Seq<char>>,
    task: TaskText,
    reply: Reply,
) -> StepText {
    match task {
        TaskText::Sessions { verbose } => after_sessions(verbose, reply),
        TaskText::SessionWindows { name, sessions, out } => after_session_windows(
            name,
            sessions,
            out,
            reply,
        ),
        TaskText::SessionPanes { name, entries, sessions, out } => after_session_panes(
            pane,
            name,
            entries,
            sessions,
            out,
            reply,
        ),
        TaskText::Windows { verbose } => after_windows(pane, verbose, reply),
        TaskText::WindowMarker { verbose, windows } => after_window_marker(verbose, windows, reply),
        TaskText::WindowPanes { mark, windows, current, out } => after_window_panes(
            pane,
            mark,
            windows,
            current,
            out,
            reply,
        ),
        TaskText::Describe => after_describe(reply),
        TaskText::PaneLookup { plan, scroll_back } => pane_settled(
            completed(plan, reply),
            scroll_back,
        ),
        TaskText::Capture { target } => StepText::Done(captured(target, reply)),
        TaskText::WindowLookup { plan, scroll_back } => window_settled(
            completed(plan, reply),
            scroll_back,
        ),
        TaskText::WindowPaneList { scroll_back } => after_window_pane_list(scroll_back, reply),
        TaskText::WindowCapture { target, line, panes, scroll_back, out } => after_window_capture(
            target,
            line,
            panes,
            scroll_back,
            out,
            reply,
        ),
    }
}

/// The first step of `list_sessions`.
pub open spec fn sessions_begun(verbose: Option<bool>) -> StepText {
    StepText::Ask {
        task: TaskText::Sessions { verbose: verbose_of(verbose) },
        command: list_sessions_command(),
    }
}

/// The first step of `list_windows`.
pub open spec fn windows_begun(session: Option<Seq<char>>, verbose: Option<bool>) -> StepText {
    StepText::Ask {
        task: TaskText::Windows { verbose: verbose_of(verbose) },
        command: list_windows_command(session),
    }
}

/// The first step of a description of the ambient pane in `format`.
pub open spec fn description_begun(pane: Option<Seq<char>>, format: Seq<char>) -> StepText {
    match pane {
        Some(id) => StepText::Ask {
            task: TaskText::Describe,
            command: display_command(id, format),
        },
        None => StepText::Done(not_inside_tmux()),
    }
}

/// The first step of `get_pane_contents`.
pub open spec fn pane_contents_begun(
    pane: Option<Seq<char>>,
    target: Seq<char>,
    scroll_back_lines: Option<u32>,
) -> StepText {
    pane_planned(pane, pane_plan(target, pane is Some), scroll_back_of(scroll_back_lines))
}

/// The first step of `get_window_contents`.
pub open spec fn window_contents_begun(
    pane: Option<Seq<char>>,
    target: Option<Seq<char>>,
    scroll_back_lines: Option<u32>,
) -> StepText {
    window_planned(pane, window_plan(target, pane is Some), scroll_back_of(scroll_back_lines))
}

/// Takes the first item off a list.
fn take_first<T: DeepView>(list: &mut Vec<T>) -> (first: T)
    requires
        old(list).len() > 0,
    ensures
        first.deep_view() == old(list).deep_view()[0],
        final(list).deep_view() == old(list).deep_view().drop_first(),
{
    let first = list.remove(0);
    assert(list.deep_view() =~= old(list).deep_view().drop_first());
    first
}

/// Goes on with the next session of the tree of sessions.
fn next_session(sessions: Vec<SessionRow>, out: String) -> (step: Step)
    ensures
        step.deep_view() == session_tree_next(sessions.deep_view(), out@),
{
    let mut sessions = sessions;
    let mut out = out;
    if sessions.len() == 0 {
        Step::Done(trim_end(out.as_str()).to_owned())
    } else {
        let session = take_first(&mut sessions);
        push_session_header(&mut out, &session);
        let command = session_windows_args(session.name.as_str());
        Step::Ask { task: Task::SessionWindows { name: session.name, sessions, out }, command }
    }
}

/// Goes on with the next window of a session in the tree of sessions.
fn next_session_window(
    name: String,
    windows: Vec<WindowEntry>,
    sessions: Vec<SessionRow>,
    out: String,
) -> (step: Step)
    ensures
        step.deep_view() == session_windows_next(
            name@,
            windows.deep_view(),
            sessions.deep_view(),
            out@,
        ),
{
    let mut windows = windows;
    let mut out = out;
    if windows.len() == 0 {
        next_session(sessions, out)
    } else {
        let window = take_first(&mut windows);
        push_window_entry_line(&mut out, &window);
        let command = fetch_panes_args(name.as_str(), window.index.as_str());
        Step::Ask { task: Task::SessionPanes { name, entries: windows, sessions, out }, command }
    }
}

/// Appends the block of panes that a reply reports, if it reports any.
fn show_panes(
    out: &mut String,
    reply: Result<String, String>,
    indent: &str,
    marked: &Option<String>,
)
    ensures
        final(out)@ == old(out)@ + panes_shown(reply_text(reply), indent@, option_text(*marked)),
{
    match fetch_panes(reply) {
        Ok(panes) => {
            push_pane_block(out, &panes, indent, marked);
        },
        Err(_) => {
            assert(out@ + Seq::<char>::empty() =~= out@);
        },
    }
}

/// Goes on with the next window of the tree of windows.
fn next_window(windows: Vec<WinRow>, current: Option<String>, out: String) -> (step: Step)
    ensures
        step.deep_view() == window_tree_next(windows.deep_view(), option_text(current), out@),
{
    let mut windows = windows;
    let mut out = out;
    if windows.len() == 0 {
        Step::Done(trim_end(out.as_str()).to_owned())
    } else {
        let window = take_first(&mut windows);
        push_window_header(&mut out, &window);
        let mark = current_window(&window, &current);
        let command = fetch_panes_args(window.session.as_str(), window.index.as_str());
        Step::Ask { task: Task::WindowPanes { mark, windows, current, out }, command }
    }
}

/// Lists the windows in the short form, or starts their tree.
fn list_known_windows(verbose: bool, windows: Vec<WinRow>, current: Option<String>) -> (step: Step)
    ensures
        step.deep_view() == windows_listed(verbose, windows.deep_view(), option_text(current)),
{
    if verbose {
        next_window(windows, current, String::new())
    } else {
        Step::Done(render_windows(&windows, &current))
    }
}

/// Captures the pane that was asked for, or ends with the failure.
fn settle_pane(target: Result<String, String>, scroll_back: u32) -> (step: Step)
    ensures
        step.deep_view() == pane_settled(reply_text(target), scroll_back),
{
    match target {
        Ok(t) => {
            let command = capture_args(t.as_str(), scroll_back);
            Step::Ask { task: Task::Capture { target: t }, command }
        },
        Err(why) => Step::Done(why),
    }
}

/// Asks for the panes of the window that was asked for, or ends with the
/// failure.
fn settle_window(target: Result<String, String>, scroll_back: u32) -> (step: Step)
    ensures
        step.deep_view() == window_settled(reply_text(target), scroll_back),
{
    match target {
        Ok(t) => {
            let command = list_panes_args(t.as_str(), WINDOW_PANES_FORMAT);
            Step::Ask { task: Task::WindowPaneList { scroll_back }, command }
        },
        Err(why) => Step::Done(why),
    }
}

/// Goes on with the next pane of a window whose contents are read.
fn next_capture(panes: Vec<PaneLine>, scroll_back: u32, out: String) -> (step: Step)
    ensures
        step.deep_view() == contents_next(panes.deep_view(), scroll_back, out@),
{
    let mut panes = panes;
    if panes.len() == 0 {
        Step::Done(out)
    } else {
        let pane = take_first(&mut panes);
        let command = capture_args(pane.target.as_str(), scroll_back);
        Step::Ask {
            task: Task::WindowCapture {
                target: pane.target,
                line: pane.line,
                panes,
                scroll_back,
                out,
            },
            command,
        }
    }
}

/// The server: it knows the pane that it runs in, if it runs in one.
#[derive(Debug)]
pub struct TmuxMcp {
    /// The id of the pane that the server runs in, such as `%47`.
    pub current_pane_id: Option<String>,
}

impl Clone for TmuxMcp {
    /// A server that runs in the same pane.
    fn clone(&self) -> (server: Self)
        ensures
            server.pane() == self.pane(),
    {
        let current_pane_id = match &self.current_pane_id {
            Some(id) => Some(id.clone()),
            None => None,
        };
        TmuxMcp { current_pane_id }
    }
}

impl TmuxMcp {
    /// The pane that the server runs in, as text.
    pub open spec fn pane(&self) -> Option<Seq<char>> {
        option_text(self.current_pane_id)
    }

    /// A server that runs in the pane `current_pane_id`, or outside tmux.
    pub fn new(current_pane_id: Option<String>) -> (server: Self)
        ensures
            server.current_pane_id == current_pane_id,
    {
        TmuxMcp { current_pane_id }
    }

    /// Starts the listing of all sessions.
    pub fn list_sessions(&self, req: ListSessionsRequest) -> (step: Step)
        ensures
            step.deep_view() == sessions_begun(req.verbose),
    {
        let verbose = match req.verbose {
            Some(v) => v,
            None => false,
        };
        Step::Ask { task: Task::Sessions { verbose }, command: list_sessions_args() }
    }

    /// Starts the listing of windows.
    pub fn list_windows(&self, req: ListWindowsRequest) -> (step: Step)
        ensures
            step.deep_view() == windows_begun(option_text(req.session), req.verbose),
    {
        let verbose = match req.verbose {
            Some(v) => v,
            None => false,
        };
        let command = match &req.session {
            Some(name) => list_windows_args(Some(name.as_str())),
            None => list_windows_args(None),
        };
        Step::Ask { task: Task::Windows { verbose }, command }
    }

    /// Starts a description of the ambient pane in `format`.
    fn describe(&self, format: &str) -> (step: Step)
        ensures
            step.deep_view() == description_begun(self.pane(), format@),
    {
        match &self.current_pane_id {
            Some(id) => Step::Ask {
                task: Task::Describe,
                command: display_args(id.as_str(), format),
            },
            None => Step::Done("Not running inside tmux (TMUX_PANE not set)".to_owned()),
        }
    }

    /// Starts the description of the session that the server runs in.
    pub fn get_current_session(&self) -> (step: Step)
        ensures
            step.deep_view() == description_begun(self.pane(), CURRENT_SESSION_FORMAT@),
    {
        self.describe(CURRENT_SESSION_FORMAT)
    }

    /// Starts the description of the window that the server runs in.
    pub fn get_current_window(&self) -> (step: Step)
        ensures
            step.deep_view() == description_begun(self.pane(), CURRENT_WINDOW_FORMAT@),
    {
        self.describe(CURRENT_WINDOW_FORMAT)
    }

    /// Starts the reading of one pane.
    pub fn get_pane_contents(&self, req: GetPaneContentsRequest) -> (step: Step)
        ensures
            step.deep_view() == pane_contents_begun(
                self.pane(),
                req.target@,
                req.scroll_back_lines,
            ),
    {
        let scroll_back = match req.scroll_back_lines {
            Some(n) => n,
            None => DEFAULT_SCROLL_BACK,
        };
        let plan = plan_pane_target(req.target.as_str(), self.current_pane_id.is_some());
        match (lookup_format(&plan), &self.current_pane_id) {
            (Some(format), Some(id)) => {
                let command = display_args(id.as_str(), format);
                Step::Ask { task: Task::PaneLookup { plan, scroll_back }, command }
            },
            _ => settle_pane(complete_target(plan, Err(String::new())), scroll_back),
        }
    }

    /// Starts the reading of all panes of one window.
    pub fn get_window_contents(&self, req: GetWindowContentsRequest) -> (step: Step)
        ensures
            step.deep_view() == window_contents_begun(
                self.pane(),
                option_text(req.target),
                req.scroll_back_lines,
            ),
    {
        let scroll_back = match req.scroll_back_lines {
            Some(n) => n,
            None => DEFAULT_SCROLL_BACK,
        };
        let plan = plan_window_target(req.target, self.current_pane_id.is_some());
        match (lookup_format(&plan), &self.current_pane_id) {
            (Some(format), Some(id)) => {
                let command = display_args(id.as_str(), format);
                Step::Ask { task: Task::WindowLookup { plan, scroll_back }, command }
            },
            _ => settle_window(complete_target(plan, Err(String::new())), scroll_back),
        }
    }

    /// Resumes an operation with the reply to the command that it asked for.
    pub fn resume(&self, task: Task, reply: Result<String, String>) -> (step: Step)
        ensures
            step.deep_view() == resumed(self.pane(), task.deep_view(), reply_text(reply)),
    {
        match task {
            Task::Sessions { verbose } => match reply {
                Err(error) => Step::Done(error),
                Ok(output) => {
                    let sessions = parse_sessions(output.as_str());
                    if verbose {
                        next_session(sessions, String::new())
                    } else {
                        Step::Done(render_sessions(&sessions))
                    }
                },
            },
            Task::SessionWindows { name, sessions, out } => match reply {
                Err(_) => next_session(sessions, out),
                Ok(output) => {
                    let windows = parse_window_entries(output.as_str());
                    next_session_window(name, windows, sessions, out)
                },
            },
            Task::SessionPanes { name, entries, sessions, out } => {
                let mut out = out;
                show_panes(&mut out, reply, "    ", &self.current_pane_id);
                next_session_window(name, entries, sessions, out)
            },
            Task::Windows { verbose } => match reply {
                Err(error) => Step::Done(error),
                Ok(output) => {
                    let windows = parse_windows(output.as_str());
                    match &self.current_pane_id {
                        Some(id) => {
                            let command = display_args(id.as_str(), WINDOW_KEY_FORMAT);
                            Step::Ask { task: Task::WindowMarker { verbose, windows }, command }
                        },
                        None => list_known_windows(verbose, windows, None),
                    }
                },
            },
            Task::WindowMarker { verbose, windows } => {
                let current = match resolve_pane_id(reply) {
                    Ok(key) => Some(key),
                    Err(_) => None,
                };
                list_known_windows(verbose, windows, current)
            },
            Task::WindowPanes { mark, windows, current, out } => {
                let mut out = out;
                if mark {
                    show_panes(&mut out, reply, "  ", &self.current_pane_id);
                } else {
                    show_panes(&mut out, reply, "  ", &None);
                }
                next_window(windows, current, out)
            },
            Task::Describe => match resolve_pane_id(reply) {
                Ok(info) => Step::Done(info),
                Err(error) => Step::Done(error),
            },
            Task::PaneLookup { plan, scroll_back } => settle_pane(
                complete_target(plan, reply),
                scroll_back,
            ),
            Task::Capture { target } => Step::Done(capture_pane(target.as_str(), reply)),
            Task::WindowLookup { plan, scroll_back } => settle_window(
                complete_target(plan, reply),
                scroll_back,
            ),
            Task::WindowPaneList { scroll_back } => match reply {
                Err(error) => Step::Done(error),
                Ok(output) => {
                    let panes = parse_pane_lines(output.as_str());
                    next_capture(panes, scroll_back, String::new())
                },
            },
            Task::WindowCapture { target, line, panes, scroll_back, out } => {
                let mut out = out;
                let contents = capture_pane(target.as_str(), reply);
                push_contents_block(&mut out, target.as_str(), line.as_str(), contents.as_str());
                next_capture(panes, scroll_back, out)
            },
        }
    }
}

} // verus!
