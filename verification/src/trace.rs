//! Whole runs of an operation: what it hands out in the end, as a function
//! of the replies that it was given along the way.

use crate::command::capture_command;
use crate::command::captured;
use crate::command::display_command;
use crate::command::fetch_panes_command;
use crate::command::list_panes_command;
use crate::command::list_sessions_command;
use crate::command::list_windows_command;
use crate::command::session_windows_command;
use crate::command::Reply;
use crate::command::WINDOW_KEY_FORMAT;
use crate::command::WINDOW_PANES_FORMAT;
use crate::render::contents_block;
use crate::render::is_current_window;
use crate::render::session_header;
use crate::render::session_listing;
use crate::render::window_entry_line;
use crate::render::window_header;
use crate::render::window_listing;
use crate::rows::lines_of;
use crate::server::contents_next;
use crate::server::description_begun;
use crate::server::not_inside_tmux;
use crate::server::pane_contents_begun;
use crate::server::pane_settled;
use crate::server::panes_shown;
use crate::server::resumed;
use crate::server::scroll_back_of;
use crate::server::session_pane_indent;
use crate::server::session_tree_next;
use crate::server::session_windows_next;
use crate::server::sessions_begun;
use crate::server::verbose_of;
use crate::server::window_contents_begun;
use crate::server::window_named;
use crate::server::window_pane_indent;
use crate::server::window_settled;
use crate::server::window_tree_next;
use crate::server::windows_begun;
use crate::server::windows_listed;
use crate::server::StepText;
use crate::target::completed;
use crate::target::pane_plan;
use crate::target::plan_lookup;
use crate::target::resolved_pane;
use crate::target::resolved_window;
use crate::target::window_plan;
use crate::target::Plan;
use crate::text::trimmed;
use crate::text::trimmed_end;
use crate::topology::pane_lines_in;
use crate::topology::sessions_in;
use crate::topology::window_entries_in;
use crate::topology::windows_in;
use crate::topology::PaneLineFields;
use crate::topology::SessionFields;
use crate::topology::WinFields;
use crate::topology::WindowEntryFields;
use vstd::prelude::*;

verus! {

/// The result of an operation that stands at `step` and is given `replies`,
/// one for each command that it asks for, in order. `None` when the replies
/// run out before the operation is over; replies beyond its end are not
/// looked at.
#[verifier::opaque]
pub open spec fn outcome(pane: Option<Seq<char>>, step: StepText, replies: Seq<Reply>) -> Option<
    Seq<char>,
>
    decreases replies.len(),
{
    match step {
        StepText::Done(text) => Some(text),
        StepText::Ask { task, command } => if replies.len() == 0 {
            None
        } else {
            outcome(pane, resumed(pane, task, replies[0]), replies.drop_first())
        },
    }
}

/// The commands that an operation asks for when it stands at `step` and is
/// given `replies`, in order.
#[verifier::opaque]
pub open spec fn commands(pane: Option<Seq<char>>, step: StepText, replies: Seq<Reply>) -> Seq<
    Seq<Seq<char>>,
>
    decreases replies.len(),
{
    match step {
        StepText::Done(_) => Seq::empty(),
        StepText::Ask { task, command } => if replies.len() == 0 {
            seq![command]
        } else {
            seq![command] + commands(pane, resumed(pane, task, replies[0]), replies.drop_first())
        },
    }
}

/// An operation that is over hands out its text and asks for nothing more.
pub proof fn lemma_run_done(pane: Option<Seq<char>>, text: Seq<char>, replies: Seq<Reply>)
    ensures
        outcome(pane, StepText::Done(text), replies) == Some(text),
        commands(pane, StepText::Done(text), replies) == Seq::<Seq<Seq<char>>>::empty(),
{
    reveal(outcome);
    reveal(commands);
}

/// An operation that asks for a command goes on with the first reply.
pub proof fn lemma_run_ask(pane: Option<Seq<char>>, step: StepText, replies: Seq<Reply>)
    requires
        step is Ask,
        replies.len() > 0,
    ensures
        outcome(pane, step, replies) == outcome(
            pane,
            resumed(pane, step->task, replies[0]),
            replies.drop_first(),
        ),
        commands(pane, step, replies) == seq![step->command] + commands(
            pane,
            resumed(pane, step->task, replies[0]),
            replies.drop_first(),
        ),
{
    reveal(outcome);
    reveal(commands);
}

/// Concatenation of texts is associative.
proof fn lemma_concat_assoc(a: Seq<char>, b: Seq<char>, c: Seq<char>)
    ensures
        a + b + c == a + (b + c),
{
    assert(a + b + c =~= a + (b + c));
}

/// Concatenation of lists of commands is associative.
proof fn lemma_list_assoc(
    a: Seq<Seq<Seq<char>>>,
    b: Seq<Seq<Seq<char>>>,
    c: Seq<Seq<Seq<char>>>,
)
    ensures
        a + b + c == a + (b + c),
{
    assert(a + b + c =~= a + (b + c));
}

/// The empty text adds nothing to a text.
proof fn lemma_concat_empty(a: Seq<char>)
    ensures
        a + Seq::<char>::empty() == a,
        Seq::<char>::empty() + a == a,
{
    assert(a + Seq::<char>::empty() =~= a);
    assert(Seq::<char>::empty() + a =~= a);
}

/// The contents of a window: the blocks of its panes, one after another;
/// `replies[i]` is the reply to the capture of `panes[i]`.
pub open spec fn contents_of(panes: Seq<PaneLineFields>, replies: Seq<Reply>) -> Seq<char>
    decreases panes.len(),
{
    if panes.len() == 0 {
        Seq::empty()
    } else {
        contents_block(panes[0].target, panes[0].line, captured(panes[0].target, replies[0]))
            + contents_of(panes.drop_first(), replies.drop_first())
    }
}

/// The captures that the contents of a window take: one per pane, in order.
pub open spec fn captures_of(panes: Seq<PaneLineFields>, scroll_back: u32) -> Seq<Seq<Seq<char>>> {
    Seq::new(panes.len(), |i: int| capture_command(panes[i].target, scroll_back))
}

/// One step of reading the panes of a window: the first pane is captured
/// and its block is written.
proof fn lemma_contents_step(
    pane: Option<Seq<char>>,
    panes: Seq<PaneLineFields>,
    scroll_back: u32,
    out: Seq<char>,
    replies: Seq<Reply>,
)
    requires
        panes.len() > 0,
        replies.len() > 0,
    ensures
        outcome(pane, contents_next(panes, scroll_back, out), replies) == outcome(
            pane,
            contents_next(
                panes.drop_first(),
                scroll_back,
                out + contents_block(
                    panes[0].target,
                    panes[0].line,
                    captured(panes[0].target, replies[0]),
                ),
            ),
            replies.drop_first(),
        ),
        commands(pane, contents_next(panes, scroll_back, out), replies) == seq![
            capture_command(panes[0].target, scroll_back),
        ] + commands(
            pane,
            contents_next(
                panes.drop_first(),
                scroll_back,
                out + contents_block(
                    panes[0].target,
                    panes[0].line,
                    captured(panes[0].target, replies[0]),
                ),
            ),
            replies.drop_first(),
        ),
{
    lemma_run_ask(pane, contents_next(panes, scroll_back, out), replies);
}

/// Reading the panes of a window captures each pane once, in order, and
/// hands out the blocks of all of them. A capture that fails does not end
/// the reading: the block of that pane holds the text of the failure.
pub proof fn lemma_contents_run(
    pane: Option<Seq<char>>,
    panes: Seq<PaneLineFields>,
    scroll_back: u32,
    out: Seq<char>,
    replies: Seq<Reply>,
)
    requires
        replies.len() >= panes.len(),
    ensures
        outcome(pane, contents_next(panes, scroll_back, out), replies) == Some(
            out + contents_of(panes, replies),
        ),
        commands(pane, contents_next(panes, scroll_back, out), replies) == captures_of(
            panes,
            scroll_back,
        ),
    decreases panes.len(),
{
    if panes.len() == 0 {
        lemma_run_done(pane, out, replies);
        lemma_concat_empty(out);
        assert(captures_of(panes, scroll_back) =~= Seq::empty());
    } else {
        let block = contents_block(
            panes[0].target,
            panes[0].line,
            captured(panes[0].target, replies[0]),
        );
        let rest = panes.drop_first();
        let later = replies.drop_first();
        lemma_contents_step(pane, panes, scroll_back, out, replies);
        lemma_contents_run(pane, rest, scroll_back, out + block, later);
        lemma_concat_assoc(out, block, contents_of(rest, later));
        assert(seq![capture_command(panes[0].target, scroll_back)] + captures_of(rest, scroll_back)
            =~= captures_of(panes, scroll_back));
    }
}

/// What is written for the first `k` panes of a window depends on the
/// replies to their own captures alone: the contents are those of the first
/// `k` panes followed by those of the others.
pub proof fn lemma_contents_split(panes: Seq<PaneLineFields>, replies: Seq<Reply>, k: int)
    requires
        0 <= k <= panes.len(),
        panes.len() <= replies.len(),
    ensures
        contents_of(panes, replies) == contents_of(panes.take(k), replies.take(k)) + contents_of(
            panes.skip(k),
            replies.skip(k),
        ),
    decreases k,
{
    if k == 0 {
        assert(panes.skip(0) =~= panes);
        assert(replies.skip(0) =~= replies);
        lemma_concat_empty(contents_of(panes, replies));
    } else {
        let rest = panes.drop_first();
        let later = replies.drop_first();
        lemma_contents_split(rest, later, k - 1);
        assert(rest.take(k - 1) =~= panes.take(k).drop_first());
        assert(later.take(k - 1) =~= replies.take(k).drop_first());
        assert(rest.skip(k - 1) =~= panes.skip(k));
        assert(later.skip(k - 1) =~= replies.skip(k));
        let block = contents_block(
            panes[0].target,
            panes[0].line,
            captured(panes[0].target, replies[0]),
        );
        lemma_concat_assoc(
            block,
            contents_of(rest.take(k - 1), later.take(k - 1)),
            contents_of(panes.skip(k), replies.skip(k)),
        );
    }
}

/// Once the target of a window is settled, its contents are read in one
/// listing of its panes and one capture per pane. A target that could not be
/// had, or a listing that fails, is the result as text.
pub proof fn lemma_window_contents(
    pane: Option<Seq<char>>,
    target: Reply,
    scroll_back: u32,
    listing: Reply,
    captures: Seq<Reply>,
)
    requires
        listing matches Ok(output) ==> captures.len() >= pane_lines_in(lines_of(output)).len(),
    ensures
        outcome(pane, window_settled(target, scroll_back), seq![listing] + captures) == Some(
            match target {
                Err(why) => why,
                Ok(_) => match listing {
                    Err(error) => error,
                    Ok(output) => contents_of(pane_lines_in(lines_of(output)), captures),
                },
            },
        ),
        commands(pane, window_settled(target, scroll_back), seq![listing] + captures) == (
        match target {
            Err(_) => Seq::<Seq<Seq<char>>>::empty(),
            Ok(t) => seq![list_panes_command(t, WINDOW_PANES_FORMAT@)] + (match listing {
                Err(_) => Seq::<Seq<Seq<char>>>::empty(),
                Ok(output) => captures_of(pane_lines_in(lines_of(output)), scroll_back),
            }),
        }),
{
    let replies = seq![listing] + captures;
    assert(replies.drop_first() =~= captures);
    assert(replies[0] == listing);
    match target {
        Err(why) => {
            lemma_run_done(pane, why, replies);
        },
        Ok(_) => {
            lemma_run_ask(pane, window_settled(target, scroll_back), replies);
            match listing {
                Err(error) => {
                    lemma_run_done(pane, error, captures);
                },
                Ok(output) => {
                    let panes = pane_lines_in(lines_of(output));
                    lemma_contents_run(pane, panes, scroll_back, Seq::empty(), captures);
                    lemma_concat_empty(contents_of(panes, captures));
                },
            }
        },
    }
}

/// Once the target of a pane is settled, the pane is captured and the reply
/// is the result: the captured text, or the text of the failure. A target
/// that could not be had is the result as text, and nothing is captured.
pub proof fn lemma_pane_contents(
    pane: Option<Seq<char>>,
    target: Reply,
    scroll_back: u32,
    capture: Reply,
)
    ensures
        outcome(pane, pane_settled(target, scroll_back), seq![capture]) == Some(
            match target {
                Err(why) => why,
                Ok(t) => captured(t, capture),
            },
        ),
        commands(pane, pane_settled(target, scroll_back), seq![capture]) == (match target {
            Err(_) => Seq::<Seq<Seq<char>>>::empty(),
            Ok(t) => seq![capture_command(t, scroll_back)],
        }),
{
    let replies = seq![capture];
    assert(replies[0] == capture);
    match target {
        Err(why) => {
            lemma_run_done(pane, why, replies);
        },
        Ok(t) => {
            lemma_run_ask(pane, pane_settled(target, scroll_back), replies);
            lemma_run_done(pane, captured(t, capture), replies.drop_first());
            assert(seq![capture_command(t, scroll_back)] + Seq::<Seq<Seq<char>>>::empty() =~= seq![
                capture_command(t, scroll_back),
            ]);
        },
    }
}

/// The tree below one session: the lines of its windows, each followed by
/// the block of its panes; `replies[i]` is the reply to the listing of the
/// panes of `windows[i]`.
pub open spec fn session_windows_text(
    windows: Seq<WindowEntryFields>,
    replies: Seq<Reply>,
    pane: Option<Seq<char>>,
) -> Seq<char>
    decreases windows.len(),
{
    if windows.len() == 0 {
        Seq::empty()
    } else {
        window_entry_line(windows[0]) + panes_shown(replies[0], session_pane_indent(), pane)
            + session_windows_text(windows.drop_first(), replies.drop_first(), pane)
    }
}

/// The windows that the reply to a session's listing of windows reports;
/// none when it is an error.
pub open spec fn windows_reported(reply: Reply) -> Seq<WindowEntryFields> {
    match reply {
        Ok(output) => window_entries_in(lines_of(output)),
        Err(_) => Seq::empty(),
    }
}

/// Whether `replies` answer every command that the tree of `sessions` asks
/// for: per session one listing of its windows and, for each window that
/// this reports, one listing of its panes.
pub open spec fn sessions_answered(sessions: Seq<SessionFields>, replies: Seq<Reply>) -> bool
    decreases sessions.len(),
{
    if sessions.len() == 0 {
        true
    } else {
        &&& replies.len() >= 1
        &&& replies.len() >= 1 + windows_reported(replies[0]).len()
        &&& sessions_answered(
            sessions.drop_first(),
            replies.skip(windows_reported(replies[0]).len() as int + 1),
        )
    }
}

/// The tree of sessions before its trailing white space is removed. The
/// replies are taken in the order in which the commands are asked: for each
/// session, `replies[0]` is the reply to the listing of its windows, the
/// replies after it are those to the listings of the panes of these windows,
/// and the replies for the next session follow. Each session gives its
/// header and the tree below it.
pub open spec fn sessions_text(
    sessions: Seq<SessionFields>,
    replies: Seq<Reply>,
    pane: Option<Seq<char>>,
) -> Seq<char>
    decreases sessions.len(),
{
    if sessions.len() == 0 {
        Seq::empty()
    } else {
        let windows = windows_reported(replies[0]);
        let n = windows.len() as int;
        session_header(sessions[0]) + session_windows_text(windows, replies.drop_first(), pane)
            + sessions_text(sessions.drop_first(), replies.skip(n + 1), pane)
    }
}

/// The listings of panes that the tree below session `name` asks for: one
/// per window, in order.
pub open spec fn pane_listings(name: Seq<char>, windows: Seq<WindowEntryFields>) -> Seq<
    Seq<Seq<char>>,
> {
    Seq::new(windows.len(), |i: int| fetch_panes_command(name, windows[i].index))
}

/// The commands that the tree of sessions asks for: per session the listing
/// of its windows, then the listings of the panes of the windows that this
/// reports.
pub open spec fn sessions_commands(sessions: Seq<SessionFields>, replies: Seq<Reply>) -> Seq<
    Seq<Seq<char>>,
>
    decreases sessions.len(),
{
    if sessions.len() == 0 {
        Seq::empty()
    } else {
        let windows = windows_reported(replies[0]);
        let n = windows.len() as int;
        seq![session_windows_command(sessions[0].name)] + pane_listings(sessions[0].name, windows)
            + sessions_commands(sessions.drop_first(), replies.skip(n + 1))
    }
}

/// One step below a session: the panes of its first window are listed and
/// their block is written.
proof fn lemma_session_window_step(
    pane: Option<Seq<char>>,
    name: Seq<char>,
    windows: Seq<WindowEntryFields>,
    sessions: Seq<SessionFields>,
    out: Seq<char>,
    replies: Seq<Reply>,
)
    requires
        windows.len() > 0,
        replies.len() > 0,
    ensures
        outcome(pane, session_windows_next(name, windows, sessions, out), replies) == outcome(
            pane,
            session_windows_next(
                name,
                windows.drop_first(),
                sessions,
                out + window_entry_line(windows[0]) + panes_shown(
                    replies[0],
                    session_pane_indent(),
                    pane,
                ),
            ),
            replies.drop_first(),
        ),
        commands(pane, session_windows_next(name, windows, sessions, out), replies) == seq![
            fetch_panes_command(name, windows[0].index),
        ] + commands(
            pane,
            session_windows_next(
                name,
                windows.drop_first(),
                sessions,
                out + window_entry_line(windows[0]) + panes_shown(
                    replies[0],
                    session_pane_indent(),
                    pane,
                ),
            ),
            replies.drop_first(),
        ),
{
    lemma_run_ask(pane, session_windows_next(name, windows, sessions, out), replies);
}

/// One step of the tree of sessions: the windows of the first session are
/// listed.
proof fn lemma_session_step(
    pane: Option<Seq<char>>,
    sessions: Seq<SessionFields>,
    out: Seq<char>,
    replies: Seq<Reply>,
)
    requires
        sessions.len() > 0,
        replies.len() > 0,
    ensures
        outcome(pane, session_tree_next(sessions, out), replies) == outcome(
            pane,
            session_windows_next(
                sessions[0].name,
                windows_reported(replies[0]),
                sessions.drop_first(),
                out + session_header(sessions[0]),
            ),
            replies.drop_first(),
        ),
        commands(pane, session_tree_next(sessions, out), replies) == seq![
            session_windows_command(sessions[0].name),
        ] + commands(
            pane,
            session_windows_next(
                sessions[0].name,
                windows_reported(replies[0]),
                sessions.drop_first(),
                out + session_header(sessions[0]),
            ),
            replies.drop_first(),
        ),
{
    lemma_run_ask(pane, session_tree_next(sessions, out), replies);
}

/// Going through the windows of one session writes the tree below it and
/// then goes on with the sessions that follow. `replies[i]` is the reply to
/// the listing of the panes of `windows[i]`.
pub proof fn lemma_session_windows_run(
    pane: Option<Seq<char>>,
    name: Seq<char>,
    windows: Seq<WindowEntryFields>,
    sessions: Seq<SessionFields>,
    out: Seq<char>,
    replies: Seq<Reply>,
)
    requires
        replies.len() >= windows.len(),
    ensures
        outcome(pane, session_windows_next(name, windows, sessions, out), replies) == outcome(
            pane,
            session_tree_next(sessions, out + session_windows_text(windows, replies, pane)),
            replies.skip(windows.len() as int),
        ),
        commands(pane, session_windows_next(name, windows, sessions, out), replies)
            == pane_listings(name, windows) + commands(
            pane,
            session_tree_next(sessions, out + session_windows_text(windows, replies, pane)),
            replies.skip(windows.len() as int),
        ),
    decreases windows.len(),
{
    if windows.len() == 0 {
        assert(replies.skip(0) =~= replies);
        lemma_concat_empty(out);
        assert(pane_listings(name, windows) + commands(
            pane,
            session_tree_next(sessions, out),
            replies,
        ) =~= commands(pane, session_tree_next(sessions, out), replies));
    } else {
        let line = window_entry_line(windows[0]);
        let block = panes_shown(replies[0], session_pane_indent(), pane);
        let rest = windows.drop_first();
        let later = replies.drop_first();
        let below = session_windows_text(rest, later, pane);
        lemma_session_window_step(pane, name, windows, sessions, out, replies);
        lemma_session_windows_run(pane, name, rest, sessions, out + line + block, later);
        assert(later.skip(rest.len() as int) =~= replies.skip(windows.len() as int));
        assert(out + line + block + below == out + session_windows_text(windows, replies, pane))
            by {
            lemma_concat_assoc(line, block, below);
            lemma_concat_assoc(out, line, block);
            lemma_concat_assoc(out, line + block, below);
        }
        let first = seq![fetch_panes_command(name, windows[0].index)];
        assert(first + pane_listings(name, rest) =~= pane_listings(name, windows));
        lemma_list_assoc(
            first,
            pane_listings(name, rest),
            commands(
                pane,
                session_tree_next(sessions, out + session_windows_text(windows, replies, pane)),
                replies.skip(windows.len() as int),
            ),
        );
    }
}

/// The tree of sessions, run to its end, is the text of all sessions without
/// its trailing white space. A session whose windows cannot be listed keeps
/// its header alone, and a window whose panes cannot be listed keeps its
/// line alone; the tree goes on after either.
pub proof fn lemma_session_tree_run(
    pane: Option<Seq<char>>,
    sessions: Seq<SessionFields>,
    out: Seq<char>,
    replies: Seq<Reply>,
)
    requires
        sessions_answered(sessions, replies),
    ensures
        outcome(pane, session_tree_next(sessions, out), replies) == Some(
            trimmed_end(out + sessions_text(sessions, replies, pane)),
        ),
        commands(pane, session_tree_next(sessions, out), replies) == sessions_commands(
            sessions,
            replies,
        ),
    decreases sessions.len(),
{
    if sessions.len() == 0 {
        lemma_run_done(pane, trimmed_end(out), replies);
        lemma_concat_empty(out);
    } else {
        let windows = windows_reported(replies[0]);
        let n = windows.len() as int;
        let header = session_header(sessions[0]);
        let later = replies.drop_first();
        let below = session_windows_text(windows, later, pane);
        let after = sessions_text(sessions.drop_first(), replies.skip(n + 1), pane);
        assert(later.skip(n) =~= replies.skip(n + 1));
        lemma_session_step(pane, sessions, out, replies);
        lemma_session_windows_run(
            pane,
            sessions[0].name,
            windows,
            sessions.drop_first(),
            out + header,
            later,
        );
        lemma_session_tree_run(
            pane,
            sessions.drop_first(),
            out + header + below,
            replies.skip(n + 1),
        );
        assert(out + header + below + after == out + sessions_text(sessions, replies, pane)) by {
            lemma_concat_assoc(header, below, after);
            lemma_concat_assoc(out, header, below);
            lemma_concat_assoc(out, header + below, after);
        }
        lemma_list_assoc(
            seq![session_windows_command(sessions[0].name)],
            pane_listings(sessions[0].name, windows),
            sessions_commands(sessions.drop_first(), replies.skip(n + 1)),
        );
    }
}

/// `list_sessions`, run to its end. A listing that fails is the result as
/// text. The short form is the aligned listing of the sessions and asks for
/// nothing more; the long form is their tree.
pub proof fn lemma_list_sessions(
    pane: Option<Seq<char>>,
    verbose: Option<bool>,
    listing: Reply,
    replies: Seq<Reply>,
)
    requires
        verbose == Some(true) ==> (listing matches Ok(output) ==> sessions_answered(
            sessions_in(lines_of(output)),
            replies,
        )),
    ensures
        outcome(pane, sessions_begun(verbose), seq![listing] + replies) == Some(
            match listing {
                Err(error) => error,
                Ok(output) => if verbose == Some(true) {
                    trimmed_end(sessions_text(sessions_in(lines_of(output)), replies, pane))
                } else {
                    session_listing(sessions_in(lines_of(output)))
                },
            },
        ),
        commands(pane, sessions_begun(verbose), seq![listing] + replies) == seq![
            list_sessions_command(),
        ] + (match listing {
            Err(_) => Seq::<Seq<Seq<char>>>::empty(),
            Ok(output) => if verbose == Some(true) {
                sessions_commands(sessions_in(lines_of(output)), replies)
            } else {
                Seq::<Seq<Seq<char>>>::empty()
            },
        }),
{
    let all = seq![listing] + replies;
    assert(all.drop_first() =~= replies);
    assert(all[0] == listing);
    lemma_run_ask(pane, sessions_begun(verbose), all);
    match listing {
        Err(error) => {
            lemma_run_done(pane, error, replies);
        },
        Ok(output) => {
            let sessions = sessions_in(lines_of(output));
            if verbose == Some(true) {
                lemma_session_tree_run(pane, sessions, Seq::empty(), replies);
                lemma_concat_empty(sessions_text(sessions, replies, pane));
            } else {
                lemma_run_done(pane, session_listing(sessions), replies);
            }
        },
    }
}

/// The pane to mark among the panes of window `w`: the pane that the server
/// runs in, if `w` is the window that it runs in.
pub open spec fn marked_in(
    w: WinFields,
    current: Option<Seq<char>>,
    pane: Option<Seq<char>>,
) -> Option<Seq<char>> {
    if is_current_window(w, current) {
        pane
    } else {
        None
    }
}

/// The tree of windows before its trailing white space is removed: per
/// window its header, then the block of its panes; `replies[i]` is the reply
/// to the listing of the panes of `windows[i]`.
pub open spec fn windows_text(
    windows: Seq<WinFields>,
    current: Option<Seq<char>>,
    replies: Seq<Reply>,
    pane: Option<Seq<char>>,
) -> Seq<char>
    decreases windows.len(),
{
    if windows.len() == 0 {
        Seq::empty()
    } else {
        window_header(windows[0]) + panes_shown(
            replies[0],
            window_pane_indent(),
            marked_in(windows[0], current, pane),
        ) + windows_text(windows.drop_first(), current, replies.drop_first(), pane)
    }
}

/// The commands that the tree of windows asks for: the listing of the panes
/// of each window, in order.
pub open spec fn windows_commands(windows: Seq<WinFields>) -> Seq<Seq<Seq<char>>> {
    Seq::new(windows.len(), |i: int| fetch_panes_command(windows[i].session, windows[i].index))
}

/// One step of the tree of windows: the panes of the first window are
/// listed and their block is written.
proof fn lemma_window_step(
    pane: Option<Seq<char>>,
    windows: Seq<WinFields>,
    current: Option<Seq<char>>,
    out: Seq<char>,
    replies: Seq<Reply>,
)
    requires
        windows.len() > 0,
        replies.len() > 0,
    ensures
        outcome(pane, window_tree_next(windows, current, out), replies) == outcome(
            pane,
            window_tree_next(
                windows.drop_first(),
                current,
                out + window_header(windows[0]) + panes_shown(
                    replies[0],
                    window_pane_indent(),
                    marked_in(windows[0], current, pane),
                ),
            ),
            replies.drop_first(),
        ),
        commands(pane, window_tree_next(windows, current, out), replies) == seq![
            fetch_panes_command(windows[0].session, windows[0].index),
        ] + commands(
            pane,
            window_tree_next(
                windows.drop_first(),
                current,
                out + window_header(windows[0]) + panes_shown(
                    replies[0],
                    window_pane_indent(),
                    marked_in(windows[0], current, pane),
                ),
            ),
            replies.drop_first(),
        ),
{
    lemma_run_ask(pane, window_tree_next(windows, current, out), replies);
}

/// The tree of windows, run to its end, is the text of all windows without
/// its trailing white space. A window whose panes cannot be listed keeps its
/// header alone, and the tree goes on after it.
pub proof fn lemma_window_tree_run(
    pane: Option<Seq<char>>,
    windows: Seq<WinFields>,
    current: Option<Seq<char>>,
    out: Seq<char>,
    replies: Seq<Reply>,
)
    requires
        replies.len() >= windows.len(),
    ensures
        outcome(pane, window_tree_next(windows, current, out), replies) == Some(
            trimmed_end(out + windows_text(windows, current, replies, pane)),
        ),
        commands(pane, window_tree_next(windows, current, out), replies) == windows_commands(
            windows,
        ),
    decreases windows.len(),
{
    if windows.len() == 0 {
        lemma_run_done(pane, trimmed_end(out), replies);
        lemma_concat_empty(out);
        assert(windows_commands(windows) =~= Seq::empty());
    } else {
        let header = window_header(windows[0]);
        let block = panes_shown(
            replies[0],
            window_pane_indent(),
            marked_in(windows[0], current, pane),
        );
        let rest = windows.drop_first();
        let later = replies.drop_first();
        let below = windows_text(rest, current, later, pane);
        lemma_window_step(pane, windows, current, out, replies);
        lemma_window_tree_run(pane, rest, current, out + header + block, later);
        assert(out + header + block + below == out + windows_text(windows, current, replies, pane))
            by {
            lemma_concat_assoc(header, block, below);
            lemma_concat_assoc(out, header, block);
            lemma_concat_assoc(out, header + block, below);
        }
        assert(seq![fetch_panes_command(windows[0].session, windows[0].index)] + windows_commands(
            rest,
        ) =~= windows_commands(windows));
    }
}

/// What `list_windows` hands out for a listing of windows, given the window
/// that the server runs in, as far as it is known.
pub open spec fn windows_shown(
    verbose: Option<bool>,
    windows: Seq<WinFields>,
    current: Option<Seq<char>>,
    replies: Seq<Reply>,
    pane: Option<Seq<char>>,
) -> Seq<char> {
    if verbose == Some(true) {
        trimmed_end(windows_text(windows, current, replies, pane))
    } else {
        window_listing(windows, current)
    }
}

/// The commands that `list_windows` asks for once the windows are known:
/// the listings of their panes in the long form, none in the short form.
pub open spec fn windows_asked(verbose: Option<bool>, windows: Seq<WinFields>) -> Seq<
    Seq<Seq<char>>,
> {
    if verbose == Some(true) {
        windows_commands(windows)
    } else {
        Seq::empty()
    }
}

/// `list_windows` from the point where the windows and the current window
/// are known.
proof fn lemma_windows_listed(
    pane: Option<Seq<char>>,
    verbose: Option<bool>,
    windows: Seq<WinFields>,
    current: Option<Seq<char>>,
    replies: Seq<Reply>,
)
    requires
        verbose == Some(true) ==> replies.len() >= windows.len(),
    ensures
        outcome(pane, windows_listed(verbose_of(verbose), windows, current), replies) == Some(
            windows_shown(verbose, windows, current, replies, pane),
        ),
        commands(pane, windows_listed(verbose_of(verbose), windows, current), replies)
            == windows_asked(verbose, windows),
{
    if verbose == Some(true) {
        lemma_window_tree_run(pane, windows, current, Seq::empty(), replies);
        lemma_concat_empty(windows_text(windows, current, replies, pane));
    } else {
        lemma_run_done(pane, window_listing(windows, current), replies);
    }
}

/// `list_windows`, run to its end outside tmux: no window is marked. A
/// listing that fails is the result as text.
pub proof fn lemma_list_windows_outside(
    session: Option<Seq<char>>,
    verbose: Option<bool>,
    listing: Reply,
    replies: Seq<Reply>,
)
    requires
        verbose == Some(true) ==> (listing matches Ok(output) ==> replies.len() >= windows_in(
            lines_of(output),
        ).len()),
    ensures
        outcome(None, windows_begun(session, verbose), seq![listing] + replies) == Some(
            match listing {
                Err(error) => error,
                Ok(output) => windows_shown(
                    verbose,
                    windows_in(lines_of(output)),
                    None,
                    replies,
                    None,
                ),
            },
        ),
        commands(None, windows_begun(session, verbose), seq![listing] + replies) == seq![
            list_windows_command(session),
        ] + (match listing {
            Err(_) => Seq::<Seq<Seq<char>>>::empty(),
            Ok(output) => windows_asked(verbose, windows_in(lines_of(output))),
        }),
{
    let all = seq![listing] + replies;
    assert(all.drop_first() =~= replies);
    assert(all[0] == listing);
    lemma_run_ask(None, windows_begun(session, verbose), all);
    match listing {
        Err(error) => {
            lemma_run_done(None, error, replies);
        },
        Ok(output) => {
            lemma_windows_listed(None, verbose, windows_in(lines_of(output)), None, replies);
        },
    }
}

/// `list_windows`, run to its end inside tmux: after the listing, the window
/// that the server runs in is looked up, and it is marked if the lookup
/// succeeds. A listing that fails is the result as text, and nothing is
/// looked up.
pub proof fn lemma_list_windows_inside(
    id: Seq<char>,
    session: Option<Seq<char>>,
    verbose: Option<bool>,
    listing: Reply,
    lookup: Reply,
    replies: Seq<Reply>,
)
    requires
        verbose == Some(true) ==> (listing matches Ok(output) ==> replies.len() >= windows_in(
            lines_of(output),
        ).len()),
    ensures
        outcome(
            Some(id),
            windows_begun(session, verbose),
            seq![listing] + (seq![lookup] + replies),
        ) == Some(
            match listing {
                Err(error) => error,
                Ok(output) => windows_shown(
                    verbose,
                    windows_in(lines_of(output)),
                    window_named(lookup),
                    replies,
                    Some(id),
                ),
            },
        ),
        commands(
            Some(id),
            windows_begun(session, verbose),
            seq![listing] + (seq![lookup] + replies),
        ) == seq![list_windows_command(session)] + (match listing {
            Err(_) => Seq::<Seq<Seq<char>>>::empty(),
            Ok(output) => seq![display_command(id, WINDOW_KEY_FORMAT@)] + windows_asked(
                verbose,
                windows_in(lines_of(output)),
            ),
        }),
{
    let later = seq![lookup] + replies;
    let all = seq![listing] + later;
    assert(all.drop_first() =~= later);
    assert(later.drop_first() =~= replies);
    assert(all[0] == listing);
    assert(later[0] == lookup);
    lemma_run_ask(Some(id), windows_begun(session, verbose), all);
    match listing {
        Err(error) => {
            lemma_run_done(Some(id), error, later);
        },
        Ok(output) => {
            let windows = windows_in(lines_of(output));
            let begun = windows_begun(session, verbose);
            lemma_run_ask(Some(id), resumed(Some(id), begun->task, listing), later);
            lemma_windows_listed(Some(id), verbose, windows, window_named(lookup), replies);
        },
    }
}

/// A description of the ambient pane, run to its end: outside tmux it says
/// so without asking anything; inside, it asks once and hands out the reply
/// without surrounding white space, or the text of the failure.
pub proof fn lemma_description(pane: Option<Seq<char>>, format: Seq<char>, reply: Reply)
    ensures
        outcome(pane, description_begun(pane, format), seq![reply]) == Some(
            match pane {
                None => not_inside_tmux(),
                Some(_) => match reply {
                    Ok(info) => trimmed(info),
                    Err(error) => error,
                },
            },
        ),
        commands(pane, description_begun(pane, format), seq![reply]) == (match pane {
            None => Seq::<Seq<Seq<char>>>::empty(),
            Some(id) => seq![display_command(id, format)],
        }),
{
    let replies = seq![reply];
    assert(replies[0] == reply);
    match pane {
        None => {
            lemma_run_done(pane, not_inside_tmux(), replies);
        },
        Some(id) => {
            lemma_run_ask(pane, description_begun(pane, format), replies);
            match reply {
                Ok(info) => {
                    lemma_run_done(pane, trimmed(info), replies.drop_first());
                },
                Err(error) => {
                    lemma_run_done(pane, error, replies.drop_first());
                },
            }
            assert(seq![display_command(id, format)] + Seq::<Seq<Seq<char>>>::empty() =~= seq![
                display_command(id, format),
            ]);
        },
    }
}

/// Tmux answering `reply` to whatever it is asked.
pub open spec fn answering(reply: Reply) -> spec_fn(Seq<Seq<char>>) -> Reply {
    |command: Seq<Seq<char>>| reply
}

/// Whether completing a target takes a lookup: its plan asks for one, and
/// there is an ambient pane to ask about.
pub open spec fn looks_up(plan: Plan, pane: Option<Seq<char>>) -> bool {
    plan_lookup(plan) is Some && pane is Some
}

/// The lookup that completing a target asks for, if it asks for one.
pub open spec fn lookup_asked(plan: Plan, pane: Option<Seq<char>>) -> Seq<Seq<Seq<char>>> {
    match (plan_lookup(plan), pane) {
        (Some(format), Some(id)) => seq![display_command(id, format)],
        _ => Seq::empty(),
    }
}

/// The replies that an operation with a target is given: the reply to the
/// lookup, if it makes one, and then `rest`.
pub open spec fn with_lookup(lookup: Reply, asked: bool, rest: Seq<Reply>) -> Seq<Reply> {
    if asked {
        seq![lookup] + rest
    } else {
        rest
    }
}

/// `get_pane_contents`, run to its end: it captures the pane that its target
/// resolves to and hands out the captured text, or the text of the failure
/// of the capture. A target that cannot be resolved is the result as text,
/// and nothing is captured. `lookup` is the reply to the lookup, which is
/// made only where the target needs it; `capture` is the reply to the
/// capture.
pub proof fn lemma_get_pane_contents(
    pane: Option<Seq<char>>,
    target: Seq<char>,
    scroll_back_lines: Option<u32>,
    lookup: Reply,
    capture: Reply,
)
    ensures
        outcome(
            pane,
            pane_contents_begun(pane, target, scroll_back_lines),
            with_lookup(lookup, looks_up(pane_plan(target, pane is Some), pane), seq![capture]),
        ) == Some(
            match resolved_pane(target, pane, answering(lookup)) {
                Ok(t) => captured(t, capture),
                Err(why) => why,
            },
        ),
        commands(
            pane,
            pane_contents_begun(pane, target, scroll_back_lines),
            with_lookup(lookup, looks_up(pane_plan(target, pane is Some), pane), seq![capture]),
        ) == lookup_asked(pane_plan(target, pane is Some), pane) + (match resolved_pane(
            target,
            pane,
            answering(lookup),
        ) {
            Ok(t) => seq![capture_command(t, scroll_back_of(scroll_back_lines))],
            Err(_) => Seq::<Seq<Seq<char>>>::empty(),
        }),
{
    let plan = pane_plan(target, pane is Some);
    let scroll_back = scroll_back_of(scroll_back_lines);
    let begun = pane_contents_begun(pane, target, scroll_back_lines);
    if looks_up(plan, pane) {
        let replies = seq![lookup] + seq![capture];
        assert(replies[0] == lookup);
        assert(replies.drop_first() =~= seq![capture]);
        lemma_run_ask(pane, begun, replies);
        lemma_pane_contents(pane, completed(plan, lookup), scroll_back, capture);
    } else {
        let settled = completed(plan, Err(Seq::empty()));
        lemma_pane_contents(pane, settled, scroll_back, capture);
        assert(lookup_asked(plan, pane) + commands(pane, begun, seq![capture]) =~= commands(
            pane,
            begun,
            seq![capture],
        ));
    }
}

/// `get_window_contents`, run to its end: it lists the panes of the window
/// that its target resolves to, captures each, and hands out their blocks. A
/// target that cannot be resolved, or a listing that fails, is the result as
/// text. `lookup` is the reply to the lookup, which is made only where the
/// target needs it; `listing` is the reply to the listing of the panes, and
/// `captures` are the replies to the captures.
pub proof fn lemma_get_window_contents(
    pane: Option<Seq<char>>,
    target: Option<Seq<char>>,
    scroll_back_lines: Option<u32>,
    lookup: Reply,
    listing: Reply,
    captures: Seq<Reply>,
)
    requires
        listing matches Ok(output) ==> captures.len() >= pane_lines_in(lines_of(output)).len(),
    ensures
        outcome(
            pane,
            window_contents_begun(pane, target, scroll_back_lines),
            with_lookup(
                lookup,
                looks_up(window_plan(target, pane is Some), pane),
                seq![listing] + captures,
            ),
        ) == Some(
            match resolved_window(target, pane, answering(lookup)) {
                Err(why) => why,
                Ok(_) => match listing {
                    Err(error) => error,
                    Ok(output) => contents_of(pane_lines_in(lines_of(output)), captures),
                },
            },
        ),
        commands(
            pane,
            window_contents_begun(pane, target, scroll_back_lines),
            with_lookup(
                lookup,
                looks_up(window_plan(target, pane is Some), pane),
                seq![listing] + captures,
            ),
        ) == lookup_asked(window_plan(target, pane is Some), pane) + (match resolved_window(
            target,
            pane,
            answering(lookup),
        ) {
            Err(_) => Seq::<Seq<Seq<char>>>::empty(),
            Ok(t) => seq![list_panes_command(t, WINDOW_PANES_FORMAT@)] + (match listing {
                Err(_) => Seq::<Seq<Seq<char>>>::empty(),
                Ok(output) => captures_of(
                    pane_lines_in(lines_of(output)),
                    scroll_back_of(scroll_back_lines),
                ),
            }),
        }),
{
    let plan = window_plan(target, pane is Some);
    let scroll_back = scroll_back_of(scroll_back_lines);
    let begun = window_contents_begun(pane, target, scroll_back_lines);
    let rest = seq![listing] + captures;
    if looks_up(plan, pane) {
        let replies = seq![lookup] + rest;
        assert(replies[0] == lookup);
        assert(replies.drop_first() =~= rest);
        lemma_run_ask(pane, begun, replies);
        lemma_window_contents(pane, completed(plan, lookup), scroll_back, listing, captures);
    } else {
        let settled = completed(plan, Err(Seq::empty()));
        lemma_window_contents(pane, settled, scroll_back, listing, captures);
        assert(lookup_asked(plan, pane) + commands(pane, begun, rest) =~= commands(
            pane,
            begun,
            rest,
        ));
    }
}

} // verus!
