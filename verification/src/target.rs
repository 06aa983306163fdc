//! The target resolver: turns what a caller wrote for a pane or a window
//! (`1`, `5.1`, `API:5`, `API:5.1`) into a fully qualified target, with the
//! help of one lookup for the pane that the server itself runs in.

use crate::command::display_command;
use crate::command::lookup_reply;
use crate::command::reply_text;
use crate::command::resolve_pane_id;
use crate::command::Reply;
use crate::command::SESSION_NAME_FORMAT;
use crate::command::WINDOW_KEY_FORMAT;
use crate::text::contains_char;
use crate::text::is_trimmed;
use crate::text::lemma_trimmed_is_trimmed;
use crate::text::lemma_trimmed_keeps_trimmed;
use crate::text::trim;
use crate::text::trimmed;
use vstd::prelude::*;

verus! {

/// How a target is to be completed.
pub enum TargetPlan {
    /// The target is complete as it stands.
    Ready(String),
    /// The target lacks a session: the ambient session's name goes before it,
    /// with a colon.
    WithSession(String),
    /// The target is a pane index: the ambient `session:window` goes before
    /// it, with a dot.
    WithWindow(String),
    /// No target was given: the ambient `session:window` is the target.
    CurrentWindow,
    /// No target can be had; the text says why.
    Rejected(String),
}

/// The text of a `TargetPlan`.
pub enum Plan {
    Ready(Seq<char>),
    WithSession(Seq<char>),
    WithWindow(Seq<char>),
    CurrentWindow,
    Rejected(Seq<char>),
}

impl DeepView for TargetPlan {
    type V = Plan;

    open spec fn deep_view(&self) -> Plan {
        match self {
            TargetPlan::Ready(t) => Plan::Ready(t@),
            TargetPlan::WithSession(t) => Plan::WithSession(t@),
            TargetPlan::WithWindow(t) => Plan::WithWindow(t@),
            TargetPlan::CurrentWindow => Plan::CurrentWindow,
            TargetPlan::Rejected(m) => Plan::Rejected(m@),
        }
    }
}

/// The refusal of a session-qualified target that names no pane where a pane
/// is needed.
pub open spec fn invalid_target(target: Seq<char>) -> Seq<char> {
    "Invalid target \""@ + target
        + "\": expected \"sess:window.pane\" but no pane specifier found. Use get_window_contents to read an entire window."@
}

/// The refusal of a target that needs the ambient pane when there is none.
pub open spec fn not_inside() -> Seq<char> {
    "Not running inside tmux"@
}

/// The refusal of an absent target when there is no ambient pane.
pub open spec fn no_target() -> Seq<char> {
    "No target specified and not running inside tmux"@
}

/// The plan for a target that must name a pane. `raw` is read without its
/// surrounding white space. With a colon it must also hold a dot and is then
/// complete; without a colon it needs the ambient pane: a target with a dot is
/// `window.pane` and lacks the session, one without is a pane index.
pub open spec fn pane_plan(raw: Seq<char>, ambient: bool) -> Plan {
    let t = trimmed(raw);
    if t.contains(':') {
        if t.contains('.') {
            Plan::Ready(t)
        } else {
            Plan::Rejected(invalid_target(t))
        }
    } else if !ambient {
        Plan::Rejected(not_inside())
    } else if t.contains('.') {
        Plan::WithSession(t)
    } else {
        Plan::WithWindow(t)
    }
}

/// The plan for a target that names a window. With a colon it is complete as
/// written; without, it is a window index and lacks the session; an absent
/// target stands for the ambient window.
pub open spec fn window_plan(raw: Option<Seq<char>>, ambient: bool) -> Plan {
    match raw {
        Some(t) => if t.contains(':') {
            Plan::Ready(t)
        } else if !ambient {
            Plan::Rejected(not_inside())
        } else {
            Plan::WithSession(t)
        },
        None => if !ambient {
            Plan::Rejected(no_target())
        } else {
            Plan::CurrentWindow
        },
    }
}

/// The format of the lookup that a plan needs, if it needs one.
pub open spec fn plan_lookup(plan: Plan) -> Option<Seq<char>> {
    match plan {
        Plan::WithSession(_) => Some(SESSION_NAME_FORMAT@),
        Plan::WithWindow(_) => Some(WINDOW_KEY_FORMAT@),
        Plan::CurrentWindow => Some(WINDOW_KEY_FORMAT@),
        _ => None,
    }
}

/// The target that a plan gives once the reply to its lookup is known, or the
/// text of the failure. A plan that needs no lookup does not look at `reply`.
pub open spec fn completed(plan: Plan, reply: Reply) -> Reply {
    match plan {
        Plan::Ready(t) => Ok(t),
        Plan::Rejected(why) => Err(why),
        Plan::WithSession(t) => match lookup_reply(reply) {
            Ok(session) => Ok(session + ":"@ + t),
            Err(error) => Err(error),
        },
        Plan::WithWindow(t) => match lookup_reply(reply) {
            Ok(window) => Ok(window + "."@ + t),
            Err(error) => Err(error),
        },
        Plan::CurrentWindow => lookup_reply(reply),
    }
}

/// What a plan resolves to, given the ambient pane and `ask`, which stands for
/// tmux: it maps the arguments of a command to the reply.
pub open spec fn resolved(
    plan: Plan,
    pane: Option<Seq<char>>,
    ask: spec_fn(Seq<Seq<char>>) -> Reply,
) -> Reply {
    match (plan_lookup(plan), pane) {
        (Some(format), Some(id)) => completed(plan, ask(display_command(id, format))),
        _ => completed(plan, Err(Seq::empty())),
    }
}

/// What a target that must name a pane resolves to.
pub open spec fn resolved_pane(
    raw: Seq<char>,
    pane: Option<Seq<char>>,
    ask: spec_fn(Seq<Seq<char>>) -> Reply,
) -> Reply {
    resolved(pane_plan(raw, pane is Some), pane, ask)
}

/// What a target that names a window resolves to.
pub open spec fn resolved_window(
    raw: Option<Seq<char>>,
    pane: Option<Seq<char>>,
    ask: spec_fn(Seq<Seq<char>>) -> Reply,
) -> Reply {
    resolved(window_plan(raw, pane is Some), pane, ask)
}

/// Plans the completion of a target that must name a pane. `ambient` says
/// whether the server runs inside a pane.
pub fn plan_pane_target(raw: &str, ambient: bool) -> (plan: TargetPlan)
    ensures
        plan.deep_view() == pane_plan(raw@, ambient),
{
    let t = trim(raw);
    if contains_char(t, ':') {
        if contains_char(t, '.') {
            TargetPlan::Ready(t.to_owned())
        } else {
            let mut why = "Invalid target \"".to_owned();
            why.append(t);
            why.append(
                "\": expected \"sess:window.pane\" but no pane specifier found. Use get_window_contents to read an entire window.",
            );
            TargetPlan::Rejected(why)
        }
    } else if !ambient {
        TargetPlan::Rejected("Not running inside tmux".to_owned())
    } else if contains_char(t, '.') {
        TargetPlan::WithSession(t.to_owned())
    } else {
        TargetPlan::WithWindow(t.to_owned())
    }
}

/// The text of an optional target.
pub open spec fn option_text(raw: Option<String>) -> Option<Seq<char>> {
    match raw {
        Some(t) => Some(t@),
        None => None,
    }
}

/// Plans the completion of a target that names a window. `ambient` says
/// whether the server runs inside a pane.
pub fn plan_window_target(raw: Option<String>, ambient: bool) -> (plan: TargetPlan)
    ensures
        plan.deep_view() == window_plan(option_text(raw), ambient),
{
    match raw {
        Some(t) => {
            if contains_char(t.as_str(), ':') {
                TargetPlan::Ready(t)
            } else if !ambient {
                TargetPlan::Rejected("Not running inside tmux".to_owned())
            } else {
                TargetPlan::WithSession(t)
            }
        },
        None => {
            if !ambient {
                TargetPlan::Rejected("No target specified and not running inside tmux".to_owned())
            } else {
                TargetPlan::CurrentWindow
            }
        },
    }
}

/// The format of the lookup that `plan` needs, if it needs one.
pub fn lookup_format(plan: &TargetPlan) -> (format: Option<&'static str>)
    ensures
        match format {
            Some(f) => plan_lookup(plan.deep_view()) == Some(f@),
            None => plan_lookup(plan.deep_view()) is None,
        },
{
    match plan {
        TargetPlan::WithSession(_) => Some(SESSION_NAME_FORMAT),
        TargetPlan::WithWindow(_) => Some(WINDOW_KEY_FORMAT),
        TargetPlan::CurrentWindow => Some(WINDOW_KEY_FORMAT),
        _ => None,
    }
}

/// Completes a target with the reply to its lookup.
pub fn complete_target(plan: TargetPlan, reply: Result<String, String>) -> (target: Result<
    String,
    String,
>)
    ensures
        reply_text(target) == completed(plan.deep_view(), reply_text(reply)),
{
    match plan {
        TargetPlan::Ready(t) => Ok(t),
        TargetPlan::Rejected(why) => Err(why),
        TargetPlan::WithSession(t) => match resolve_pane_id(reply) {
            Ok(session) => {
                let mut target = session;
                target.append(":");
                target.append(t.as_str());
                Ok(target)
            },
            Err(error) => Err(error),
        },
        TargetPlan::WithWindow(t) => match resolve_pane_id(reply) {
            Ok(window) => {
                let mut target = window;
                target.append(".");
                target.append(t.as_str());
                Ok(target)
            },
            Err(error) => Err(error),
        },
        TargetPlan::CurrentWindow => resolve_pane_id(reply),
    }
}

/// A character occurs in a concatenation exactly when it occurs in one of
/// the parts.
pub proof fn lemma_contains_concat(a: Seq<char>, b: Seq<char>, c: char)
    ensures
        (a + b).contains(c) <==> a.contains(c) || b.contains(c),
{
    if a.contains(c) {
        let i = choose|i: int| 0 <= i < a.len() && a[i] == c;
        assert((a + b)[i] == c);
    }
    if b.contains(c) {
        let i = choose|i: int| 0 <= i < b.len() && b[i] == c;
        assert((a + b)[a.len() + i] == c);
    }
    if (a + b).contains(c) {
        let i = choose|i: int| 0 <= i < (a + b).len() && (a + b)[i] == c;
        if i < a.len() {
            assert(a[i] == c);
        } else {
            assert(b[i - a.len()] == c);
        }
    }
}

/// A target that holds both a colon and a dot is fully qualified: it resolves
/// to itself, without its surrounding white space, whatever the ambient pane
/// is and whatever tmux would answer.
pub proof fn lemma_qualified_pane_target_is_kept(
    raw: Seq<char>,
    pane: Option<Seq<char>>,
    ask: spec_fn(Seq<Seq<char>>) -> Reply,
)
    requires
        trimmed(raw).contains(':'),
        trimmed(raw).contains('.'),
    ensures
        resolved_pane(raw, pane, ask) == Reply::Ok(trimmed(raw)),
        is_trimmed(raw) ==> resolved_pane(raw, pane, ask) == Reply::Ok(raw),
{
    if is_trimmed(raw) {
        lemma_trimmed_keeps_trimmed(raw);
    }
}

/// A session-qualified target without a pane is refused where a pane is
/// needed, whatever the ambient pane is.
pub proof fn lemma_pane_target_without_pane_is_refused(
    raw: Seq<char>,
    pane: Option<Seq<char>>,
    ask: spec_fn(Seq<Seq<char>>) -> Reply,
)
    requires
        trimmed(raw).contains(':'),
        !trimmed(raw).contains('.'),
    ensures
        resolved_pane(raw, pane, ask) == Reply::Err(
            invalid_target(trimmed(raw)),
        ),
{
}

/// Without an ambient pane, every target that needs a lookup is refused with
/// a text that says so.
pub proof fn lemma_lookup_needs_ambient_pane(
    raw: Seq<char>,
    ask: spec_fn(Seq<Seq<char>>) -> Reply,
)
    ensures
        !trimmed(raw).contains(':') ==> resolved_pane(raw, None, ask) == Reply::Err(not_inside()),
        !raw.contains(':') ==> resolved_window(Some(raw), None, ask) == Reply::Err(not_inside()),
        resolved_window(None, None, ask) == Reply::Err(no_target()),
{
}

/// With an ambient pane, a target without a session is completed from the
/// reply to the lookup: `window.pane` gets the session's name and a colon
/// before it, a pane index gets `session:window` and a dot.
pub proof fn lemma_pane_target_is_completed(
    raw: Seq<char>,
    id: Seq<char>,
    ask: spec_fn(Seq<Seq<char>>) -> Reply,
)
    requires
        !trimmed(raw).contains(':'),
    ensures
        trimmed(raw).contains('.') ==> (match ask(display_command(id, SESSION_NAME_FORMAT@)) {
            Ok(session) => resolved_pane(raw, Some(id), ask) == Reply::Ok(
                trimmed(session) + ":"@ + trimmed(raw),
            ),
            Err(error) => resolved_pane(raw, Some(id), ask) == Reply::Err(error),
        }),
        !trimmed(raw).contains('.') ==> (match ask(display_command(id, WINDOW_KEY_FORMAT@)) {
            Ok(window) => resolved_pane(raw, Some(id), ask) == Reply::Ok(
                trimmed(window) + "."@ + trimmed(raw),
            ),
            Err(error) => resolved_pane(raw, Some(id), ask) == Reply::Err(error),
        }),
{
}

/// Resolving is idempotent on qualified targets: a target that came out of
/// the resolver for panes, and holds a colon, resolves to itself when it is
/// put in again, whatever the ambient pane and tmux's answers are then.
pub proof fn lemma_resolved_pane_target_is_stable(
    raw: Seq<char>,
    pane: Option<Seq<char>>,
    ask: spec_fn(Seq<Seq<char>>) -> Reply,
    target: Seq<char>,
    pane_again: Option<Seq<char>>,
    ask_again: spec_fn(Seq<Seq<char>>) -> Reply,
)
    requires
        resolved_pane(raw, pane, ask) == Reply::Ok(target),
        target.contains(':'),
    ensures
        resolved_pane(target, pane_again, ask_again) == Reply::Ok(target),
{
    let t = trimmed(raw);
    lemma_trimmed_is_trimmed(raw);
    reveal_strlit(":");
    reveal_strlit(".");
    let plan = pane_plan(raw, pane is Some);
    match plan {
        Plan::Ready(_) => {
            lemma_trimmed_keeps_trimmed(t);
        },
        Plan::WithSession(_) => {
            let id = pane->0;
            let reply = ask(display_command(id, SESSION_NAME_FORMAT@));
            let session = trimmed(reply->Ok_0);
            lemma_trimmed_is_trimmed(reply->Ok_0);
            assert(target == session + ":"@ + t);
            lemma_contains_concat(session + ":"@, t, '.');
            assert(t.len() > 0);
            assert(target[0] == (if session.len() > 0 {
                session[0]
            } else {
                ':'
            }));
            assert(target.last() == t.last());
            lemma_trimmed_keeps_trimmed(target);
        },
        Plan::WithWindow(_) => {
            let id = pane->0;
            let reply = ask(display_command(id, WINDOW_KEY_FORMAT@));
            let window = trimmed(reply->Ok_0);
            lemma_trimmed_is_trimmed(reply->Ok_0);
            assert(target == window + "."@ + t);
            lemma_contains_concat(window, "."@, '.');
            lemma_contains_concat(window + "."@, t, '.');
            assert("."@[0] == '.');
            assert(target[0] == (if window.len() > 0 {
                window[0]
            } else {
                '.'
            }));
            assert(target.last() == (if t.len() > 0 {
                t.last()
            } else {
                '.'
            }));
            lemma_trimmed_keeps_trimmed(target);
        },
        _ => {},
    }
}

/// A target that came out of the resolver for windows, and holds a colon,
/// resolves to itself when it is put in again.
pub proof fn lemma_resolved_window_target_is_stable(
    raw: Option<Seq<char>>,
    pane: Option<Seq<char>>,
    ask: spec_fn(Seq<Seq<char>>) -> Reply,
    target: Seq<char>,
    pane_again: Option<Seq<char>>,
    ask_again: spec_fn(Seq<Seq<char>>) -> Reply,
)
    requires
        resolved_window(raw, pane, ask) == Reply::Ok(target),
        target.contains(':'),
    ensures
        resolved_window(Some(target), pane_again, ask_again) == Reply::Ok(target),
{
}

/// What the resolver for panes hands out always names a pane: it holds a dot.
/// It also holds a colon, unless it was made from a pane index and a reply
/// to the lookup that held none.
pub proof fn lemma_resolved_pane_target_shape(
    raw: Seq<char>,
    pane: Option<Seq<char>>,
    ask: spec_fn(Seq<Seq<char>>) -> Reply,
    target: Seq<char>,
)
    requires
        resolved_pane(raw, pane, ask) == Reply::Ok(target),
    ensures
        target.contains('.'),
        trimmed(raw).contains(':') || trimmed(raw).contains('.') ==> target.contains(':'),
{
    let t = trimmed(raw);
    reveal_strlit(":");
    reveal_strlit(".");
    match pane_plan(raw, pane is Some) {
        Plan::WithSession(_) => {
            let id = pane->0;
            let reply = ask(display_command(id, SESSION_NAME_FORMAT@));
            let session = trimmed(reply->Ok_0);
            assert(target == session + ":"@ + t);
            lemma_contains_concat(session + ":"@, t, '.');
            lemma_contains_concat(session + ":"@, t, ':');
            lemma_contains_concat(session, ":"@, ':');
            assert(":"@[0] == ':');
        },
        Plan::WithWindow(_) => {
            let id = pane->0;
            let reply = ask(display_command(id, WINDOW_KEY_FORMAT@));
            let window = trimmed(reply->Ok_0);
            assert(target == window + "."@ + t);
            lemma_contains_concat(window, "."@, '.');
            lemma_contains_concat(window + "."@, t, '.');
            assert("."@[0] == '.');
        },
        _ => {},
    }
}

} // verus!
