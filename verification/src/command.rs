//! The command lines that the queries put to tmux, and the reading of what a
//! finished command hands back.

use crate::number::decimal;
use crate::number::render_u32;
use crate::text::push_text;
use crate::text::trim;
use crate::text::trimmed;
use vstd::prelude::*;
use vstd::utf8::decode_utf8;
use vstd::utf8::valid_utf8;

verus! {

/// One line per session: name, number of windows, attached or detached.
pub const SESSIONS_FORMAT: &'static str =
    "#{session_name}\t#{session_windows}\t#{?session_attached,attached,detached}";

/// One line per window of one session: index, name, number of panes.
pub const SESSION_WINDOWS_FORMAT: &'static str = "#{window_index}\t#{window_name}\t#{window_panes}";

/// One line per window: session, index, name, number of panes, activity.
pub const WINDOWS_FORMAT: &'static str =
    "#{session_name}\t#{window_index}\t#{window_name}\t#{window_panes}\t#{?window_active,active,}";

/// One line per pane: index, width, height, command, activity, pane id.
pub const PANES_FORMAT: &'static str =
    "#{pane_index}\t#{pane_width}\t#{pane_height}\t#{pane_current_command}\t#{?pane_active,1,0}\t#{pane_id}";

/// One line per pane of a window, led by the pane's full target.
pub const WINDOW_PANES_FORMAT: &'static str =
    "#{session_name}:#{window_index}.#{pane_index}\t#{pane_title}\t#{pane_width}x#{pane_height}\t#{?pane_active,active,}";

/// The name of the session that a pane belongs to.
pub const SESSION_NAME_FORMAT: &'static str = "#{session_name}";

/// The session and window that a pane belongs to, as `session:window`.
pub const WINDOW_KEY_FORMAT: &'static str = "#{session_name}:#{window_index}";

/// The description of the session that a pane belongs to.
pub const CURRENT_SESSION_FORMAT: &'static str =
    "#{session_name}:#{window_index} (window: #{window_name})";

/// The description of the window that a pane belongs to.
pub const CURRENT_WINDOW_FORMAT: &'static str =
    "#{session_name}:#{window_index}\t#{window_name}\t#{window_panes} panes";

/// Scrollback lines that a capture includes when the caller names no number.
pub const DEFAULT_SCROLL_BACK: u32 = 1000;

/// The arguments that list all sessions.
pub open spec fn list_sessions_command() -> Seq<Seq<char>> {
    seq!["list-sessions"@, "-F"@, SESSIONS_FORMAT@]
}

/// The arguments that list the windows of `session` for the session tree.
pub open spec fn session_windows_command(session: Seq<char>) -> Seq<Seq<char>> {
    seq!["list-windows"@, "-t"@, session + ":"@, "-F"@, SESSION_WINDOWS_FORMAT@]
}

/// The arguments that list windows: those of one session, or of all.
pub open spec fn list_windows_command(session: Option<Seq<char>>) -> Seq<Seq<char>> {
    match session {
        Some(name) => seq!["list-windows"@, "-t"@, name + ":"@, "-F"@, WINDOWS_FORMAT@],
        None => seq!["list-windows"@, "-a"@, "-F"@, WINDOWS_FORMAT@],
    }
}

/// The arguments that list the panes of `target` in the given format.
pub open spec fn list_panes_command(target: Seq<char>, format: Seq<char>) -> Seq<Seq<char>> {
    seq!["list-panes"@, "-t"@, target, "-F"@, format]
}

/// The arguments that list the panes of window `window_index` of `session`
/// with their properties.
pub open spec fn fetch_panes_command(session: Seq<char>, window_index: Seq<char>) -> Seq<
    Seq<char>,
> {
    list_panes_command(session + ":"@ + window_index, PANES_FORMAT@)
}

/// The arguments that ask for `format`, filled in for the pane `pane_id`.
pub open spec fn display_command(pane_id: Seq<char>, format: Seq<char>) -> Seq<Seq<char>> {
    seq!["display-message"@, "-t"@, pane_id, "-p"@, format]
}

/// The first line that a capture includes: `scroll_back` lines above the
/// visible area, or the top of the visible area when that is 0.
pub open spec fn capture_start(scroll_back: u32) -> Seq<char> {
    if scroll_back > 0 {
        "-"@ + decimal(scroll_back as nat)
    } else {
        "0"@
    }
}

/// The arguments that capture the pane `target` with `scroll_back` lines of
/// history.
pub open spec fn capture_command(target: Seq<char>, scroll_back: u32) -> Seq<Seq<char>> {
    seq!["capture-pane"@, "-p"@, "-J"@, "-t"@, target, "-S"@, capture_start(scroll_back)]
}

/// Appends one argument to a command line.
fn push_arg(args: &mut Vec<String>, arg: &str)
    ensures
        final(args).deep_view() == old(args).deep_view().push(arg@),
{
    push_text(args, arg.to_owned());
}

/// Builds the arguments that list all sessions.
pub fn list_sessions_args() -> (args: Vec<String>)
    ensures
        args.deep_view() == list_sessions_command(),
{
    let mut args: Vec<String> = Vec::new();
    assert(args.deep_view() =~= Seq::empty());
    push_arg(&mut args, "list-sessions");
    push_arg(&mut args, "-F");
    push_arg(&mut args, SESSIONS_FORMAT);
    assert(args.deep_view() =~= list_sessions_command());
    args
}

/// Builds the arguments that list the windows of `session` for the session
/// tree.
pub fn session_windows_args(session: &str) -> (args: Vec<String>)
    ensures
        args.deep_view() == session_windows_command(session@),
{
    let mut scope = session.to_owned();
    scope.append(":");
    let mut args: Vec<String> = Vec::new();
    assert(args.deep_view() =~= Seq::empty());
    push_arg(&mut args, "list-windows");
    push_arg(&mut args, "-t");
    push_arg(&mut args, scope.as_str());
    push_arg(&mut args, "-F");
    push_arg(&mut args, SESSION_WINDOWS_FORMAT);
    assert(args.deep_view() =~= session_windows_command(session@));
    args
}

/// Builds the arguments that list windows: those of `session`, or of all
/// sessions when none is named.
pub fn list_windows_args(session: Option<&str>) -> (args: Vec<String>)
    ensures
        args.deep_view() == list_windows_command(
            match session {
                Some(name) => Some(name@),
                None => None,
            },
        ),
{
    let mut args: Vec<String> = Vec::new();
    assert(args.deep_view() =~= Seq::empty());
    push_arg(&mut args, "list-windows");
    match session {
        Some(name) => {
            let mut scope = name.to_owned();
            scope.append(":");
            push_arg(&mut args, "-t");
            push_arg(&mut args, scope.as_str());
            push_arg(&mut args, "-F");
            push_arg(&mut args, WINDOWS_FORMAT);
            assert(args.deep_view() =~= list_windows_command(Some(name@)));
        },
        None => {
            push_arg(&mut args, "-a");
            push_arg(&mut args, "-F");
            push_arg(&mut args, WINDOWS_FORMAT);
            assert(args.deep_view() =~= list_windows_command(None));
        },
    }
    args
}

/// Builds the arguments that list the panes of `target` in `format`.
pub fn list_panes_args(target: &str, format: &str) -> (args: Vec<String>)
    ensures
        args.deep_view() == list_panes_command(target@, format@),
{
    let mut args: Vec<String> = Vec::new();
    assert(args.deep_view() =~= Seq::empty());
    push_arg(&mut args, "list-panes");
    push_arg(&mut args, "-t");
    push_arg(&mut args, target);
    push_arg(&mut args, "-F");
    push_arg(&mut args, format);
    assert(args.deep_view() =~= list_panes_command(target@, format@));
    args
}

/// Builds the arguments that list the panes of one window with their
/// properties.
pub fn fetch_panes_args(session: &str, window_index: &str) -> (args: Vec<String>)
    ensures
        args.deep_view() == fetch_panes_command(session@, window_index@),
{
    let mut target = session.to_owned();
    target.append(":");
    target.append(window_index);
    list_panes_args(target.as_str(), PANES_FORMAT)
}

/// Builds the arguments that ask for `format`, filled in for pane `pane_id`.
pub fn display_args(pane_id: &str, format: &str) -> (args: Vec<String>)
    ensures
        args.deep_view() == display_command(pane_id@, format@),
{
    let mut args: Vec<String> = Vec::new();
    assert(args.deep_view() =~= Seq::empty());
    push_arg(&mut args, "display-message");
    push_arg(&mut args, "-t");
    push_arg(&mut args, pane_id);
    push_arg(&mut args, "-p");
    push_arg(&mut args, format);
    assert(args.deep_view() =~= display_command(pane_id@, format@));
    args
}

/// Writes the first line of a capture.
pub fn capture_start_arg(scroll_back: u32) -> (start: String)
    ensures
        start@ == capture_start(scroll_back),
{
    if scroll_back > 0 {
        let mut start = "-".to_owned();
        let digits = render_u32(scroll_back);
        start.append(digits.as_str());
        start
    } else {
        "0".to_owned()
    }
}

/// Builds the arguments that capture the pane `target`.
pub fn capture_args(target: &str, scroll_back: u32) -> (args: Vec<String>)
    ensures
        args.deep_view() == capture_command(target@, scroll_back),
{
    let start = capture_start_arg(scroll_back);
    let mut args: Vec<String> = Vec::new();
    assert(args.deep_view() =~= Seq::empty());
    push_arg(&mut args, "capture-pane");
    push_arg(&mut args, "-p");
    push_arg(&mut args, "-J");
    push_arg(&mut args, "-t");
    push_arg(&mut args, target);
    push_arg(&mut args, "-S");
    push_arg(&mut args, start.as_str());
    assert(args.deep_view() =~= capture_command(target@, scroll_back));
    args
}

/// A reply as text: the output of a command, or the text of its failure.
pub type Reply = Result<Seq<char>, Seq<char>>;

/// What became of one run of tmux.
pub enum Outcome {
    /// The process could not be started; the text is the system's reason.
    NotStarted(String),
    /// The process ran and ended.
    Exited { success: bool, stdout: Vec<u8>, stderr: Vec<u8> },
}

/// The text that bytes written by tmux stand for: their decoding as UTF-8,
/// with each invalid sequence replaced by U+FFFD.
pub uninterp spec fn lossy_text(bytes: Seq<u8>) -> Seq<char>;

/// `String::from_utf8_lossy`: decodes bytes as UTF-8 and never fails. The
/// result depends on the bytes alone, and for valid UTF-8 it is the text that
/// the bytes encode.
#[verifier::external_body]
fn decode_lossy(bytes: &[u8]) -> (text: String)
    ensures
        text@ == lossy_text(bytes@),
        valid_utf8(bytes@) ==> text@ == decode_utf8(bytes@),
{
    String::from_utf8_lossy(bytes).into_owned()
}

/// The reply that a finished command amounts to: its output when it
/// succeeded, else an error text made of what it wrote to standard error.
pub open spec fn exit_reply(success: bool, stdout: Seq<char>, stderr: Seq<char>) -> Reply {
    if success {
        Ok(stdout)
    } else {
        Err("tmux error: "@ + stderr)
    }
}

/// The error text for a command that could not be started.
pub open spec fn start_failure(reason: Seq<char>) -> Seq<char> {
    "Failed to run tmux: "@ + reason
}

/// The reply that a run of tmux amounts to.
pub open spec fn outcome_reply(outcome: Outcome) -> Reply {
    match outcome {
        Outcome::NotStarted(reason) => Err(start_failure(reason@)),
        Outcome::Exited { success, stdout, stderr } => exit_reply(
            success,
            lossy_text(stdout@),
            lossy_text(stderr@),
        ),
    }
}

/// A reply as text.
pub open spec fn reply_text(reply: Result<String, String>) -> Reply {
    match reply {
        Ok(text) => Ok(text@),
        Err(text) => Err(text@),
    }
}

/// Turns the decoded output of a finished command into a reply.
pub fn exit_result(success: bool, stdout: String, stderr: &str) -> (reply: Result<String, String>)
    ensures
        reply_text(reply) == exit_reply(success, stdout@, stderr@),
{
    if success {
        Ok(stdout)
    } else {
        let mut text = "tmux error: ".to_owned();
        text.append(stderr);
        Err(text)
    }
}

/// Turns the outcome of a run of tmux into a reply: the output as text, or
/// the text of the error. Bytes that are valid UTF-8 are read as the text
/// that they encode.
pub fn run_tmux(outcome: &Outcome) -> (reply: Result<String, String>)
    ensures
        reply_text(reply) == outcome_reply(*outcome),
        *outcome matches Outcome::Exited { success, stdout, stderr } ==> {
            &&& valid_utf8(stdout@) ==> lossy_text(stdout@) == decode_utf8(stdout@)
            &&& valid_utf8(stderr@) ==> lossy_text(stderr@) == decode_utf8(stderr@)
        },
{
    match outcome {
        Outcome::NotStarted(reason) => {
            let mut text = "Failed to run tmux: ".to_owned();
            text.append(reason.as_str());
            Err(text)
        },
        Outcome::Exited { success, stdout, stderr } => {
            let out = decode_lossy(stdout.as_slice());
            let err = decode_lossy(stderr.as_slice());
            exit_result(*success, out, err.as_str())
        },
    }
}

/// What a lookup for a pane amounts to: the reply without surrounding white
/// space, or the error as it is.
pub open spec fn lookup_reply(reply: Reply) -> Reply {
    match reply {
        Ok(text) => Ok(trimmed(text)),
        Err(text) => Err(text),
    }
}

/// Reads the reply to a lookup for a pane.
pub fn resolve_pane_id(reply: Result<String, String>) -> (found: Result<String, String>)
    ensures
        reply_text(found) == lookup_reply(reply_text(reply)),
{
    match reply {
        Ok(text) => Ok(trim(text.as_str()).to_owned()),
        Err(text) => Err(text),
    }
}

/// What stands for a pane's content when its capture failed.
pub open spec fn capture_failure(target: Seq<char>, error: Seq<char>) -> Seq<char> {
    "Error capturing "@ + target + ": "@ + error + "\n"@
}

/// The content of pane `target` as a capture's reply gives it: the captured
/// text, or a line that reports the failure.
pub open spec fn captured(target: Seq<char>, reply: Reply) -> Seq<char> {
    match reply {
        Ok(contents) => contents,
        Err(error) => capture_failure(target, error),
    }
}

/// Reads the reply to a capture of pane `target`.
pub fn capture_pane(target: &str, reply: Result<String, String>) -> (contents: String)
    ensures
        contents@ == captured(target@, reply_text(reply)),
{
    match reply {
        Ok(contents) => contents,
        Err(error) => {
            let mut text = "Error capturing ".to_owned();
            text.append(target);
            text.append(": ");
            text.append(error.as_str());
            text.append("\n");
            text
        },
    }
}

} // verus!
