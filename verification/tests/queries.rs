use tmux_mcp::command::capture_args;
use tmux_mcp::command::capture_pane;
use tmux_mcp::command::capture_start_arg;
use tmux_mcp::command::display_args;
use tmux_mcp::command::exit_result;
use tmux_mcp::command::fetch_panes_args;
use tmux_mcp::command::list_panes_args;
use tmux_mcp::command::list_sessions_args;
use tmux_mcp::command::list_windows_args;
use tmux_mcp::command::resolve_pane_id;
use tmux_mcp::command::run_tmux;
use tmux_mcp::command::session_windows_args;
use tmux_mcp::command::Outcome;
use tmux_mcp::command::DEFAULT_SCROLL_BACK;
use tmux_mcp::command::PANES_FORMAT;
use tmux_mcp::command::SESSIONS_FORMAT;
use tmux_mcp::command::SESSION_WINDOWS_FORMAT;
use tmux_mcp::command::WINDOWS_FORMAT;
use tmux_mcp::command::WINDOW_PANES_FORMAT;
use tmux_mcp::topology::fetch_panes;
use tmux_mcp::topology::parse_pane_lines;
use tmux_mcp::topology::parse_panes;
use tmux_mcp::topology::parse_sessions;
use tmux_mcp::topology::parse_window_entries;
use tmux_mcp::topology::parse_windows;

#[test]
fn formats_name_the_fields_in_order() {
    assert_eq!(
        SESSIONS_FORMAT,
        "#{session_name}\t#{session_windows}\t#{?session_attached,attached,detached}"
    );
    assert_eq!(SESSION_WINDOWS_FORMAT, "#{window_index}\t#{window_name}\t#{window_panes}");
    assert_eq!(
        WINDOWS_FORMAT,
        "#{session_name}\t#{window_index}\t#{window_name}\t#{window_panes}\t#{?window_active,active,}"
    );
    assert_eq!(
        PANES_FORMAT,
        "#{pane_index}\t#{pane_width}\t#{pane_height}\t#{pane_current_command}\t#{?pane_active,1,0}\t#{pane_id}"
    );
    assert_eq!(
        WINDOW_PANES_FORMAT,
        "#{session_name}:#{window_index}.#{pane_index}\t#{pane_title}\t#{pane_width}x#{pane_height}\t#{?pane_active,active,}"
    );
    assert_eq!(DEFAULT_SCROLL_BACK, 1000);
}

#[test]
fn listing_commands_have_the_expected_arguments() {
    assert_eq!(list_sessions_args(), vec!["list-sessions", "-F", SESSIONS_FORMAT]);
    assert_eq!(
        session_windows_args("API"),
        vec!["list-windows", "-t", "API:", "-F", SESSION_WINDOWS_FORMAT]
    );
    assert_eq!(
        list_windows_args(Some("API")),
        vec!["list-windows", "-t", "API:", "-F", WINDOWS_FORMAT]
    );
    assert_eq!(list_windows_args(None), vec!["list-windows", "-a", "-F", WINDOWS_FORMAT]);
    assert_eq!(
        list_panes_args("API:5", WINDOW_PANES_FORMAT),
        vec!["list-panes", "-t", "API:5", "-F", WINDOW_PANES_FORMAT]
    );
    assert_eq!(
        fetch_panes_args("API", "5"),
        vec!["list-panes", "-t", "API:5", "-F", PANES_FORMAT]
    );
    assert_eq!(
        display_args("%47", "#{session_name}"),
        vec!["display-message", "-t", "%47", "-p", "#{session_name}"]
    );
}

#[test]
fn capture_starts_above_the_visible_area() {
    assert_eq!(capture_start_arg(1000), "-1000");
    assert_eq!(capture_start_arg(1), "-1");
    assert_eq!(capture_start_arg(4294967295), "-4294967295");
}

#[test]
fn capture_of_visible_area_starts_at_zero() {
    assert_eq!(capture_start_arg(0), "0");
    assert_eq!(
        capture_args("API:5.1", 0),
        vec!["capture-pane", "-p", "-J", "-t", "API:5.1", "-S", "0"]
    );
    assert_eq!(
        capture_args("API:5.1", 250),
        vec!["capture-pane", "-p", "-J", "-t", "API:5.1", "-S", "-250"]
    );
}

#[test]
fn successful_command_gives_its_output() {
    let outcome = Outcome::Exited {
        success: true,
        stdout: b"API\t3\tattached\n".to_vec(),
        stderr: b"ignored".to_vec(),
    };
    assert_eq!(run_tmux(&outcome), Ok("API\t3\tattached\n".to_string()));
    assert_eq!(exit_result(true, "out".to_string(), "err"), Ok("out".to_string()));
}

#[test]
fn failed_command_gives_its_standard_error() {
    let outcome = Outcome::Exited {
        success: false,
        stdout: b"partial".to_vec(),
        stderr: b"can't find session: nope\n".to_vec(),
    };
    assert_eq!(run_tmux(&outcome), Err("tmux error: can't find session: nope\n".to_string()));
    assert_eq!(exit_result(false, "out".to_string(), "err"), Err("tmux error: err".to_string()));
}

#[test]
fn command_that_did_not_start_says_why() {
    let outcome = Outcome::NotStarted("No such file or directory (os error 2)".to_string());
    assert_eq!(
        run_tmux(&outcome),
        Err("Failed to run tmux: No such file or directory (os error 2)".to_string())
    );
}

#[test]
fn output_is_decoded_as_utf8_with_replacement() {
    let outcome = Outcome::Exited {
        success: true,
        stdout: vec![b'h', 0xc3, 0xa9, b'!', 0xff, b'x', 0xe6, 0x97],
        stderr: Vec::new(),
    };
    assert_eq!(run_tmux(&outcome), Ok("h\u{e9}!\u{fffd}x\u{fffd}".to_string()));
    let outcome = Outcome::Exited { success: false, stdout: Vec::new(), stderr: vec![0x80, b'e'] };
    assert_eq!(run_tmux(&outcome), Err("tmux error: \u{fffd}e".to_string()));
}

#[test]
fn lookup_reply_is_trimmed() {
    assert_eq!(resolve_pane_id(Ok("API:5\n".to_string())), Ok("API:5".to_string()));
    assert_eq!(resolve_pane_id(Ok("  API  \r\n".to_string())), Ok("API".to_string()));
    assert_eq!(resolve_pane_id(Err(" e \n".to_string())), Err(" e \n".to_string()));
}

#[test]
fn failed_capture_becomes_a_line_of_text() {
    assert_eq!(capture_pane("API:5.1", Ok("hello\n".to_string())), "hello\n");
    assert_eq!(
        capture_pane("API:5.1", Err("tmux error: can't find pane: 1\n".to_string())),
        "Error capturing API:5.1: tmux error: can't find pane: 1\n\n"
    );
}

#[test]
fn sessions_are_read_line_by_line() {
    let rows = parse_sessions("API\t3\tattached\nlogs\t1\tdetached\n");
    assert_eq!(rows.len(), 2);
    assert_eq!(rows[0].name, "API");
    assert_eq!(rows[0].window_count, "3");
    assert_eq!(rows[0].state, "attached");
    assert_eq!(rows[1].name, "logs");
    assert_eq!(rows[1].window_count, "1");
    assert_eq!(rows[1].state, "detached");
}

#[test]
fn short_lines_are_skipped() {
    let rows = parse_sessions("API\t3\n\nlogs\t1\tdetached\textra\nbroken\n");
    assert_eq!(rows.len(), 1);
    assert_eq!(rows[0].name, "logs");
    assert_eq!(rows[0].state, "detached");
    assert!(parse_sessions("").is_empty());
    assert!(parse_windows("a\tb\tc\td\n").is_empty());
    assert!(parse_panes("0\t1\t2\tvim\t1\n").is_empty());
    assert!(parse_window_entries("1\teditor\n").is_empty());
}

#[test]
fn window_entries_read_pane_count_leniently() {
    let rows = parse_window_entries("1\teditor\t2\n2\tlogs\tmany\n");
    assert_eq!(rows.len(), 2);
    assert_eq!(rows[0].index, "1");
    assert_eq!(rows[0].name, "editor");
    assert_eq!(rows[0].pane_count, 2);
    assert_eq!(rows[1].index, "2");
    assert_eq!(rows[1].pane_count, 0);
}

#[test]
fn windows_keep_their_fields_as_text() {
    let rows = parse_windows("API\t1\teditor\t2\tactive\nAPI\t2\tlogs\t1\t\n");
    assert_eq!(rows.len(), 2);
    assert_eq!(rows[0].session, "API");
    assert_eq!(rows[0].index, "1");
    assert_eq!(rows[0].name, "editor");
    assert_eq!(rows[0].pane_count, "2");
    assert_eq!(rows[0].active, "active");
    assert_eq!(rows[1].active, "");
}

#[test]
fn panes_are_read_with_numbers_and_flags() {
    let panes = parse_panes("0\t100\t50\tvim\t1\t%1\n1\t80\t24\tbash\t0\t%47\n");
    assert_eq!(panes.len(), 2);
    assert_eq!(panes[0].pane_index, 0);
    assert_eq!(panes[0].width, 100);
    assert_eq!(panes[0].height, 50);
    assert_eq!(panes[0].current_command, "vim");
    assert!(panes[0].is_active);
    assert_eq!(panes[0].pane_id, "%1");
    assert_eq!(panes[1].pane_index, 1);
    assert!(!panes[1].is_active);
    assert_eq!(panes[1].pane_id, "%47");
}

#[test]
fn malformed_numbers_count_as_zero() {
    let panes = parse_panes("x\t-5\t99999999999\tvim\tyes\t%1\n");
    assert_eq!(panes.len(), 1);
    assert_eq!(panes[0].pane_index, 0);
    assert_eq!(panes[0].width, 0);
    assert_eq!(panes[0].height, 0);
    assert!(!panes[0].is_active);
}

#[test]
fn fetch_panes_passes_an_error_on() {
    match fetch_panes(Err("tmux error: boom".to_string())) {
        Err(e) => assert_eq!(e, "tmux error: boom"),
        Ok(_) => panic!("an error reply gives no panes"),
    }
    match fetch_panes(Ok("0\t100\t50\tvim\t1\t%1\n".to_string())) {
        Ok(panes) => assert_eq!(panes.len(), 1),
        Err(_) => panic!("a listing gives panes"),
    }
}

#[test]
fn pane_lines_keep_target_and_whole_line() {
    let panes = parse_pane_lines("API:5.0\tone\t80x24\tactive\n\tno target\n\nAPI:5.1\n");
    assert_eq!(panes.len(), 2);
    assert_eq!(panes[0].target, "API:5.0");
    assert_eq!(panes[0].line, "API:5.0\tone\t80x24\tactive");
    assert_eq!(panes[1].target, "API:5.1");
    assert_eq!(panes[1].line, "API:5.1");
}
