//! The operations are run against a scripted tmux and compared with a
//! straightforward model of the same operations, written with std's
//! iterators and formatting.

use tmux_mcp::server::GetPaneContentsRequest;
use tmux_mcp::server::GetWindowContentsRequest;
use tmux_mcp::server::ListSessionsRequest;
use tmux_mcp::server::ListWindowsRequest;
use tmux_mcp::server::Step;
use tmux_mcp::server::TmuxMcp;

type Reply = Result<String, String>;

/// A small deterministic generator.
struct Dice(u64);

impl Dice {
    fn roll(&mut self, sides: u64) -> u64 {
        self.0 = self.0.wrapping_mul(6364136223846793005).wrapping_add(1442695040888963407);
        (self.0 >> 33) % sides
    }

    fn pick<'a>(&mut self, from: &[&'a str]) -> &'a str {
        from[self.roll(from.len() as u64) as usize]
    }
}

/// A tmux whose replies depend on the arguments and a seed alone.
fn scripted_tmux(seed: u64, args: &[String]) -> Reply {
    let mut mix = seed ^ 0x9e37_79b9_7f4a_7c15;
    for a in args {
        for b in a.bytes() {
            mix = mix.wrapping_mul(1099511628211) ^ (b as u64);
        }
        mix = mix.wrapping_mul(31).wrapping_add(7);
    }
    let mut dice = Dice(mix);
    let names = ["API", "logs", "a-very-long-session-name-here", "é日本", "", "x y", "w:1", "1"];
    let numbers = ["0", "1", "2", "12", "+3", "x", "", "4294967296", "007"];
    let commands = ["vim", "bash", "a-long-command-name-xyz", "", "tail"];
    let ids = ["%1", "%2", "%47", ""];
    if dice.roll(7) == 0 {
        return Err(format!("tmux error: {}\n", dice.pick(&["no server", "can't find", ""])));
    }
    let ending = ["\n", "\r\n", "\n\n", ""];
    let mut out = String::new();
    match args[0].as_str() {
        "list-sessions" => {
            for _ in 0..dice.roll(4) {
                match dice.roll(6) {
                    0 => out.push_str("broken\tline"),
                    _ => out.push_str(&format!(
                        "{}\t{}\t{}",
                        dice.pick(&names),
                        dice.pick(&numbers),
                        dice.pick(&["attached", "detached"])
                    )),
                }
                out.push_str(dice.pick(&ending));
            }
        }
        "list-windows" => {
            let long = args.iter().any(|a| a.starts_with("#{session_name}"));
            for _ in 0..dice.roll(4) {
                if dice.roll(6) == 0 {
                    out.push_str("only\ttwo");
                } else if long {
                    out.push_str(&format!(
                        "{}\t{}\t{}\t{}\t{}",
                        dice.pick(&["API", "logs", "s"]),
                        dice.pick(&["0", "1", "2"]),
                        dice.pick(&names),
                        dice.pick(&numbers),
                        dice.pick(&["active", "", "Active"])
                    ));
                } else {
                    out.push_str(&format!(
                        "{}\t{}\t{}",
                        dice.pick(&["0", "1", "2", "x"]),
                        dice.pick(&names),
                        dice.pick(&numbers)
                    ));
                }
                out.push_str(dice.pick(&ending));
            }
        }
        "list-panes" => {
            let titled = args.iter().any(|a| a.contains("#{pane_title}"));
            for _ in 0..dice.roll(4) {
                if dice.roll(6) == 0 {
                    out.push_str(dice.pick(&["\tno target", "short\tline", ""]));
                } else if titled {
                    out.push_str(&format!(
                        "{}.{}\t{}\t80x24\t{}",
                        dice.pick(&["API:1", "s:0", "logs:2"]),
                        dice.roll(3),
                        dice.pick(&names),
                        dice.pick(&["active", ""])
                    ));
                } else {
                    out.push_str(&format!(
                        "{}\t{}\t{}\t{}\t{}\t{}",
                        dice.pick(&numbers),
                        dice.pick(&numbers),
                        dice.pick(&numbers),
                        dice.pick(&commands),
                        dice.pick(&["1", "0", "", "11"]),
                        dice.pick(&ids)
                    ));
                }
                out.push_str(dice.pick(&ending));
            }
        }
        "display-message" => {
            out.push_str(dice.pick(&["API:1\n", "logs:2\n", " s:0 \n", "API\n", "", "main\n"]));
        }
        _ => {
            out.push_str(dice.pick(&["$ ls\nfile\n", "", "one line", "  \n\n"]));
        }
    }
    Ok(out)
}

fn finish(server: &TmuxMcp, seed: u64, first: Step, asked: &mut Vec<Vec<String>>) -> String {
    let mut step = first;
    loop {
        match step {
            Step::Done(text) => return text,
            Step::Ask { task, command } => {
                let reply = scripted_tmux(seed, &command);
                asked.push(command);
                step = server.resume(task, reply);
            }
        }
    }
}

// -- the model --

struct Model {
    seed: u64,
    pane: Option<String>,
    asked: Vec<Vec<String>>,
}

struct ModelPane {
    index: u32,
    width: u32,
    height: u32,
    command: String,
    active: bool,
    id: String,
}

fn model_truncate(s: &str, max: usize) -> String {
    if s.chars().count() <= max {
        s.to_string()
    } else {
        let kept: String = s.chars().take(max.saturating_sub(3)).collect();
        format!("{kept}...")
    }
}

fn model_align(rows: &[Vec<String>]) -> Vec<String> {
    let col_count = rows.iter().map(|r| r.len()).max().unwrap_or(0);
    let mut widths = vec![0usize; col_count];
    for row in rows {
        for (i, cell) in row.iter().enumerate() {
            widths[i] = widths[i].max(cell.len());
        }
    }
    rows.iter()
        .map(|row| {
            row.iter()
                .enumerate()
                .map(|(i, cell)| {
                    if i + 1 < row.len() {
                        format!("{:width$}", cell, width = widths[i])
                    } else {
                        cell.to_string()
                    }
                })
                .collect::<Vec<_>>()
                .join("  ")
        })
        .collect()
}

fn plural(n: u32) -> &'static str {
    if n == 1 { "" } else { "s" }
}

impl Model {
    fn tmux(&mut self, args: &[&str]) -> Reply {
        let args: Vec<String> = args.iter().map(|a| a.to_string()).collect();
        let reply = scripted_tmux(self.seed, &args);
        self.asked.push(args);
        reply
    }

    fn lookup(&mut self, pane: &str, format: &str) -> Reply {
        self.tmux(&["display-message", "-t", pane, "-p", format]).map(|s| s.trim().to_string())
    }

    fn capture(&mut self, target: &str, scroll_back: u32) -> String {
        let start = if scroll_back > 0 { format!("-{scroll_back}") } else { "0".to_string() };
        match self.tmux(&["capture-pane", "-p", "-J", "-t", target, "-S", &start]) {
            Ok(contents) => contents,
            Err(e) => format!("Error capturing {target}: {e}\n"),
        }
    }

    fn panes(&mut self, session: &str, window: &str) -> Result<Vec<ModelPane>, String> {
        let target = format!("{session}:{window}");
        let format = "#{pane_index}\t#{pane_width}\t#{pane_height}\t#{pane_current_command}\t#{?pane_active,1,0}\t#{pane_id}";
        let output = self.tmux(&["list-panes", "-t", &target, "-F", format])?;
        let mut panes = Vec::new();
        for line in output.lines() {
            let f: Vec<&str> = line.split('\t').collect();
            if f.len() < 6 {
                continue;
            }
            panes.push(ModelPane {
                index: f[0].parse().unwrap_or(0),
                width: f[1].parse().unwrap_or(0),
                height: f[2].parse().unwrap_or(0),
                command: f[3].to_string(),
                active: f[4] == "1",
                id: f[5].to_string(),
            });
        }
        Ok(panes)
    }

    fn pane_lines(&self, panes: &[ModelPane], indent: &str, mark: bool) -> Vec<String> {
        let rows: Vec<Vec<String>> = panes
            .iter()
            .map(|p| {
                let mut cols = vec![
                    format!("{indent}.{}", p.index),
                    format!("{}x{}", p.width, p.height),
                    model_truncate(&p.command, 16),
                ];
                let mut suffix = String::new();
                if p.active {
                    suffix.push_str("(active)");
                }
                if mark && self.pane.as_deref() == Some(p.id.as_str()) {
                    if !suffix.is_empty() {
                        suffix.push_str("  ");
                    }
                    suffix.push_str("<-- current");
                }
                if !suffix.is_empty() {
                    cols.push(suffix);
                }
                cols
            })
            .collect();
        model_align(&rows)
    }

    fn list_sessions(&mut self, verbose: bool) -> String {
        let format = "#{session_name}\t#{session_windows}\t#{?session_attached,attached,detached}";
        let output = match self.tmux(&["list-sessions", "-F", format]) {
            Ok(o) => o,
            Err(e) => return e,
        };
        let sessions: Vec<Vec<String>> = output
            .lines()
            .filter_map(|line| {
                let f: Vec<&str> = line.split('\t').collect();
                if f.len() < 3 {
                    return None;
                }
                Some(vec![f[0].to_string(), f[1].to_string(), f[2].to_string()])
            })
            .collect();
        if !verbose {
            let rows: Vec<Vec<String>> = sessions
                .iter()
                .map(|s| {
                    vec![
                        model_truncate(&s[0], 20),
                        format!("({})", s[2]),
                        format!("{} window{}", s[1], if s[1] == "1" { "" } else { "s" }),
                    ]
                })
                .collect();
            return model_align(&rows).join("\n");
        }
        let mut out = String::new();
        for s in &sessions {
            let count: u32 = s[1].parse().unwrap_or(0);
            out.push_str(&format!(
                "{} ({})  {} window{}\n",
                model_truncate(&s[0], 20),
                s[2],
                count,
                plural(count)
            ));
            let scope = format!("{}:", s[0]);
            let windows = match self.tmux(&[
                "list-windows",
                "-t",
                &scope,
                "-F",
                "#{window_index}\t#{window_name}\t#{window_panes}",
            ]) {
                Ok(w) => w,
                Err(_) => continue,
            };
            for line in windows.lines() {
                let f: Vec<&str> = line.split('\t').collect();
                if f.len() < 3 {
                    continue;
                }
                let panes: u32 = f[2].parse().unwrap_or(0);
                out.push_str(&format!(
                    "  {}:  {}  {} pane{}\n",
                    f[0],
                    model_truncate(f[1], 20),
                    panes,
                    plural(panes)
                ));
                let listed = match self.panes(&s[0], f[0]) {
                    Ok(p) => p,
                    Err(_) => continue,
                };
                for l in self.pane_lines(&listed, "    ", true) {
                    out.push_str(&l);
                    out.push('\n');
                }
            }
        }
        out.trim_end().to_string()
    }

    fn list_windows(&mut self, session: Option<&str>, verbose: bool) -> String {
        let format = "#{session_name}\t#{window_index}\t#{window_name}\t#{window_panes}\t#{?window_active,active,}";
        let listed = match session {
            Some(s) => {
                let scope = format!("{s}:");
                self.tmux(&["list-windows", "-t", &scope, "-F", format])
            }
            None => self.tmux(&["list-windows", "-a", "-F", format]),
        };
        let output = match listed {
            Ok(o) => o,
            Err(e) => return e,
        };
        let current = match self.pane.clone() {
            Some(p) => self.lookup(&p, "#{session_name}:#{window_index}").ok(),
            None => None,
        };
        let windows: Vec<Vec<String>> = output
            .lines()
            .filter_map(|line| {
                let f: Vec<&str> = line.split('\t').collect();
                if f.len() < 5 {
                    return None;
                }
                Some(f[..5].iter().map(|x| x.to_string()).collect())
            })
            .collect();
        if !verbose {
            let rows: Vec<Vec<String>> = windows
                .iter()
                .map(|w| {
                    let key = format!("{}:{}", w[0], w[1]);
                    let panes: u32 = w[3].parse().unwrap_or(0);
                    let mut cols = vec![
                        key.clone(),
                        model_truncate(&w[2], 20),
                        format!("{} pane{}", panes, plural(panes)),
                    ];
                    if w[4] == "active" {
                        cols.push("active".to_string());
                    }
                    if current.as_deref() == Some(&key) {
                        cols.push("<-- current".to_string());
                    }
                    cols
                })
                .collect();
            return model_align(&rows).join("\n");
        }
        let mut out = String::new();
        for w in &windows {
            let key = format!("{}:{}", w[0], w[1]);
            let panes: u32 = w[3].parse().unwrap_or(0);
            let is_current = current.as_deref() == Some(&key);
            out.push_str(&format!(
                "{}:  {}  {} pane{}",
                key,
                model_truncate(&w[2], 20),
                panes,
                plural(panes)
            ));
            if w[4] == "active" {
                out.push_str("  active");
            }
            out.push('\n');
            let listed = match self.panes(&w[0], &w[1]) {
                Ok(p) => p,
                Err(_) => continue,
            };
            for l in self.pane_lines(&listed, "  ", is_current) {
                out.push_str(&l);
                out.push('\n');
            }
        }
        out.trim_end().to_string()
    }

    fn describe(&mut self, format: &str) -> String {
        let Some(pane) = self.pane.clone() else {
            return "Not running inside tmux (TMUX_PANE not set)".into();
        };
        match self.lookup(&pane, format) {
            Ok(info) => info,
            Err(e) => e,
        }
    }

    fn pane_contents(&mut self, target: &str, scroll_back: Option<u32>) -> String {
        let scroll_back = scroll_back.unwrap_or(1000);
        let t = target.trim().to_string();
        let target = if t.contains(':') {
            if !t.contains('.') {
                return format!("Invalid target \"{t}\": expected \"sess:window.pane\" but no pane specifier found. Use get_window_contents to read an entire window.");
            }
            t
        } else if t.contains('.') {
            let Some(pane) = self.pane.clone() else {
                return "Not running inside tmux".into();
            };
            match self.lookup(&pane, "#{session_name}") {
                Ok(session) => format!("{session}:{t}"),
                Err(e) => return e,
            }
        } else {
            let Some(pane) = self.pane.clone() else {
                return "Not running inside tmux".into();
            };
            match self.lookup(&pane, "#{session_name}:#{window_index}") {
                Ok(window) => format!("{window}.{t}"),
                Err(e) => return e,
            }
        };
        self.capture(&target, scroll_back)
    }

    fn window_contents(&mut self, target: Option<String>, scroll_back: Option<u32>) -> String {
        let scroll_back = scroll_back.unwrap_or(1000);
        let target = match target {
            Some(t) if t.contains(':') => t,
            Some(t) => {
                let Some(pane) = self.pane.clone() else {
                    return "Not running inside tmux".into();
                };
                match self.lookup(&pane, "#{session_name}") {
                    Ok(session) => format!("{session}:{t}"),
                    Err(e) => return e,
                }
            }
            None => {
                let Some(pane) = self.pane.clone() else {
                    return "No target specified and not running inside tmux".into();
                };
                match self.lookup(&pane, "#{session_name}:#{window_index}") {
                    Ok(t) => t,
                    Err(e) => return e,
                }
            }
        };
        let format = "#{session_name}:#{window_index}.#{pane_index}\t#{pane_title}\t#{pane_width}x#{pane_height}\t#{?pane_active,active,}";
        let panes = match self.tmux(&["list-panes", "-t", &target, "-F", format]) {
            Ok(p) => p,
            Err(e) => return e,
        };
        let mut output = String::new();
        for line in panes.lines() {
            let pane_target = line.split('\t').next().unwrap_or("");
            if pane_target.is_empty() {
                continue;
            }
            output.push_str(&format!("=== Pane {pane_target} ({}) ===\n", line));
            output.push_str(&self.capture(pane_target, scroll_back));
            output.push('\n');
        }
        output
    }
}

fn both(seed: u64) -> (TmuxMcp, Model) {
    let pane = match seed % 4 {
        0 => None,
        1 => Some("%47".to_string()),
        2 => Some("%1".to_string()),
        _ => Some(String::new()),
    };
    (TmuxMcp::new(pane.clone()), Model { seed, pane, asked: Vec::new() })
}

#[test]
fn list_sessions_agrees_with_the_model() {
    for seed in 0..3000u64 {
        for verbose in [None, Some(false), Some(true)] {
            let (server, mut model) = both(seed);
            let mut asked = Vec::new();
            let first = server.list_sessions(ListSessionsRequest { verbose });
            let text = finish(&server, seed, first, &mut asked);
            assert_eq!(text, model.list_sessions(verbose.unwrap_or(false)), "seed {seed}");
            assert_eq!(asked, model.asked, "seed {seed}");
        }
    }
}

#[test]
fn list_windows_agrees_with_the_model() {
    for seed in 0..3000u64 {
        for verbose in [None, Some(true)] {
            for session in [None, Some("API"), Some("")] {
                let (server, mut model) = both(seed);
                let mut asked = Vec::new();
                let first = server.list_windows(ListWindowsRequest {
                    session: session.map(|s| s.to_string()),
                    verbose,
                });
                let text = finish(&server, seed, first, &mut asked);
                assert_eq!(text, model.list_windows(session, verbose.unwrap_or(false)), "seed {seed}");
                assert_eq!(asked, model.asked, "seed {seed}");
            }
        }
    }
}

#[test]
fn descriptions_agree_with_the_model() {
    for seed in 0..500u64 {
        let (server, mut model) = both(seed);
        let mut asked = Vec::new();
        let text = finish(&server, seed, server.get_current_session(), &mut asked);
        assert_eq!(
            text,
            model.describe("#{session_name}:#{window_index} (window: #{window_name})")
        );
        let text = finish(&server, seed, server.get_current_window(), &mut asked);
        assert_eq!(
            text,
            model.describe("#{session_name}:#{window_index}\t#{window_name}\t#{window_panes} panes")
        );
        assert_eq!(asked, model.asked);
    }
}

#[test]
fn pane_contents_agree_with_the_model() {
    let targets = ["1", "5.1", "API:5.1", "API:5", " 2 ", "", ".", ":", " a:b.c\n", "x.y.z", "\u{3000}7"];
    for seed in 0..600u64 {
        for target in targets {
            for scroll_back in [None, Some(0), Some(7)] {
                let (server, mut model) = both(seed);
                let mut asked = Vec::new();
                let first = server.get_pane_contents(GetPaneContentsRequest {
                    target: target.to_string(),
                    scroll_back_lines: scroll_back,
                });
                let text = finish(&server, seed, first, &mut asked);
                assert_eq!(text, model.pane_contents(target, scroll_back), "seed {seed} {target:?}");
                assert_eq!(asked, model.asked, "seed {seed} {target:?}");
            }
        }
    }
}

#[test]
fn window_contents_agree_with_the_model() {
    let targets = [None, Some("5"), Some("API:5"), Some(" 5 "), Some(""), Some(":"), Some("a.b")];
    for seed in 0..1500u64 {
        for target in targets {
            for scroll_back in [None, Some(0)] {
                let (server, mut model) = both(seed);
                let mut asked = Vec::new();
                let first = server.get_window_contents(GetWindowContentsRequest {
                    target: target.map(|t| t.to_string()),
                    scroll_back_lines: scroll_back,
                });
                let text = finish(&server, seed, first, &mut asked);
                assert_eq!(
                    text,
                    model.window_contents(target.map(|t| t.to_string()), scroll_back),
                    "seed {seed} {target:?}"
                );
                assert_eq!(asked, model.asked, "seed {seed} {target:?}");
            }
        }
    }
}
