use tmux_mcp::number::parse_or_zero;
use tmux_mcp::number::parse_u32;
use tmux_mcp::number::render_u32;
use tmux_mcp::rows::lines;
use tmux_mcp::rows::split_fields;
use tmux_mcp::text::chars_of;
use tmux_mcp::text::contains_char;
use tmux_mcp::text::same_text;
use tmux_mcp::text::trim;
use tmux_mcp::text::trim_end;
use tmux_mcp::text::white_space;

/// Texts over a small alphabet that holds every character the parsers treat
/// specially, made by a fixed linear congruential sequence.
fn samples(count: usize) -> Vec<String> {
    let alphabet = [
        'a', 'b', '0', '1', '9', '+', '-', ' ', '\t', '\n', '\r', ':', '.', 'é', '\u{3000}', '\u{a0}',
        '\u{85}', '\u{b}', '日',
    ];
    let mut state: u64 = 0x2545_f491_4f6c_dd1d;
    let mut out = Vec::new();
    for _ in 0..count {
        state = state.wrapping_mul(6364136223846793005).wrapping_add(1442695040888963407);
        let len = ((state >> 33) % 12) as usize;
        let mut s = String::new();
        for _ in 0..len {
            state = state.wrapping_mul(6364136223846793005).wrapping_add(1442695040888963407);
            s.push(alphabet[((state >> 33) % alphabet.len() as u64) as usize]);
        }
        out.push(s);
    }
    out
}

#[test]
fn chars_of_lists_characters() {
    assert_eq!(chars_of("aé日"), vec!['a', 'é', '日']);
    assert!(chars_of("").is_empty());
}

#[test]
fn contains_char_finds_delimiters() {
    assert!(contains_char("API:5.1", ':'));
    assert!(contains_char("API:5.1", '.'));
    assert!(!contains_char("5.1", ':'));
    assert!(!contains_char("", ':'));
}

#[test]
fn same_text_compares_contents() {
    assert!(same_text("1", "1"));
    assert!(!same_text("1", "10"));
    assert!(!same_text("1", "2"));
    assert!(same_text("", ""));
}

#[test]
fn white_space_agrees_with_std_on_every_character() {
    let mut code: u32 = 0;
    while code <= 0x10ffff {
        if let Some(c) = char::from_u32(code) {
            assert_eq!(white_space(c), c.is_whitespace(), "U+{:04X}", code);
        }
        code += 1;
    }
}

#[test]
fn trim_removes_surrounding_white_space() {
    assert_eq!(trim("  API:5.1 \n"), "API:5.1");
    assert_eq!(trim("API:5.1"), "API:5.1");
    assert_eq!(trim(" \t\r\n"), "");
    assert_eq!(trim(""), "");
    assert_eq!(trim("a b"), "a b");
    assert_eq!(trim("\u{3000}x\u{a0}"), "x");
}

#[test]
fn trim_end_keeps_leading_white_space() {
    assert_eq!(trim_end("  a \n\n"), "  a");
    assert_eq!(trim_end("a"), "a");
    assert_eq!(trim_end("\n"), "");
    assert_eq!(trim_end(""), "");
}

#[test]
fn trim_agrees_with_std_on_samples() {
    for s in samples(3000) {
        assert_eq!(trim(&s), s.trim(), "{:?}", s);
        assert_eq!(trim_end(&s), s.trim_end(), "{:?}", s);
    }
}

#[test]
fn lines_splits_at_line_endings() {
    assert_eq!(lines("a\nb\n"), vec!["a", "b"]);
    assert_eq!(lines("a\nb"), vec!["a", "b"]);
    assert_eq!(lines("a\r\nb\r\n"), vec!["a", "b"]);
    assert_eq!(lines("a\n\nb"), vec!["a", "", "b"]);
    assert_eq!(lines("\n"), vec![""]);
    assert!(lines("").is_empty());
}

#[test]
fn lines_keeps_lone_carriage_return() {
    assert_eq!(lines("a\rb"), vec!["a\rb"]);
    assert_eq!(lines("a\r"), vec!["a\r"]);
    assert_eq!(lines("a\r\r\n"), vec!["a\r"]);
}

#[test]
fn lines_agrees_with_std_on_samples() {
    for s in samples(3000) {
        let expected: Vec<String> = s.lines().map(|l| l.to_string()).collect();
        assert_eq!(lines(&s), expected, "{:?}", s);
    }
}

#[test]
fn split_fields_keeps_empty_fields() {
    assert_eq!(split_fields("a\tb\tc", '\t'), vec!["a", "b", "c"]);
    assert_eq!(split_fields("a\t\tc", '\t'), vec!["a", "", "c"]);
    assert_eq!(split_fields("a\t", '\t'), vec!["a", ""]);
    assert_eq!(split_fields("\ta", '\t'), vec!["", "a"]);
    assert_eq!(split_fields("", '\t'), vec![""]);
    assert_eq!(split_fields("abc", '\t'), vec!["abc"]);
}

#[test]
fn split_fields_agrees_with_std_on_samples() {
    for s in samples(3000) {
        let expected: Vec<String> = s.split('\t').map(|l| l.to_string()).collect();
        assert_eq!(split_fields(&s, '\t'), expected, "{:?}", s);
        let expected: Vec<String> = s.split(':').map(|l| l.to_string()).collect();
        assert_eq!(split_fields(&s, ':'), expected, "{:?}", s);
    }
}

#[test]
fn parse_u32_reads_plain_decimals() {
    assert_eq!(parse_u32("0"), Some(0));
    assert_eq!(parse_u32("7"), Some(7));
    assert_eq!(parse_u32("120"), Some(120));
    assert_eq!(parse_u32("007"), Some(7));
    assert_eq!(parse_u32("+5"), Some(5));
    assert_eq!(parse_u32("4294967295"), Some(4294967295));
}

#[test]
fn parse_u32_refuses_everything_else() {
    assert_eq!(parse_u32(""), None);
    assert_eq!(parse_u32("+"), None);
    assert_eq!(parse_u32("-"), None);
    assert_eq!(parse_u32("-5"), None);
    assert_eq!(parse_u32("-0"), None);
    assert_eq!(parse_u32("++5"), None);
    assert_eq!(parse_u32(" 5"), None);
    assert_eq!(parse_u32("5 "), None);
    assert_eq!(parse_u32("12a"), None);
    assert_eq!(parse_u32("1.5"), None);
    assert_eq!(parse_u32("４２"), None);
    assert_eq!(parse_u32("4294967296"), None);
    assert_eq!(parse_u32("99999999999999999999999999"), None);
}

#[test]
fn parse_u32_agrees_with_std_on_samples() {
    let mut all = samples(3000);
    for extra in ["4294967295", "4294967296", "42949672950", "+4294967295", "000000000000001", "+0"] {
        all.push(extra.to_string());
    }
    for s in all {
        assert_eq!(parse_u32(&s), s.parse::<u32>().ok(), "{:?}", s);
        assert_eq!(parse_or_zero(&s), s.parse::<u32>().unwrap_or(0), "{:?}", s);
    }
}

#[test]
fn parse_or_zero_falls_back_to_zero() {
    assert_eq!(parse_or_zero("12"), 12);
    assert_eq!(parse_or_zero(""), 0);
    assert_eq!(parse_or_zero("twelve"), 0);
    assert_eq!(parse_or_zero("-3"), 0);
}

#[test]
fn render_u32_writes_decimals() {
    assert_eq!(render_u32(0), "0");
    assert_eq!(render_u32(9), "9");
    assert_eq!(render_u32(10), "10");
    assert_eq!(render_u32(1000), "1000");
    assert_eq!(render_u32(4294967295), "4294967295");
}

#[test]
fn render_u32_agrees_with_std_and_reads_back() {
    let mut n: u32 = 1;
    for _ in 0..2000 {
        n = n.wrapping_mul(1664525).wrapping_add(1013904223);
        assert_eq!(render_u32(n), n.to_string());
        assert_eq!(parse_u32(&render_u32(n)), Some(n));
    }
    for n in 0..1200u32 {
        assert_eq!(render_u32(n), n.to_string());
        assert_eq!(parse_u32(&render_u32(n)), Some(n));
    }
}

#[test]
fn split_pieces_join_back_to_the_text() {
    for s in samples(2000) {
        let pieces = split_fields(&s, '\t');
        assert_eq!(pieces.join("\t"), s);
        assert!(pieces.iter().all(|p| !p.contains('\t')));
        assert_eq!(pieces.len(), s.matches('\t').count() + 1);
    }
}

#[test]
fn no_line_holds_a_line_feed() {
    for s in samples(2000) {
        assert!(lines(&s).iter().all(|l| !l.contains('\n')));
    }
}

#[test]
fn trimmed_text_has_no_white_space_at_its_ends() {
    for s in samples(2000) {
        let t = trim(&s);
        assert!(t.chars().next().map_or(true, |c| !white_space(c)));
        assert!(t.chars().last().map_or(true, |c| !white_space(c)));
        assert_eq!(trim(t), t);
        assert!(s.contains(t));
    }
}
