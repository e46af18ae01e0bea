use shell_core::parse::{parse_line, Segment};
use shell_core::text::{chars_of, is_whitespace};

fn seg(name: &str, args: &[&str]) -> Segment {
    Segment { name: name.to_string(), args: args.iter().map(|a| a.to_string()).collect() }
}

/// What the standard library makes of the same line.
fn by_std(line: &str) -> Vec<Segment> {
    line.trim()
        .split(" | ")
        .map(|raw| {
            let mut words = raw.trim().split_whitespace();
            let name = words.next().unwrap_or("").to_string();
            Segment { name, args: words.map(|w| w.to_string()).collect() }
        })
        .collect()
}

#[test]
fn whitespace_agrees_with_std_on_every_char() {
    let mut code: u32 = 0;
    while code <= 0x10FFFF {
        if let Some(c) = char::from_u32(code) {
            assert_eq!(is_whitespace(c), c.is_whitespace(), "U+{:04X}", code);
        }
        code += 1;
    }
}

#[test]
fn whitespace_samples() {
    assert!(is_whitespace(' '));
    assert!(is_whitespace('\t'));
    assert!(is_whitespace('\n'));
    assert!(is_whitespace('\u{3000}'));
    assert!(!is_whitespace('a'));
    assert!(!is_whitespace('|'));
    assert!(!is_whitespace('\u{200B}'));
}

#[test]
fn chars_of_keeps_order_and_counts_chars_not_bytes() {
    assert_eq!(chars_of("añb"), vec!['a', 'ñ', 'b']);
    assert_eq!(chars_of(""), Vec::<char>::new());
}

#[test]
fn parse_single_command() {
    assert_eq!(parse_line("ls"), vec![seg("ls", &[])]);
    assert_eq!(parse_line("ls -l /tmp\n"), vec![seg("ls", &["-l", "/tmp"])]);
}

#[test]
fn parse_pipeline_keeps_stage_order() {
    assert_eq!(
        parse_line("cat notes.txt | sort -r | wc -l"),
        vec![seg("cat", &["notes.txt"]), seg("sort", &["-r"]), seg("wc", &["-l"])]
    );
}

#[test]
fn parse_empty_line_is_one_blank_segment() {
    assert_eq!(parse_line(""), vec![seg("", &[])]);
    assert_eq!(parse_line("\n"), vec![seg("", &[])]);
    assert_eq!(parse_line("   \t  \n"), vec![seg("", &[])]);
}

#[test]
fn parse_keeps_empty_segments() {
    assert_eq!(parse_line("a |  | b"), vec![seg("a", &[]), seg("", &[]), seg("b", &[])]);
    assert_eq!(parse_line("a |   | b"), vec![seg("a", &[]), seg("", &[]), seg("b", &[])]);
    assert_eq!(parse_line("x | | y"), vec![seg("x", &[]), seg("|", &["y"])]);
}

#[test]
fn parse_needs_spaces_around_the_pipe() {
    assert_eq!(parse_line("a|b"), vec![seg("a|b", &[])]);
    assert_eq!(parse_line("a |b"), vec![seg("a", &["|b"])]);
    assert_eq!(parse_line("a| b"), vec![seg("a|", &["b"])]);
    assert_eq!(parse_line("a\t|\tb"), vec![seg("a", &["|", "b"])]);
}

#[test]
fn parse_trims_the_line_before_cutting() {
    assert_eq!(parse_line("ls | "), vec![seg("ls", &["|"])]);
    assert_eq!(parse_line(" | ls"), vec![seg("|", &["ls"])]);
    assert_eq!(parse_line("a | b | "), vec![seg("a", &[]), seg("b", &["|"])]);
}

#[test]
fn parse_splits_words_on_runs_of_whitespace() {
    assert_eq!(
        parse_line("  echo   one\ttwo \u{3000} three  "),
        vec![seg("echo", &["one", "two", "three"])]
    );
    assert_eq!(parse_line("écho ñandú"), vec![seg("écho", &["ñandú"])]);
}

#[test]
fn parse_agrees_with_std() {
    let lines = [
        "",
        " ",
        "ls",
        "ls -la | grep x | wc -l",
        " | ",
        " |  | ",
        "a |  | b",
        "a | | b",
        "a  |  b",
        "a | b |c",
        "| | | |",
        " | | | | ",
        "x |  |  | y",
        "\tcd   ~/src \n",
        "pushd /tmp | dirs | popd",
        "a \u{a0}| b",
        "a |\u{2003}| b | c",
        "exit | ls",
    ];
    for line in lines {
        assert_eq!(parse_line(line), by_std(line), "line {:?}", line);
    }
}
