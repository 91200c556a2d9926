use book_splitter::engine::split_report;
use book_splitter::engine::ChapterFile;
use book_splitter::events::EngineError;
use book_splitter::events::StatusReport;
use book_splitter::naming::chapter_file_name;
use book_splitter::pattern::BoundaryPattern;

fn to_lines(raw: &[&str]) -> Vec<String> {
    raw.iter().map(|s| s.to_string()).collect()
}

fn concat_texts(files: &[ChapterFile]) -> String {
    let mut all = String::new();
    for f in files {
        all.push_str(&f.text);
    }
    all
}

#[test]
fn chapter_example_two_files() {
    let lines = to_lines(&["Chapter 1", "hello", "world", "Chapter 2", "foo"]);
    let pattern = String::from("^Chapter");
    let (files, events) = split_report(&pattern, &lines, 1);
    assert_eq!(files.len(), 2);
    assert_eq!(files[0].index, 2);
    assert_eq!(files[0].name, "0002.txt");
    assert_eq!(files[0].text, "Chapter 1\nhello\nworld\n");
    assert_eq!(files[1].index, 3);
    assert_eq!(files[1].name, "0003.txt");
    assert_eq!(files[1].text, "Chapter 2\nfoo\n");
    assert_eq!(events.len(), 6);
    assert!(matches!(events[0], StatusReport::Started));
    match &events[1] {
        StatusReport::NewTitle(t) => assert_eq!(t, "Chapter 1"),
        other => panic!("expected NewTitle, got {:?}", other),
    }
    assert!(matches!(events[2], StatusReport::ChaptersSplit(2)));
    match &events[3] {
        StatusReport::NewTitle(t) => assert_eq!(t, "Chapter 2"),
        other => panic!("expected NewTitle, got {:?}", other),
    }
    assert!(matches!(events[4], StatusReport::ChaptersSplit(3)));
    assert!(matches!(events[5], StatusReport::Done));
}

#[test]
fn empty_input_no_files() {
    let lines: Vec<String> = Vec::new();
    let pattern = String::from("^Chapter");
    let (files, events) = split_report(&pattern, &lines, 1);
    assert_eq!(files.len(), 0);
    assert_eq!(events.len(), 2);
    assert!(matches!(events[0], StatusReport::Started));
    assert!(matches!(events[1], StatusReport::Done));
}

#[test]
fn invalid_pattern_fails() {
    let lines = to_lines(&["a", "b"]);
    let pattern = String::from("(");
    let (files, events) = split_report(&pattern, &lines, 1);
    assert_eq!(files.len(), 0);
    assert_eq!(events.len(), 2);
    assert!(matches!(events[0], StatusReport::Started));
    match &events[1] {
        StatusReport::Error(EngineError::Pattern(msg)) => assert!(!msg.is_empty()),
        other => panic!("expected Error(Pattern), got {:?}", other),
    }
}

#[test]
fn no_match_single_file() {
    let lines = to_lines(&["alpha", "beta", "gamma"]);
    let pattern = String::from("^Chapter");
    let (files, events) = split_report(&pattern, &lines, 7);
    assert_eq!(files.len(), 1);
    assert_eq!(files[0].index, 7);
    assert_eq!(files[0].name, "0007.txt");
    assert_eq!(files[0].text, "alpha\nbeta\ngamma\n");
    assert_eq!(events.len(), 2);
    assert!(matches!(events[0], StatusReport::Started));
    assert!(matches!(events[1], StatusReport::Done));
}

#[test]
fn partition_reconstructs_input() {
    let raw = ["Chapter 1", "x", "Chapter 2", "Chapter 3", "tail", "Chapter 4"];
    let lines = to_lines(&raw);
    let pattern = String::from("^Chapter");
    let (files, _) = split_report(&pattern, &lines, 1);
    let mut expected = String::new();
    for l in raw.iter() {
        expected.push_str(l);
        expected.push('\n');
    }
    assert_eq!(concat_texts(&files), expected);
}

#[test]
fn count_first_line_match() {
    // Two matches, the first line among them: files == matches.
    let lines = to_lines(&["Chapter 1", "a", "Chapter 2", "b"]);
    let (files, _) = split_report(&String::from("^Chapter"), &lines, 1);
    assert_eq!(files.len(), 2);
}

#[test]
fn count_leading_content() {
    // Two matches, content before the first: files == matches + 1.
    let lines = to_lines(&["intro", "Chapter 1", "a", "Chapter 2", "b"]);
    let (files, _) = split_report(&String::from("^Chapter"), &lines, 1);
    assert_eq!(files.len(), 3);
    assert_eq!(files[0].text, "intro\n");
    assert_eq!(files[0].index, 1);
    assert_eq!(files[1].text, "Chapter 1\na\n");
    assert_eq!(files[1].index, 2);
    assert_eq!(files[2].text, "Chapter 2\nb\n");
    assert_eq!(files[2].index, 3);
}

#[test]
fn count_match_on_last_line() {
    // A match on the last line still yields its own (one-line) file.
    let lines = to_lines(&["a", "Chapter 1"]);
    let (files, _) = split_report(&String::from("^Chapter"), &lines, 0);
    assert_eq!(files.len(), 2);
    assert_eq!(files[0].text, "a\n");
    assert_eq!(files[0].name, "0000.txt");
    assert_eq!(files[1].text, "Chapter 1\n");
    assert_eq!(files[1].name, "0001.txt");
}

#[test]
fn consecutive_matches_one_line_chapters() {
    let lines = to_lines(&["Chapter 1", "Chapter 2", "Chapter 3"]);
    let (files, _) = split_report(&String::from("^Chapter"), &lines, 1);
    assert_eq!(files.len(), 3);
    assert_eq!(files[0].text, "Chapter 1\n");
    assert_eq!(files[1].text, "Chapter 2\n");
    assert_eq!(files[2].text, "Chapter 3\n");
}

#[test]
fn lines_parsed_multiples_in_order() {
    let mut lines: Vec<String> = Vec::new();
    for i in 0..2500usize {
        lines.push(format!("line {}", i));
    }
    let (files, events) = split_report(&String::from("^Chapter"), &lines, 1);
    assert_eq!(files.len(), 1);
    let parsed: Vec<usize> = events
        .iter()
        .filter_map(|e| match e {
            StatusReport::LinesParsed(n) => Some(*n),
            _ => None,
        })
        .collect();
    assert_eq!(parsed, vec![1000, 2000]);
    for w in parsed.windows(2) {
        assert!(w[0] <= w[1]);
    }
    for v in parsed.iter() {
        assert_eq!(v % 1000, 0);
    }
}

#[test]
fn started_first_terminal_last() {
    let inputs: Vec<(Vec<String>, String)> = vec![
        (to_lines(&[]), String::from("x")),
        (to_lines(&["a", "b"]), String::from("a")),
        (to_lines(&["a", "b"]), String::from("(")),
        (to_lines(&["Chapter", "y"]), String::from("^Chapter")),
    ];
    for (lines, pattern) in inputs {
        let (_, events) = split_report(&pattern, &lines, 1);
        assert!(events.len() >= 2);
        assert!(matches!(events[0], StatusReport::Started));
        let last = events.len() - 1;
        assert!(
            matches!(events[last], StatusReport::Done)
                || matches!(events[last], StatusReport::Error(_))
        );
        for e in &events[1..last] {
            assert!(!matches!(e, StatusReport::Started));
            assert!(!matches!(e, StatusReport::Done));
            assert!(!matches!(e, StatusReport::Error(_)));
        }
    }
}

#[test]
fn file_names_zero_padded() {
    assert_eq!(chapter_file_name(0), "0000.txt");
    assert_eq!(chapter_file_name(1), "0001.txt");
    assert_eq!(chapter_file_name(42), "0042.txt");
    assert_eq!(chapter_file_name(999), "0999.txt");
    assert_eq!(chapter_file_name(9999), "9999.txt");
    assert_eq!(chapter_file_name(10000), "10000.txt");
    assert_eq!(chapter_file_name(12345), "12345.txt");
}

#[test]
fn pattern_compile_and_match() {
    let p = BoundaryPattern::compile(&String::from("^Chapter [0-9]+")).unwrap();
    assert!(p.is_match("Chapter 12"));
    assert!(!p.is_match("chapter 12"));
    assert!(!p.is_match("see Chapter 12"));
    let bad = BoundaryPattern::compile(&String::from("[unclosed"));
    assert!(bad.is_err());
    match bad {
        Err(EngineError::Pattern(msg)) => assert!(!msg.is_empty()),
        _ => panic!("expected a pattern error"),
    }
}

#[test]
fn error_messages_carry_text() {
    assert_eq!(EngineError::Pattern(String::from("p")).message(), "p");
    assert_eq!(EngineError::Open(String::from("o")).message(), "o");
    assert_eq!(EngineError::Decode(String::from("d")).message(), "d");
    assert_eq!(EngineError::Write(String::from("w")).message(), "w");
}
