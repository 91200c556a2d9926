use book_splitter::engine::split_chapters;
use book_splitter::engine::SplitEngine;
use book_splitter::events::StatusReport;
use book_splitter::sink::ProgressSink;
use book_splitter::view::ParsingStatus;
use book_splitter::view::ProgressView;

fn to_lines(raw: &[&str]) -> Vec<String> {
    raw.iter().map(|s| s.to_string()).collect()
}

#[test]
fn streaming_engine_flushes_at_boundaries() {
    let mut engine = SplitEngine::new(&String::from("^Chapter"), 1).unwrap();
    let (evs, flushed) = engine.process_line(&String::from("Chapter 1"));
    assert!(flushed.is_none());
    assert_eq!(evs.len(), 2);
    assert!(matches!(evs[0], StatusReport::NewTitle(_)));
    assert!(matches!(evs[1], StatusReport::ChaptersSplit(2)));
    let (evs, flushed) = engine.process_line(&String::from("body"));
    assert!(flushed.is_none());
    assert!(evs.is_empty());
    let (evs, flushed) = engine.process_line(&String::from("Chapter 2"));
    assert_eq!(evs.len(), 2);
    let f = flushed.expect("a boundary with buffered text flushes a file");
    assert_eq!(f.index, 2);
    assert_eq!(f.name, "0002.txt");
    assert_eq!(f.text, "Chapter 1\nbody\n");
    let last = engine.finish().expect("the final chapter is flushed");
    assert_eq!(last.index, 3);
    assert_eq!(last.name, "0003.txt");
    assert_eq!(last.text, "Chapter 2\n");
    assert!(engine.finish().is_none());
}

#[test]
fn split_chapters_reports_through_sink() {
    let (sink, rx) = ProgressSink::channel();
    let lines = to_lines(&["Chapter 1", "hi", "Chapter 2"]);
    let files = split_chapters(&String::from("^Chapter"), &lines, 1, &sink);
    assert_eq!(files.len(), 2);
    let events: Vec<StatusReport> = rx.try_iter().collect();
    assert!(events.len() >= 2);
    assert!(matches!(events[0], StatusReport::Started));
    assert!(matches!(events[events.len() - 1], StatusReport::Done));
}

#[test]
fn split_chapters_with_dropped_receiver_still_runs() {
    let (sink, rx) = ProgressSink::channel();
    drop(rx);
    let lines = to_lines(&["Chapter 1", "hi"]);
    let files = split_chapters(&String::from("^Chapter"), &lines, 1, &sink);
    assert_eq!(files.len(), 1);
    assert_eq!(files[0].text, "Chapter 1\nhi\n");
}

#[test]
fn view_folds_event_stream() {
    let mut view = ProgressView::new();
    assert!(matches!(view.status, ParsingStatus::NotStarted));
    assert!(!view.apply(StatusReport::Started));
    assert!(matches!(view.status, ParsingStatus::Working));
    assert!(!view.apply(StatusReport::LinesParsed(1000)));
    assert_eq!(view.lines_processed, 1000);
    assert!(!view.apply(StatusReport::ChaptersSplit(3)));
    assert_eq!(view.chapters_saved, 3);
    assert!(!view.apply(StatusReport::NewTitle(String::from("Chapter 2"))));
    assert_eq!(view.last_hit.as_deref(), Some("Chapter 2"));
    assert!(view.apply(StatusReport::Done));
    assert!(matches!(view.status, ParsingStatus::Done));
}

#[test]
fn view_records_failure() {
    let mut view = ProgressView::new();
    view.apply(StatusReport::Started);
    let err = book_splitter::events::EngineError::Write(String::from("disk full"));
    assert!(view.apply(StatusReport::Error(err)));
    match &view.status {
        ParsingStatus::Error(e) => assert_eq!(e.message(), "disk full"),
        _ => panic!("expected an error status"),
    }
}

#[test]
fn drain_consumes_queued_events() {
    let (sink, rx) = ProgressSink::channel();
    sink.send(&StatusReport::Started);
    sink.send(&StatusReport::LinesParsed(2000));
    sink.send(&StatusReport::NewTitle(String::from("Chapter 9")));
    sink.send(&StatusReport::Done);
    let mut view = ProgressView::new();
    let terminal = view.drain(&rx);
    assert!(terminal);
    assert!(matches!(view.status, ParsingStatus::Done));
    assert_eq!(view.lines_processed, 2000);
    assert_eq!(view.last_hit.as_deref(), Some("Chapter 9"));
}

#[test]
fn drain_without_terminal_keeps_working() {
    let (sink, rx) = ProgressSink::channel();
    sink.send(&StatusReport::Started);
    sink.send(&StatusReport::LinesParsed(1000));
    let mut view = ProgressView::new();
    let terminal = view.drain(&rx);
    assert!(!terminal);
    assert!(matches!(view.status, ParsingStatus::Working));
    assert_eq!(view.lines_processed, 1000);
}
