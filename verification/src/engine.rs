//! The split engine: the scanning, matching and buffering state machine, one
//! line at a time, and the whole-run driver over an in-memory sequence of
//! lines.

use crate::events::EngineError;
use crate::events::StatusReport;
use crate::events::events_model;
use crate::events::EventModel;
use crate::model::ChapterRecord;
use crate::model::EngineState;
use crate::model::PROGRESS_STRIDE;
use crate::model::final_flush;
use crate::model::lemma_run_state_chapter;
use crate::model::lemma_run_state_lines;
use crate::model::run_events;
use crate::model::run_files;
use crate::model::run_state;
use crate::model::split_files;
use crate::model::success_events;
use crate::model::initial_state;
use crate::model::step_events;
use crate::model::step_files;
use crate::model::step_state;
use crate::naming::chapter_file_name;
use crate::naming::file_name_spec;
use crate::pattern::BoundaryPattern;
use crate::sink::ProgressSink;
use crate::pattern::pattern_matches;
use crate::pattern::pattern_valid;
use vstd::prelude::*;

verus! {

/// One output file: the chapter index it is named after, its file name, and
/// the text written to it.
pub struct ChapterFile {
    pub index: usize,
    pub name: String,
    pub text: String,
}

impl View for ChapterFile {
    type V = ChapterRecord;

    open spec fn view(&self) -> ChapterRecord {
        ChapterRecord { index: self.index as nat, text: self.text@ }
    }
}

impl ChapterFile {
    /// The file is named after its own chapter index.
    pub open spec fn wf(self) -> bool {
        self.name@ == file_name_spec(self.index as nat)
    }
}

/// The models of a sequence of files, in order.
pub open spec fn files_model(fs: Seq<ChapterFile>) -> Seq<ChapterRecord> {
    fs.map_values(|f: ChapterFile| f@)
}

/// The model of an optional flushed file: one record or none.
pub open spec fn opt_file_model(f: Option<ChapterFile>) -> Seq<ChapterRecord> {
    match f {
        Some(c) => seq![c@],
        None => seq![],
    }
}

/// The scanning, matching and buffering state machine of one splitting run.
pub struct SplitEngine {
    pattern: BoundaryPattern,
    chapter: usize,
    lines: usize,
    buf: String,
}

impl View for SplitEngine {
    type V = EngineState;

    closed spec fn view(&self) -> EngineState {
        EngineState { chapter: self.chapter as nat, lines: self.lines as nat, buf: self.buf@ }
    }
}

impl SplitEngine {
    /// The boundary pattern text this engine was built with.
    pub closed spec fn pattern_text(self) -> Seq<char> {
        self.pattern@
    }

    /// Builds an engine for one run; fails with `EngineError::Pattern`
    /// exactly when the pattern text is invalid.
    pub fn new(pattern: &String, start_chapter: usize) -> (r: Result<SplitEngine, EngineError>)
        ensures
            r is Ok <==> pattern_valid(pattern@),
            r is Ok ==> r->Ok_0@ == initial_state(start_chapter as nat),
            r is Ok ==> r->Ok_0.pattern_text() == pattern@,
            r is Err ==> r->Err_0 is Pattern,
    {
        match BoundaryPattern::compile(pattern) {
            Ok(p) => {
                let engine = SplitEngine {
                    pattern: p,
                    chapter: start_chapter,
                    lines: 0,
                    buf: String::new(),
                };
                proof {
                    assert(engine@ =~= initial_state(start_chapter as nat));
                }
                Ok(engine)
            },
            Err(e) => Err(e),
        }
    }

    /// Consumes one input line: reports a matching line, flushes the
    /// buffered chapter on a boundary (under the pre-increment index),
    /// appends the line to the buffer, and reports progress at every
    /// thousandth line. Returns the events emitted, in order, and the file
    /// flushed, if any.
    pub fn process_line(&mut self, line: &String) -> (r: (Vec<StatusReport>, Option<ChapterFile>))
        requires
            old(self)@.chapter + 1 <= usize::MAX,
            old(self)@.lines + 1 <= usize::MAX,
        ensures
            final(self)@ == step_state(
                old(self)@,
                pattern_matches(old(self).pattern_text(), line@),
                line@,
            ),
            final(self).pattern_text() == old(self).pattern_text(),
            events_model(r.0@) == step_events(
                old(self)@,
                pattern_matches(old(self).pattern_text(), line@),
                line@,
            ),
            opt_file_model(r.1) == step_files(
                old(self)@,
                pattern_matches(old(self).pattern_text(), line@),
            ),
            r.1 is Some ==> r.1->0.wf(),
    {
        let ghost matched_spec = pattern_matches(old(self).pattern_text(), line@);
        let matched = self.pattern.is_match(line.as_str());
        let mut events: Vec<StatusReport> = Vec::new();
        let mut flushed: Option<ChapterFile> = None;
        if matched {
            events.push(StatusReport::NewTitle(line.clone()));
            if !self.buf.as_str().is_empty() {
                let name = chapter_file_name(self.chapter);
                let text = self.buf.clone();
                self.buf = String::new();
                flushed = Some(ChapterFile { index: self.chapter, name, text });
            }
            self.chapter = self.chapter + 1;
            events.push(StatusReport::ChaptersSplit(self.chapter));
        }
        self.buf.append(line.as_str());
        self.buf.append("\n");
        self.lines = self.lines + 1;
        if self.lines % PROGRESS_STRIDE == 0 {
            events.push(StatusReport::LinesParsed(self.lines));
        }
        proof {
            reveal_strlit("\n");
            assert(final(self)@ =~= step_state(old(self)@, matched_spec, line@));
            assert(events_model(events@) =~= step_events(old(self)@, matched_spec, line@));
            assert(opt_file_model(flushed) =~= step_files(old(self)@, matched_spec));
        }
        (events, flushed)
    }

    /// Ends the run: flushes the final buffered chapter, if any, under the
    /// current index, and clears the buffer.
    pub fn finish(&mut self) -> (r: Option<ChapterFile>)
        ensures
            opt_file_model(r) == final_flush(old(self)@),
            r is Some ==> r->0.wf(),
            final(self)@.chapter == old(self)@.chapter,
            final(self)@.lines == old(self)@.lines,
            final(self)@.buf.len() == 0,
            final(self).pattern_text() == old(self).pattern_text(),
    {
        let mut flushed: Option<ChapterFile> = None;
        if !self.buf.as_str().is_empty() {
            let name = chapter_file_name(self.chapter);
            let text = self.buf.clone();
            self.buf = String::new();
            flushed = Some(ChapterFile { index: self.chapter, name, text });
        }
        proof {
            assert(opt_file_model(flushed) =~= final_flush(old(self)@));
        }
        flushed
    }
}

/// Splits an in-memory sequence of lines in one call. Returns the files a
/// run over `lines` produces, in chapter-index order, and the complete event
/// stream: `Started` first, then the per-line events, then `Done`; on an
/// invalid pattern, `Started` then `Error` alone, with no files.
pub fn split_report(pattern: &String, lines: &Vec<String>, start_chapter: usize) -> (r: (
    Vec<ChapterFile>,
    Vec<StatusReport>,
))
    requires
        start_chapter + lines@.len() <= usize::MAX,
    ensures
        pattern_valid(pattern@) ==> files_model(r.0@) == split_files(
            start_chapter as nat,
            pattern@,
            lines@.map_values(|l: String| l@),
        ),
        pattern_valid(pattern@) ==> events_model(r.1@) == success_events(
            start_chapter as nat,
            pattern@,
            lines@.map_values(|l: String| l@),
        ),
        !pattern_valid(pattern@) ==> r.0@.len() == 0,
        !pattern_valid(pattern@) ==> r.1@.len() == 2 && r.1@[0]@ == EventModel::Started && (r.1@[1]@
            is Error) && (r.1@[1]@->Error_0 is Pattern),
        forall|k: int| 0 <= k < r.0@.len() ==> (#[trigger] r.0@[k]).wf(),
{
    let ghost lmodels = lines@.map_values(|l: String| l@);
    let ghost startn = start_chapter as nat;
    let mut events: Vec<StatusReport> = Vec::new();
    events.push(StatusReport::Started);
    let mut engine = match SplitEngine::new(pattern, start_chapter) {
        Ok(en) => en,
        Err(e) => {
            events.push(StatusReport::Error(e));
            return (Vec::new(), events);
        },
    };
    let mut files: Vec<ChapterFile> = Vec::new();
    let mut i: usize = 0;
    while i < lines.len()
        invariant
            i <= lines@.len(),
            lmodels == lines@.map_values(|l: String| l@),
            start_chapter + lines@.len() <= usize::MAX,
            startn == start_chapter as nat,
            pattern_valid(pattern@),
            engine.pattern_text() == pattern@,
            engine@ == run_state(startn, pattern@, lmodels.take(i as int)),
            files_model(files@) == run_files(startn, pattern@, lmodels.take(i as int)),
            forall|k: int| 0 <= k < files@.len() ==> (#[trigger] files@[k]).wf(),
            events_model(events@) == seq![EventModel::Started] + run_events(
                startn,
                pattern@,
                lmodels.take(i as int),
            ),
        decreases lines@.len() - i,
    {
        proof {
            lemma_run_state_lines(startn, pattern@, lmodels.take(i as int));
            lemma_run_state_chapter(startn, pattern@, lmodels.take(i as int));
            assert(lmodels[i as int] == lines@[i as int]@);
        }
        let (mut evs, fl) = engine.process_line(&lines[i]);
        let ghost evs0 = evs@;
        let ghost ev_pre = events@;
        events.append(&mut evs);
        if let Some(f) = fl {
            files.push(f);
        }
        proof {
            let pre = lmodels.take(i as int);
            let post = lmodels.take(i as int + 1);
            assert(post.drop_last() =~= pre);
            assert(post.last() == lmodels[i as int]);
            assert(engine@ == run_state(startn, pattern@, post));
            assert(files_model(files@) =~= run_files(startn, pattern@, post));
            assert(run_events(startn, pattern@, post) == run_events(startn, pattern@, pre)
                + step_events(
                run_state(startn, pattern@, pre),
                pattern_matches(pattern@, post.last()),
                post.last(),
            ));
            assert(events_model(ev_pre + evs0) =~= events_model(ev_pre) + events_model(evs0));
            assert(events_model(events@) =~= seq![EventModel::Started] + run_events(
                startn,
                pattern@,
                post,
            ));
        }
        i = i + 1;
    }
    if let Some(f) = engine.finish() {
        files.push(f);
    }
    events.push(StatusReport::Done);
    proof {
        assert(lmodels.take(lines@.len() as int) =~= lmodels);
        assert(files_model(files@) =~= split_files(startn, pattern@, lmodels));
        assert(events_model(events@) =~= success_events(startn, pattern@, lmodels));
    }
    (files, events)
}

/// Runs a whole split over in-memory lines and reports progress through the
/// sink: `Started` first, the per-line events in order, and exactly one
/// terminal event (`Done` or `Error`) last. A disconnected receiver cancels
/// observation only, never the split. Returns the produced files, in
/// chapter-index order.
pub fn split_chapters(
    pattern: &String,
    lines: &Vec<String>,
    start_chapter: usize,
    sink: &ProgressSink,
) -> (r: Vec<ChapterFile>)
    requires
        start_chapter + lines@.len() <= usize::MAX,
    ensures
        pattern_valid(pattern@) ==> files_model(r@) == split_files(
            start_chapter as nat,
            pattern@,
            lines@.map_values(|l: String| l@),
        ),
        !pattern_valid(pattern@) ==> r@.len() == 0,
        forall|k: int| 0 <= k < r@.len() ==> (#[trigger] r@[k]).wf(),
{
    let (files, events) = split_report(pattern, lines, start_chapter);
    sink.send_all(&events);
    files
}

} // verus!
