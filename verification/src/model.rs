//! Mathematical model of a splitting run: the engine state, the effect of
//! one input line on it, and the files and events a whole run produces.

use crate::events::EventModel;
use crate::pattern::pattern_matches;
use vstd::prelude::*;

verus! {

/// The state of the engine between input lines.
#[verifier::ext_equal]
pub struct EngineState {
    /// The index the next flushed chapter file will carry.
    pub chapter: nat,
    /// How many input lines have been consumed.
    pub lines: nat,
    /// The text of the in-progress chapter, each line with its newline.
    pub buf: Seq<char>,
}

/// One output file of the model: the chapter index it is named after and the
/// text written to it.
#[verifier::ext_equal]
pub struct ChapterRecord {
    pub index: nat,
    pub text: Seq<char>,
}

/// After how many consumed lines a `LinesParsed` event is emitted.
pub const PROGRESS_STRIDE: usize = 1000;

/// The initial engine state for a caller-supplied starting chapter.
pub open spec fn initial_state(start: nat) -> EngineState {
    EngineState { chapter: start, lines: 0, buf: seq![] }
}

/// A line as it enters the chapter buffer: with its newline terminator.
pub open spec fn line_terminated(l: Seq<char>) -> Seq<char> {
    l + seq!['\n']
}

/// The engine state after consuming one line. On a boundary match the buffer
/// is flushed (if non-empty) and the chapter index advances; the line itself
/// always enters the buffer and opens the new chapter.
pub open spec fn step_state(s: EngineState, matched: bool, l: Seq<char>) -> EngineState {
    EngineState {
        chapter: if matched {
            s.chapter + 1
        } else {
            s.chapter
        },
        lines: s.lines + 1,
        buf: if matched {
            line_terminated(l)
        } else {
            s.buf + line_terminated(l)
        },
    }
}

/// The files flushed while consuming one line: on a boundary match with a
/// non-empty buffer, the buffered chapter under the pre-increment index;
/// otherwise nothing. The buffer is empty at a match only when the match is
/// the very first line consumed.
pub open spec fn step_files(s: EngineState, matched: bool) -> Seq<ChapterRecord> {
    if matched && s.buf.len() > 0 {
        seq![ChapterRecord { index: s.chapter, text: s.buf }]
    } else {
        seq![]
    }
}

/// The events emitted while consuming one line: on a boundary match,
/// `NewTitle` with the line and `ChaptersSplit` with the post-increment
/// index; then `LinesParsed` at every multiple of the progress stride.
pub open spec fn step_events(s: EngineState, matched: bool, l: Seq<char>) -> Seq<EventModel> {
    (if matched {
        seq![EventModel::NewTitle(l), EventModel::ChaptersSplit(s.chapter + 1)]
    } else {
        seq![]
    }) + (if (s.lines + 1) % (PROGRESS_STRIDE as nat) == 0 {
        seq![EventModel::LinesParsed(s.lines + 1)]
    } else {
        seq![]
    })
}

/// The engine state after consuming all of `lines` in order.
pub open spec fn run_state(start: nat, p: Seq<char>, lines: Seq<Seq<char>>) -> EngineState
    decreases lines.len(),
{
    if lines.len() == 0 {
        initial_state(start)
    } else {
        step_state(
            run_state(start, p, lines.drop_last()),
            pattern_matches(p, lines.last()),
            lines.last(),
        )
    }
}

/// The files flushed while consuming all of `lines`, in the order they were
/// written; the final buffer is not yet flushed.
pub open spec fn run_files(start: nat, p: Seq<char>, lines: Seq<Seq<char>>) -> Seq<ChapterRecord>
    decreases lines.len(),
{
    if lines.len() == 0 {
        seq![]
    } else {
        run_files(start, p, lines.drop_last()) + step_files(
            run_state(start, p, lines.drop_last()),
            pattern_matches(p, lines.last()),
        )
    }
}

/// The events emitted while consuming all of `lines`, in order.
pub open spec fn run_events(start: nat, p: Seq<char>, lines: Seq<Seq<char>>) -> Seq<EventModel>
    decreases lines.len(),
{
    if lines.len() == 0 {
        seq![]
    } else {
        run_events(start, p, lines.drop_last()) + step_events(
            run_state(start, p, lines.drop_last()),
            pattern_matches(p, lines.last()),
            lines.last(),
        )
    }
}

/// The file flushed at end of input: the final buffer under the current
/// index, or nothing when the buffer is empty.
pub open spec fn final_flush(s: EngineState) -> Seq<ChapterRecord> {
    if s.buf.len() > 0 {
        seq![ChapterRecord { index: s.chapter, text: s.buf }]
    } else {
        seq![]
    }
}

/// The full event stream of a successful run: `Started`, the events of the
/// lines in order, then `Done`.
pub open spec fn success_events(start: nat, p: Seq<char>, lines: Seq<Seq<char>>) -> Seq<EventModel> {
    seq![EventModel::Started] + run_events(start, p, lines) + seq![EventModel::Done]
}

/// A run consumes exactly its input lines.
pub proof fn lemma_run_state_lines(start: nat, p: Seq<char>, lines: Seq<Seq<char>>)
    ensures
        run_state(start, p, lines).lines == lines.len(),
    decreases lines.len(),
{
    if lines.len() > 0 {
        lemma_run_state_lines(start, p, lines.drop_last());
    }
}

/// The chapter index never falls below the starting index and advances at
/// most once per consumed line.
pub proof fn lemma_run_state_chapter(start: nat, p: Seq<char>, lines: Seq<Seq<char>>)
    ensures
        start <= run_state(start, p, lines).chapter <= start + lines.len(),
    decreases lines.len(),
{
    if lines.len() > 0 {
        lemma_run_state_chapter(start, p, lines.drop_last());
    }
}

/// The buffer is non-empty exactly when at least one line has been consumed.
pub proof fn lemma_run_state_buf(start: nat, p: Seq<char>, lines: Seq<Seq<char>>)
    ensures
        run_state(start, p, lines).buf.len() > 0 <==> lines.len() > 0,
    decreases lines.len(),
{
    if lines.len() > 0 {
        lemma_run_state_buf(start, p, lines.drop_last());
    }
}

/// All files a complete run over `lines` produces, in chapter-index order.
pub open spec fn split_files(start: nat, p: Seq<char>, lines: Seq<Seq<char>>) -> Seq<ChapterRecord> {
    run_files(start, p, lines) + final_flush(run_state(start, p, lines))
}

} // verus!
