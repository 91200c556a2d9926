//! Laws of a splitting run, stated and proved over the model: the produced
//! files partition the input, their number is determined by the boundary
//! matches, progress values grow monotonically, and every run's event stream
//! is bracketed by `Started` and one terminal event.

use crate::events::EventModel;
use crate::model::ChapterRecord;
use crate::model::PROGRESS_STRIDE;
use crate::model::final_flush;
use crate::model::lemma_run_state_buf;
use crate::model::lemma_run_state_lines;
use crate::model::line_terminated;
use crate::model::run_events;
use crate::model::run_files;
use crate::model::run_state;
use crate::model::split_files;
use crate::model::step_events;
use crate::model::step_files;
use crate::model::success_events;
use crate::pattern::pattern_matches;
use vstd::prelude::*;

verus! {

/// The text of all `lines` in order, each with its newline: the whole input
/// as the engine buffers it.
pub open spec fn concat_lines(lines: Seq<Seq<char>>) -> Seq<char>
    decreases lines.len(),
{
    if lines.len() == 0 {
        seq![]
    } else {
        concat_lines(lines.drop_last()) + line_terminated(lines.last())
    }
}

/// The text of all `files` in order.
pub open spec fn concat_files(files: Seq<ChapterRecord>) -> Seq<char>
    decreases files.len(),
{
    if files.len() == 0 {
        seq![]
    } else {
        concat_files(files.drop_last()) + files.last().text
    }
}

/// How many of `lines` match the pattern.
pub open spec fn match_count(p: Seq<char>, lines: Seq<Seq<char>>) -> nat
    decreases lines.len(),
{
    if lines.len() == 0 {
        0
    } else {
        match_count(p, lines.drop_last()) + (if pattern_matches(p, lines.last()) {
            1nat
        } else {
            0nat
        })
    }
}

proof fn lemma_concat_files_single(r: ChapterRecord)
    ensures
        concat_files(seq![r]) == r.text,
{
    assert(seq![r].drop_last() =~= Seq::<ChapterRecord>::empty());
    assert(concat_files(seq![r].drop_last()) == Seq::<char>::empty());
    assert(concat_files(seq![r]) =~= r.text);
}

proof fn lemma_concat_files_add(a: Seq<ChapterRecord>, b: Seq<ChapterRecord>)
    ensures
        concat_files(a + b) == concat_files(a) + concat_files(b),
    decreases b.len(),
{
    if b.len() == 0 {
        assert(a + b =~= a);
        assert(concat_files(a) + concat_files(b) =~= concat_files(a));
    } else {
        lemma_concat_files_add(a, b.drop_last());
        assert((a + b).drop_last() =~= a + b.drop_last());
        assert(concat_files(a + b) =~= concat_files(a) + concat_files(b));
    }
}

proof fn lemma_partition_invariant(start: nat, p: Seq<char>, lines: Seq<Seq<char>>)
    ensures
        concat_files(run_files(start, p, lines)) + run_state(start, p, lines).buf == concat_lines(
            lines,
        ),
    decreases lines.len(),
{
    if lines.len() == 0 {
        assert(concat_files(run_files(start, p, lines)) + run_state(start, p, lines).buf
            =~= concat_lines(lines));
    } else {
        let pre = lines.drop_last();
        let l = lines.last();
        let s = run_state(start, p, pre);
        let m = pattern_matches(p, l);
        lemma_partition_invariant(start, p, pre);
        lemma_concat_files_add(run_files(start, p, pre), step_files(s, m));
        if m && s.buf.len() > 0 {
            lemma_concat_files_single(ChapterRecord { index: s.chapter, text: s.buf });
            assert(concat_files(step_files(s, m)) =~= s.buf);
        } else {
            assert(concat_files(step_files(s, m)) =~= Seq::<char>::empty());
        }
        assert(concat_files(run_files(start, p, lines)) + run_state(start, p, lines).buf
            =~= concat_lines(lines));
    }
}

/// Partition: the concatenation of all produced files, in chapter-index
/// order, reconstructs the input exactly — no line lost, duplicated or
/// reordered.
pub proof fn lemma_partition(start: nat, p: Seq<char>, lines: Seq<Seq<char>>)
    ensures
        concat_files(split_files(start, p, lines)) == concat_lines(lines),
{
    let s = run_state(start, p, lines);
    lemma_partition_invariant(start, p, lines);
    lemma_concat_files_add(run_files(start, p, lines), final_flush(s));
    if s.buf.len() > 0 {
        lemma_concat_files_single(ChapterRecord { index: s.chapter, text: s.buf });
        assert(concat_files(final_flush(s)) =~= s.buf);
    } else {
        assert(concat_files(final_flush(s)) =~= Seq::<char>::empty());
    }
    assert(concat_files(split_files(start, p, lines)) =~= concat_lines(lines));
}

proof fn lemma_no_match_run(start: nat, p: Seq<char>, lines: Seq<Seq<char>>)
    requires
        forall|i: int| 0 <= i < lines.len() ==> !pattern_matches(p, #[trigger] lines[i]),
    ensures
        run_files(start, p, lines) == Seq::<ChapterRecord>::empty(),
        run_state(start, p, lines).chapter == start,
        run_state(start, p, lines).buf == concat_lines(lines),
    decreases lines.len(),
{
    if lines.len() > 0 {
        let pre = lines.drop_last();
        assert forall|i: int| 0 <= i < pre.len() implies !pattern_matches(
            p,
            #[trigger] pre[i],
        ) by {
            assert(pre[i] == lines[i]);
        }
        lemma_no_match_run(start, p, pre);
        assert(lines.last() == lines[lines.len() - 1]);
        assert(run_files(start, p, lines) =~= Seq::<ChapterRecord>::empty());
    }
}

/// No match: when no line matches the pattern and the input is non-empty,
/// exactly one file is produced, named with the starting chapter index, and
/// it holds the entire input.
pub proof fn lemma_no_match_single_file(start: nat, p: Seq<char>, lines: Seq<Seq<char>>)
    requires
        lines.len() > 0,
        forall|i: int| 0 <= i < lines.len() ==> !pattern_matches(p, #[trigger] lines[i]),
    ensures
        split_files(start, p, lines) == seq![
            ChapterRecord { index: start, text: concat_lines(lines) },
        ],
{
    lemma_no_match_run(start, p, lines);
    lemma_run_state_buf(start, p, lines);
    assert(split_files(start, p, lines) =~= seq![
        ChapterRecord { index: start, text: concat_lines(lines) },
    ]);
}

proof fn lemma_count_invariant(start: nat, p: Seq<char>, lines: Seq<Seq<char>>)
    ensures
        run_files(start, p, lines).len() + (if lines.len() > 0 && pattern_matches(p, lines[0]) {
            1nat
        } else {
            0nat
        }) == match_count(p, lines),
    decreases lines.len(),
{
    if lines.len() > 0 {
        let pre = lines.drop_last();
        lemma_count_invariant(start, p, pre);
        lemma_run_state_buf(start, p, pre);
        if pre.len() > 0 {
            assert(pre[0] == lines[0]);
        } else {
            assert(lines.last() == lines[0]);
        }
    }
}

/// Boundary count: the number of produced files is the number of matching
/// lines, plus one when the input is non-empty, minus one when the very
/// first line is itself a match (its chapter starts with an empty buffer, so
/// nothing is flushed for it). Stated additively to stay within `nat`.
pub proof fn lemma_file_count(start: nat, p: Seq<char>, lines: Seq<Seq<char>>)
    ensures
        split_files(start, p, lines).len() + (if lines.len() > 0 && pattern_matches(
            p,
            lines[0],
        ) {
            1nat
        } else {
            0nat
        }) == match_count(p, lines) + (if lines.len() > 0 {
            1nat
        } else {
            0nat
        }),
{
    lemma_count_invariant(start, p, lines);
    lemma_run_state_buf(start, p, lines);
}

proof fn lemma_progress_invariant(start: nat, p: Seq<char>, lines: Seq<Seq<char>>)
    ensures
        forall|i: int|
            0 <= i < run_events(start, p, lines).len() ==> ((#[trigger] run_events(
                start,
                p,
                lines,
            )[i]) matches EventModel::LinesParsed(v) ==> v % (PROGRESS_STRIDE as nat) == 0 && 1 <= v
                <= lines.len()),
    decreases lines.len(),
{
    if lines.len() > 0 {
        let pre = lines.drop_last();
        lemma_progress_invariant(start, p, pre);
        lemma_run_state_lines(start, p, pre);
    }
}

/// Progress monotonicity: every `LinesParsed` value is a positive multiple
/// of the progress stride, never exceeds the number of input lines, and the
/// values are non-decreasing in emission order.
pub proof fn lemma_progress_monotone(start: nat, p: Seq<char>, lines: Seq<Seq<char>>)
    ensures
        forall|i: int|
            0 <= i < run_events(start, p, lines).len() ==> ((#[trigger] run_events(
                start,
                p,
                lines,
            )[i]) matches EventModel::LinesParsed(v) ==> v % (PROGRESS_STRIDE as nat) == 0 && 1 <= v
                <= lines.len()),
        forall|i: int, j: int|
            0 <= i <= j < run_events(start, p, lines).len() && (#[trigger] run_events(
                start,
                p,
                lines,
            )[i]) is LinesParsed && (#[trigger] run_events(start, p, lines)[j]) is LinesParsed
                ==> run_events(start, p, lines)[i]->LinesParsed_0 <= run_events(
                start,
                p,
                lines,
            )[j]->LinesParsed_0,
    decreases lines.len(),
{
    lemma_progress_invariant(start, p, lines);
    if lines.len() > 0 {
        let pre = lines.drop_last();
        let evs = run_events(start, p, lines);
        let evs_pre = run_events(start, p, pre);
        let step = step_events(
            run_state(start, p, pre),
            pattern_matches(p, lines.last()),
            lines.last(),
        );
        lemma_progress_monotone(start, p, pre);
        lemma_progress_invariant(start, p, pre);
        lemma_run_state_lines(start, p, pre);
        assert forall|i: int, j: int|
            0 <= i <= j < evs.len() && (#[trigger] evs[i]) is LinesParsed && (
            #[trigger] evs[j]) is LinesParsed implies evs[i]->LinesParsed_0
            <= evs[j]->LinesParsed_0 by {
            if j < evs_pre.len() {
                assert(evs[i] == evs_pre[i]);
                assert(evs[j] == evs_pre[j]);
            } else {
                assert(evs[j] == step[j - evs_pre.len()]);
                if i < evs_pre.len() {
                    assert(evs[i] == evs_pre[i]);
                } else {
                    assert(evs[i] == step[i - evs_pre.len()]);
                }
            }
        }
    }
}

proof fn lemma_run_events_kinds(start: nat, p: Seq<char>, lines: Seq<Seq<char>>)
    ensures
        forall|i: int|
            0 <= i < run_events(start, p, lines).len() ==> ((#[trigger] run_events(
                start,
                p,
                lines,
            )[i]) is NewTitle || run_events(start, p, lines)[i] is ChaptersSplit || run_events(
                start,
                p,
                lines,
            )[i] is LinesParsed),
    decreases lines.len(),
{
    if lines.len() > 0 {
        lemma_run_events_kinds(start, p, lines.drop_last());
    }
}

/// Terminal uniqueness: the event stream of a successful run has `Started`
/// as its first event, `Done` as its last, and no other `Started`, `Done`
/// or `Error` anywhere in between.
pub proof fn lemma_terminal_unique(start: nat, p: Seq<char>, lines: Seq<Seq<char>>)
    ensures
        success_events(start, p, lines).len() >= 2,
        success_events(start, p, lines).first() == EventModel::Started,
        success_events(start, p, lines).last() == EventModel::Done,
        forall|i: int|
            0 < i < success_events(start, p, lines).len() - 1 ==> !((#[trigger] success_events(
                start,
                p,
                lines,
            )[i]) is Started) && !(success_events(start, p, lines)[i] is Done) && !(success_events(
                start,
                p,
                lines,
            )[i] is Error),
{
    lemma_run_events_kinds(start, p, lines);
    let se = success_events(start, p, lines);
    let evs = run_events(start, p, lines);
    assert forall|i: int|
        0 < i < se.len() - 1 implies !((#[trigger] se[i]) is Started) && !(se[i] is Done) && !(
    se[i] is Error) by {
        assert(se[i] == evs[i - 1]);
    }
}

} // verus!
