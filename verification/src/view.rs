//! The consumer side: folding the event stream of one run into the counters
//! and status that a caller displays.

use crate::events::EngineError;
use crate::events::StatusReport;
use crate::sink::channel_len;
use crate::sink::channel_try_recv;
use vstd::prelude::*;

verus! {

/// Where a run stands, as seen by the consumer.
pub enum ParsingStatus {
    /// No run has started yet.
    NotStarted,
    /// A run is in progress.
    Working,
    /// The last run ended successfully.
    Done,
    /// The last run ended in failure.
    Error(EngineError),
}

/// The consumer's view of one run: counters from the two numeric events, the
/// last matched title, and the run's status.
pub struct ProgressView {
    pub lines_processed: usize,
    pub chapters_saved: usize,
    pub last_hit: Option<String>,
    pub status: ParsingStatus,
}

impl ProgressView {
    /// Whether the view has seen a terminal event.
    pub open spec fn is_terminal(self) -> bool {
        self.status is Done || self.status is Error
    }

    /// A view that has observed nothing yet.
    pub fn new() -> (r: ProgressView)
        ensures
            r.lines_processed == 0,
            r.chapters_saved == 0,
            r.last_hit is None,
            r.status is NotStarted,
    {
        ProgressView {
            lines_processed: 0,
            chapters_saved: 0,
            last_hit: None,
            status: ParsingStatus::NotStarted,
        }
    }

    /// Folds one event into the view and reports whether it was terminal.
    pub fn apply(&mut self, event: StatusReport) -> (terminal: bool)
        ensures
            terminal == (event is Done || event is Error),
            event is Started ==> final(self).lines_processed == 0 && final(self).chapters_saved == 0
                && final(self).last_hit is None && final(self).status is Working,
            event matches StatusReport::LinesParsed(n) ==> final(self).lines_processed == n
                && final(self).chapters_saved == old(self).chapters_saved && final(self).last_hit
                == old(self).last_hit && final(self).status == old(self).status,
            event matches StatusReport::ChaptersSplit(n) ==> final(self).chapters_saved == n
                && final(self).lines_processed == old(self).lines_processed && final(self).last_hit
                == old(self).last_hit && final(self).status == old(self).status,
            event matches StatusReport::NewTitle(title) ==> final(self).last_hit == Some(title)
                && final(self).lines_processed == old(self).lines_processed
                && final(self).chapters_saved == old(self).chapters_saved && final(self).status
                == old(self).status,
            event matches StatusReport::Error(e) ==> final(self).status == ParsingStatus::Error(e)
                && final(self).lines_processed == old(self).lines_processed
                && final(self).chapters_saved == old(self).chapters_saved && final(self).last_hit
                == old(self).last_hit,
            event is Done ==> final(self).status is Done
                && final(self).lines_processed == old(self).lines_processed
                && final(self).chapters_saved == old(self).chapters_saved
                && final(self).last_hit == old(self).last_hit,
    {
        match event {
            StatusReport::Started => {
                self.status = ParsingStatus::Working;
                self.lines_processed = 0;
                self.chapters_saved = 0;
                self.last_hit = None;
                false
            },
            StatusReport::LinesParsed(lines) => {
                self.lines_processed = lines;
                false
            },
            StatusReport::ChaptersSplit(chaps) => {
                self.chapters_saved = chaps;
                false
            },
            StatusReport::NewTitle(title) => {
                self.last_hit = Some(title);
                false
            },
            StatusReport::Error(e) => {
                self.status = ParsingStatus::Error(e);
                true
            },
            StatusReport::Done => {
                self.status = ParsingStatus::Done;
                true
            },
        }
    }

    /// Folds the events queued at the moment of the call into the view
    /// without blocking, stopping at a terminal event; reports whether one
    /// was seen.
    pub fn drain(&mut self, rx: &crossbeam_channel::Receiver<StatusReport>) -> (terminal: bool)
        ensures
            terminal ==> final(self).is_terminal(),
    {
        let pending = channel_len(rx);
        let mut i: usize = 0;
        while i < pending
            decreases pending - i,
        {
            match channel_try_recv(rx) {
                Some(event) => {
                    if self.apply(event) {
                        return true;
                    }
                },
                None => {
                    return false;
                },
            }
            i = i + 1;
        }
        false
    }
}

} // verus!
