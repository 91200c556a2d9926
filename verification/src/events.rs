//! Progress events and terminal errors of a splitting run, together with
//! their mathematical models.

use vstd::prelude::*;

verus! {

/// Mathematical model of an [`EngineError`]: the kind of failure together
/// with the diagnostic text it carries.
pub enum ErrorModel {
    Pattern(Seq<char>),
    Open(Seq<char>),
    Decode(Seq<char>),
    Write(Seq<char>),
}

/// Mathematical model of a [`StatusReport`].
pub enum EventModel {
    Started,
    LinesParsed(nat),
    ChaptersSplit(nat),
    NewTitle(Seq<char>),
    Error(ErrorModel),
    Done,
}

/// A terminal failure of a splitting run. Each variant carries a
/// human-readable diagnostic.
#[derive(Clone, Debug)]
pub enum EngineError {
    /// The boundary pattern is not valid pattern syntax.
    Pattern(String),
    /// The source could not be opened, or the output directory not created.
    Open(String),
    /// The source bytes are not valid text.
    Decode(String),
    /// An output file could not be created or written.
    Write(String),
}

impl View for EngineError {
    type V = ErrorModel;

    open spec fn view(&self) -> ErrorModel {
        match self {
            EngineError::Pattern(s) => ErrorModel::Pattern(s@),
            EngineError::Open(s) => ErrorModel::Open(s@),
            EngineError::Decode(s) => ErrorModel::Decode(s@),
            EngineError::Write(s) => ErrorModel::Write(s@),
        }
    }
}

impl EngineError {
    /// The diagnostic text carried by the error.
    pub open spec fn text(self) -> Seq<char> {
        match self {
            EngineError::Pattern(s) => s@,
            EngineError::Open(s) => s@,
            EngineError::Decode(s) => s@,
            EngineError::Write(s) => s@,
        }
    }

    /// Returns the human-readable diagnostic.
    pub fn message(&self) -> (r: String)
        ensures
            r@ == self.text(),
    {
        match self {
            EngineError::Pattern(s) => s.clone(),
            EngineError::Open(s) => s.clone(),
            EngineError::Decode(s) => s.clone(),
            EngineError::Write(s) => s.clone(),
        }
    }
}

/// One progress event of a splitting run. Events are emitted in the order the
/// corresponding facts became true: `Started` is always first, and exactly
/// one of `Done` or `Error` is last.
#[derive(Clone, Debug)]
pub enum StatusReport {
    /// The run has begun.
    Started,
    /// The total number of input lines consumed so far.
    LinesParsed(usize),
    /// The chapter index that the next boundary will open.
    ChaptersSplit(usize),
    /// The text of a line that matched the boundary pattern.
    NewTitle(String),
    /// The run ended in failure.
    Error(EngineError),
    /// The run ended successfully.
    Done,
}

impl View for StatusReport {
    type V = EventModel;

    open spec fn view(&self) -> EventModel {
        match self {
            StatusReport::Started => EventModel::Started,
            StatusReport::LinesParsed(n) => EventModel::LinesParsed(*n as nat),
            StatusReport::ChaptersSplit(n) => EventModel::ChaptersSplit(*n as nat),
            StatusReport::NewTitle(s) => EventModel::NewTitle(s@),
            StatusReport::Error(e) => EventModel::Error(e@),
            StatusReport::Done => EventModel::Done,
        }
    }
}

/// The models of a sequence of events, in order.
pub open spec fn events_model(evs: Seq<StatusReport>) -> Seq<EventModel> {
    evs.map_values(|e: StatusReport| e@)
}

} // verus!
