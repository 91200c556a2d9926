//! A streaming text-splitting engine: given a line-oriented text, a boundary
//! pattern, and a starting chapter number, it partitions the input into
//! consecutively numbered chapter files, each running from one boundary line
//! (inclusive) up to the line before the next, and reports progress through an
//! ordered event stream.

pub mod engine;
pub mod events;
pub mod laws;
pub mod model;
pub mod naming;
pub mod pattern;
pub mod sink;
pub mod view;

pub use events::EngineError;
pub use events::ErrorModel;
pub use events::EventModel;
pub use events::StatusReport;
