//! The progress sink: the sending half of a one-directional, ordered event
//! channel from the engine to a caller-controlled consumer. Sends never
//! block and never fail the run: a dropped receiver cancels observation,
//! not computation.

use crate::events::StatusReport;
use vstd::prelude::*;

verus! {

#[verifier::external_type_specification]
#[verifier::external_body]
#[verifier::reject_recursive_types(T)]
pub struct ExSender<T>(crossbeam_channel::Sender<T>);

#[verifier::external_type_specification]
#[verifier::external_body]
#[verifier::reject_recursive_types(T)]
pub struct ExReceiver<T>(crossbeam_channel::Receiver<T>);

/// The sending half of the progress event channel.
pub struct ProgressSink {
    tx: crossbeam_channel::Sender<StatusReport>,
}

/// Relies on crossbeam_channel::unbounded: a channel with no capacity bound,
/// whose sends never block.
#[verifier::external_body]
fn channel_unbounded() -> (ProgressSink, crossbeam_channel::Receiver<StatusReport>) {
    let (tx, rx) = crossbeam_channel::unbounded();
    (ProgressSink { tx }, rx)
}

/// Relies on crossbeam_channel::Sender::send: on an unbounded channel it
/// never blocks; it delivers the message to a connected receiver, and on a
/// disconnected one it returns the message back with no other effect.
#[verifier::external_body]
fn channel_send(tx: &crossbeam_channel::Sender<StatusReport>, event: &StatusReport) {
    let _ = tx.send(event.clone());
}

/// Relies on crossbeam_channel::Receiver::try_recv: it never blocks, and it
/// returns a queued message, or nothing when the channel is empty or
/// disconnected.
#[verifier::external_body]
pub(crate) fn channel_try_recv(rx: &crossbeam_channel::Receiver<StatusReport>) -> Option<
    StatusReport,
> {
    rx.try_recv().ok()
}

/// Relies on crossbeam_channel::Receiver::len: the number of messages
/// queued in the channel at the moment of the call.
#[verifier::external_body]
pub(crate) fn channel_len(rx: &crossbeam_channel::Receiver<StatusReport>) -> usize {
    rx.len()
}

impl ProgressSink {
    /// Opens an unbounded progress channel and returns the sink together
    /// with its receiving half.
    pub fn channel() -> (ProgressSink, crossbeam_channel::Receiver<StatusReport>) {
        channel_unbounded()
    }

    /// Sends one event; a disconnected receiver makes this a no-op.
    pub fn send(&self, event: &StatusReport) {
        channel_send(&self.tx, event);
    }

    /// Sends a sequence of events, in order.
    pub fn send_all(&self, events: &Vec<StatusReport>) {
        let mut i: usize = 0;
        while i < events.len()
            decreases events@.len() - i,
        {
            self.send(&events[i]);
            i = i + 1;
        }
    }
}

} // verus!
