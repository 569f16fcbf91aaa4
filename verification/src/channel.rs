//! The progress channel between a provider's execution context and the
//! orchestrator: a multi-producer, single-consumer pipe of [`PluginProgress`]
//! records, with a non-blocking poll for the consumer.
//!
//! The channel itself comes from the flume crate; what a poll yields depends
//! on what another execution context has sent, so the contracts here promise
//! nothing about which outcome comes back, and the orchestrator is verified
//! for every outcome.
use vstd::prelude::*;

use crate::PluginProgress;

verus! {

#[verifier::external_type_specification]
#[verifier::external_body]
#[verifier::reject_recursive_types(T)]
pub struct ExSender<T>(flume::Sender<T>);

#[verifier::external_type_specification]
#[verifier::external_body]
#[verifier::reject_recursive_types(T)]
pub struct ExReceiver<T>(flume::Receiver<T>);

/// One outcome of a non-blocking poll of the progress channel: a record is
/// waiting, nothing is waiting yet, or every sender is gone and no record
/// will come any more.
pub enum PollEvent {
    Record(PluginProgress),
    Empty,
    Disconnected,
}

/// Relies on flume::Receiver::try_recv: a non-blocking poll that yields a
/// waiting message, or Empty while senders are alive, or Disconnected once
/// all senders were dropped and the channel is drained.
#[verifier::external_body]
pub(crate) fn try_recv_progress(rx: &flume::Receiver<PluginProgress>) -> PollEvent {
    match rx.try_recv() {
        Ok(record) => PollEvent::Record(record),
        Err(flume::TryRecvError::Empty) => PollEvent::Empty,
        Err(flume::TryRecvError::Disconnected) => PollEvent::Disconnected,
    }
}

/// Relies on flume::Sender::send: on an unbounded channel it does not block,
/// and it fails exactly when every receiver has been dropped.
#[verifier::external_body]
fn send_one(tx: &flume::Sender<PluginProgress>, record: PluginProgress) -> bool {
    tx.send(record).is_ok()
}

/// Send the records in order over the progress channel. The result reports
/// whether every record was accepted; what acceptance depends on (the
/// receiving end's liveness) is the channel's affair, so no contract
/// constrains it.
pub fn send_all(tx: &flume::Sender<PluginProgress>, records: Vec<PluginProgress>) -> bool {
    let mut remaining = records;
    let mut all_accepted = true;
    while remaining.len() > 0
        decreases remaining.len(),
    {
        let record = remaining.remove(0);
        let accepted = send_one(tx, record);
        all_accepted = all_accepted && accepted;
    }
    all_accepted
}

} // verus!
