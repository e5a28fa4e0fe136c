//! The channel between the engine's callbacks and the frame's drain.
//!
//! The channel is `std::sync::mpsc`: unbounded, so that a handler never waits,
//! and first-in first-out for every sender. What is on it at a given moment
//! depends on every handler that ran before, so the functions here state
//! nothing about which records the reader finds; order and completeness are
//! the channel's own.

use crate::signal::GodotSignal;
use std::sync::mpsc::{Receiver, Sender};
use vstd::prelude::*;

verus! {

/// `std::sync::mpsc::Sender`: the producing end of a channel.
#[verifier::external_type_specification]
#[verifier::external_body]
#[verifier::reject_recursive_types(T)]
pub struct ExSender<T>(Sender<T>);

/// `std::sync::mpsc::Receiver`: the consuming end of a channel.
#[verifier::external_type_specification]
#[verifier::external_body]
#[verifier::reject_recursive_types(T)]
pub struct ExReceiver<T>(Receiver<T>);

/// The consuming end of the bridge's channel. There is one per bridge, owned
/// by whoever runs the drain.
pub struct GodotSignalReader(pub Receiver<GodotSignal>);

/// The producing end of the bridge's channel. Every connection holds a clone.
pub struct GodotSignalSender(pub Sender<GodotSignal>);

/// Calls `std::sync::mpsc::channel`.
#[verifier::external_body]
fn new_channel() -> (ends: (Sender<GodotSignal>, Receiver<GodotSignal>)) {
    std::sync::mpsc::channel()
}

/// Calls `Sender::clone`: another handle on the same channel.
#[verifier::external_body]
pub(crate) fn clone_sender(sender: &Sender<GodotSignal>) -> (clone: Sender<GodotSignal>) {
    sender.clone()
}

/// Calls `Sender::send`, which never blocks. The channel refuses a record
/// only when the receiver is gone; the error it then returns holds the record
/// that was to be sent, and that record is what is handed back here.
#[verifier::external_body]
pub(crate) fn send_record(sender: &Sender<GodotSignal>, record: GodotSignal) -> (outcome: Result<
    (),
    GodotSignal,
>)
    ensures
        outcome matches Err(returned) ==> returned == record,
{
    sender.send(record).map_err(|error| error.0)
}

/// Calls `Receiver::try_iter` and collects what it yields: the records that
/// wait on the channel, oldest first, until none is waiting. The iterator
/// never blocks. Which records wait depends on what the senders have done so
/// far.
#[verifier::external_body]
pub(crate) fn waiting_records(receiver: &Receiver<GodotSignal>) -> (records: Vec<GodotSignal>) {
    receiver.try_iter().collect()
}

/// Opens the channel of one bridge and returns its two ends.
pub fn signal_channel() -> (ends: (GodotSignalSender, GodotSignalReader)) {
    let (sender, receiver) = new_channel();
    (GodotSignalSender(sender), GodotSignalReader(receiver))
}

impl GodotSignalSender {
    /// Another sender on the same channel, for a new connection to keep.
    pub fn duplicate(&self) -> (sender: Sender<GodotSignal>) {
        clone_sender(&self.0)
    }

    /// Puts a record on the channel without blocking. The channel takes the
    /// record unless the receiver is gone; the record then comes back as it
    /// was.
    pub fn send(&self, record: GodotSignal) -> (outcome: Result<(), GodotSignal>)
        ensures
            outcome matches Err(returned) ==> returned == record,
    {
        send_record(&self.0, record)
    }
}

impl GodotSignalReader {
    /// Takes every record that is waiting on the channel, oldest first,
    /// without blocking. The result is empty when nothing is waiting.
    pub fn try_drain(&self) -> (records: Vec<GodotSignal>) {
        waiting_records(&self.0)
    }
}

} // verus!
