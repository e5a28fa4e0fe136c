//! The drain that runs at the start of every frame.

use crate::channel::GodotSignalReader;
use crate::signal::GodotSignal;
use vstd::prelude::*;

verus! {

/// The events of a frame after a batch was published into them: the batch
/// stands behind what was there, in its own order.
pub open spec fn published(events: Seq<GodotSignal>, batch: Seq<GodotSignal>) -> Seq<GodotSignal> {
    events + batch
}

/// Adds a batch of records to the events of a frame, behind those that are
/// there already and in the batch's own order.
pub fn publish_signals(events: &mut Vec<GodotSignal>, batch: Vec<GodotSignal>)
    ensures
        final(events)@ == published(old(events)@, batch@),
{
    let mut batch = batch;
    events.append(&mut batch);
}

/// Moves every record that is waiting on the channel into the events of the
/// frame, in the order of arrival, and returns without waiting for more.
///
/// Which records are waiting is decided by the handlers that ran before the
/// call. Whatever they are, the events that were there before stay where they
/// were, and the new ones follow them.
pub fn write_godot_signal_events(reader: &GodotSignalReader, events: &mut Vec<GodotSignal>)
    ensures
        old(events)@.is_prefix_of(final(events)@),
{
    let batch = reader.try_drain();
    publish_signals(events, batch);
}

/// Publishing a batch neither loses nor repeats nor reorders: the events
/// there before keep their places, and the record at each position of the
/// batch stands once, at that position behind them.
pub proof fn lemma_publish_places_each_record_once(
    events: Seq<GodotSignal>,
    batch: Seq<GodotSignal>,
)
    ensures
        published(events, batch).len() == events.len() + batch.len(),
        forall|i: int| 0 <= i < events.len() ==> published(events, batch)[i] == events[i],
        forall|i: int|
            0 <= i < batch.len() ==> published(events, batch)[events.len() + i] == batch[i],
{
}

/// Publishing two batches one after the other gives what publishing them as
/// one batch gives: records of an earlier drain stay ahead of those of a
/// later one.
pub proof fn lemma_publish_in_turn(
    events: Seq<GodotSignal>,
    earlier: Seq<GodotSignal>,
    later: Seq<GodotSignal>,
)
    ensures
        published(published(events, earlier), later) == published(events, earlier + later),
{
    assert(published(published(events, earlier), later) =~= published(events, earlier + later));
}

} // verus!
