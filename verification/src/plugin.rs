//! What the bridge installs into an application.

use crate::channel::{signal_channel, GodotSignalReader, GodotSignalSender};
use vstd::prelude::*;

verus! {

/// The bridge as a unit that an application adds once. Installing it means
/// registering the signal event, storing the two ends of a fresh channel, and
/// scheduling the drain first in the frame, before events are rotated.
#[derive(Default)]
pub struct GodotSignalsPlugin;

impl GodotSignalsPlugin {
    /// Opens the channel of this bridge: the sender that connections clone,
    /// and the reader that the drain owns.
    pub fn channel(&self) -> (ends: (GodotSignalSender, GodotSignalReader)) {
        signal_channel()
    }
}

} // verus!
