//! A one-way bridge that carries signals emitted by Godot nodes into a queue
//! that a Bevy schedule drains once per frame.
//!
//! The engine calls one universal handler per connection. The handler turns
//! every argument into an owned description, assembles a [`GodotSignal`] and
//! puts it on a channel; [`write_godot_signal_events`] later moves whatever is
//! waiting on that channel into the frame's batch of events, in arrival order.

pub mod channel;
pub mod connect;
pub mod drain;
pub mod engine;
pub mod handle;
pub mod plugin;
pub mod signal;
pub mod translate;

pub use channel::{signal_channel, GodotSignalReader, GodotSignalSender};
pub use connect::{
    connect_godot_signal, connect_outcome, handler_label, ConnectionView, GodotSignals,
    SignalConnectError, SignalConnection,
};
pub use drain::{publish_signals, write_godot_signal_events};
pub use handle::GodotNodeHandle;
pub use plugin::GodotSignalsPlugin;
pub use signal::{
    GodotSignal, GodotSignalArgument, GodotSignalTarget, SignalArgumentView, SignalTargetView,
    SignalView,
};
pub use translate::{
    argument_from_parts, translate_arguments, variant_to_signal_argument, VariantKind,
};
