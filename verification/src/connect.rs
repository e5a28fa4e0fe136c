//! Connecting a signal: what a connection remembers, what it makes of an
//! emission, and how the engine's answer to the connecting call is reported.

use crate::channel::{send_record, GodotSignalSender};
use crate::engine::{connect_node_signal, handler_callable, nil_variant, variant_type_of};
use crate::handle::GodotNodeHandle;
use crate::signal::{
    argument_views, GodotSignal, GodotSignalArgument, GodotSignalTarget, SignalArgumentView,
    SignalTargetView, SignalView,
};
use crate::translate::{translate_arguments, NIL_ORDINAL};
use godot::builtin::Variant;
use godot::meta::error::ConvertError;
use godot::obj::InstanceId;
use std::sync::mpsc::Sender;
use vstd::prelude::*;

verus! {

/// The ordinal of the engine's error code `OK`.
pub const ENGINE_OK: i32 = 0;

/// Why a signal could not be connected.
#[derive(Debug)]
pub enum SignalConnectError {
    /// The handle names no live node. Carries the engine's account of the
    /// failed lookup.
    NodeUnavailable(ConvertError),
    /// The engine refused to attach the handler. Carries the ordinal of the
    /// engine's error code, which is never that of `OK`.
    Refused(i32),
}

/// What one installed handler keeps: its end of the channel and the three
/// things every record of the connection is made from.
pub struct SignalConnection {
    sender: Sender<GodotSignal>,
    node_id: InstanceId,
    signal_name: String,
    target: Option<GodotSignalTarget>,
}

/// The model of a [`SignalConnection`]: what its records are made from. The
/// sender decides where a record goes, not what the record is; it is told by
/// [`SignalConnection::sender`].
pub struct ConnectionView {
    pub node_id: InstanceId,
    pub signal_name: Seq<char>,
    pub target: Option<SignalTargetView>,
}

impl View for SignalConnection {
    type V = ConnectionView;

    closed spec fn view(&self) -> ConnectionView {
        ConnectionView {
            node_id: self.node_id,
            signal_name: self.signal_name@,
            target: target_view(self.target),
        }
    }
}

/// The model of an optional target.
pub open spec fn target_view(target: Option<GodotSignalTarget>) -> Option<SignalTargetView> {
    match target {
        Some(target) => Some(target@),
        None => None,
    }
}

/// The connection that is made on the node with the given id, for the signal
/// of the given name, with the given optional target.
pub open spec fn connection_of(
    node_id: InstanceId,
    signal_name: Seq<char>,
    target: Option<GodotSignalTarget>,
) -> ConnectionView {
    ConnectionView { node_id, signal_name, target: target_view(target) }
}

/// The record that a connection makes of an emission with the given
/// arguments: the connection's signal name, the connected node as origin, the
/// connection's target or, where it has none, the origin, and the arguments
/// as they are.
pub open spec fn signal_of(
    connection: ConnectionView,
    arguments: Seq<SignalArgumentView>,
) -> SignalView {
    SignalView {
        name: connection.signal_name,
        origin: connection.node_id,
        target: match connection.target {
            Some(target) => target,
            None => SignalTargetView::Node(connection.node_id),
        },
        arguments,
    }
}

/// What is reported for an attempt to attach a handler: success for the
/// engine's `OK`, the engine's code for any other code, and the lookup's error
/// where the node was not found.
pub open spec fn outcome_of(attempt: Result<i32, ConvertError>) -> Result<(), SignalConnectError> {
    match attempt {
        Ok(code) => if code == ENGINE_OK {
            Ok(())
        } else {
            Err(SignalConnectError::Refused(code))
        },
        Err(error) => Err(SignalConnectError::NodeUnavailable(error)),
    }
}

/// The label under which the engine shows the handler of a connection.
pub fn handler_label() -> (label: &'static str)
    ensures
        label@ == "universal_signal_handler"@,
{
    "universal_signal_handler"
}

impl SignalConnection {
    /// The sender that the connection captured: the end of the channel that
    /// its records are put on.
    pub closed spec fn sender(&self) -> Sender<GodotSignal> {
        self.sender
    }

    /// Captures what a handler needs: the sender, the id of the node, the
    /// name of the signal and the optional target.
    pub fn new(
        sender: Sender<GodotSignal>,
        node_id: InstanceId,
        signal_name: String,
        target: Option<GodotSignalTarget>,
    ) -> (connection: Self)
        ensures
            connection@ == connection_of(node_id, signal_name@, target),
            connection.sender() == sender,
    {
        SignalConnection { sender, node_id, signal_name, target }
    }

    /// Assembles the record of one emission from its translated arguments.
    pub fn record(&self, arguments: Vec<GodotSignalArgument>) -> (record: GodotSignal)
        ensures
            record@ == signal_of(self@, argument_views(arguments@)),
    {
        let origin = GodotNodeHandle::from_instance_id(self.node_id);
        let target = match self.target {
            Some(target) => target,
            None => GodotSignalTarget::Node(origin),
        };
        GodotSignal { name: self.signal_name.clone(), origin, target, arguments }
    }

    /// Assembles the record of one emission and puts it on the channel. The
    /// channel takes it unless the receiver is gone; the record then comes
    /// back.
    pub fn emit(&self, arguments: Vec<GodotSignalArgument>) -> (outcome: Result<(), GodotSignal>)
        ensures
            outcome matches Err(returned) ==> returned@ == signal_of(
                self@,
                argument_views(arguments@),
            ),
    {
        let record = self.record(arguments);
        send_record(&self.sender, record)
    }

    /// The universal handler: takes the arguments of an emission of any
    /// arity, translates each in order, emits the record, and gives the
    /// engine an empty value back. A record the channel does not take is
    /// dropped silently: the value given back is the same.
    pub fn handle(&self, args: &[&Variant]) -> (nothing: Variant)
        ensures
            variant_type_of(nothing) == NIL_ORDINAL,
    {
        let arguments = translate_arguments(args);
        let _ = self.emit(arguments);
        nil_variant()
    }
}

/// Every record of a connection names as origin the node that the signal was
/// connected on.
pub proof fn lemma_origin_is_connected_node(
    node_id: InstanceId,
    signal_name: Seq<char>,
    target: Option<GodotSignalTarget>,
    arguments: Seq<SignalArgumentView>,
)
    ensures
        signal_of(connection_of(node_id, signal_name, target), arguments).origin == node_id,
{
}

/// Every record of a connection names as target the target that was given
/// when the signal was connected, and the record's own origin where none was
/// given.
pub proof fn lemma_target_is_given_or_origin(
    node_id: InstanceId,
    signal_name: Seq<char>,
    target: Option<GodotSignalTarget>,
    arguments: Seq<SignalArgumentView>,
)
    ensures
        ({
            let record = signal_of(connection_of(node_id, signal_name, target), arguments);
            match target {
                Some(given) => record.target == given@,
                None => record.target == SignalTargetView::Node(record.origin),
            }
        }),
{
}

/// A record carries the name of the connected signal and the arguments of the
/// emission, each at its position.
pub proof fn lemma_record_keeps_name_and_arguments(
    node_id: InstanceId,
    signal_name: Seq<char>,
    target: Option<GodotSignalTarget>,
    arguments: Seq<SignalArgumentView>,
)
    ensures
        ({
            let record = signal_of(connection_of(node_id, signal_name, target), arguments);
            &&& record.name == signal_name
            &&& record.arguments.len() == arguments.len()
            &&& forall|i: int| 0 <= i < arguments.len() ==> record.arguments[i] == arguments[i]
        }),
{
}

/// Reports the engine's answer to an attempt to attach a handler.
pub fn connect_outcome(attempt: Result<i32, ConvertError>) -> (outcome: Result<
    (),
    SignalConnectError,
>)
    ensures
        outcome == outcome_of(attempt),
{
    match attempt {
        Ok(code) => {
            if code == ENGINE_OK {
                Ok(())
            } else {
                Err(SignalConnectError::Refused(code))
            }
        },
        Err(error) => Err(SignalConnectError::NodeUnavailable(error)),
    }
}

/// Installs a handler on the named signal of a node. From then on every
/// emission of the signal puts one record on the sender's channel, with the
/// node as origin and `signal_target`, or else the node, as target.
///
/// Connecting twice installs two handlers. Whether the node is alive and
/// whether it has such a signal is the engine's to say: the outcome is what
/// [`connect_outcome`] makes of the engine's answer.
pub fn connect_godot_signal(
    node: &mut GodotNodeHandle,
    signal_name: &str,
    signal_sender: Sender<GodotSignal>,
    signal_target: Option<GodotSignalTarget>,
) -> (outcome: Result<(), SignalConnectError>)
    ensures
        *final(node) == *old(node),
        exists|attempt: Result<i32, ConvertError>| outcome == #[trigger] outcome_of(attempt),
{
    let node_id = node.instance_id();
    let connection = SignalConnection::new(
        signal_sender,
        node_id,
        signal_name.to_string(),
        signal_target,
    );
    let callable = handler_callable(handler_label(), connection);
    let attempt = connect_node_signal(node_id, signal_name, &callable);
    connect_outcome(attempt)
}

/// The connecting interface for systems: it borrows the bridge's sender and
/// gives every new connection a clone of it.
pub struct GodotSignals<'w> {
    signal_sender: &'w GodotSignalSender,
}

impl<'w> GodotSignals<'w> {
    /// The sender whose clones the connections get.
    pub closed spec fn sender(&self) -> GodotSignalSender {
        *self.signal_sender
    }

    /// Borrows the sender that the connections are to use.
    pub fn new(signal_sender: &'w GodotSignalSender) -> (signals: Self)
        ensures
            signals.sender() == *signal_sender,
    {
        GodotSignals { signal_sender }
    }

    /// Connects a signal without a target of its own: its records name the
    /// emitting node as target.
    pub fn connect(&self, node: &mut GodotNodeHandle, signal_name: &str) -> (outcome: Result<
        (),
        SignalConnectError,
    >)
        ensures
            *final(node) == *old(node),
            exists|attempt: Result<i32, ConvertError>| outcome == #[trigger] outcome_of(attempt),
    {
        connect_godot_signal(node, signal_name, self.signal_sender.duplicate(), None)
    }

    /// Connects a signal whose records name the given target.
    pub fn connect_to_target(
        &self,
        node: &mut GodotNodeHandle,
        signal_name: &str,
        target: &GodotSignalTarget,
    ) -> (outcome: Result<(), SignalConnectError>)
        ensures
            *final(node) == *old(node),
            exists|attempt: Result<i32, ConvertError>| outcome == #[trigger] outcome_of(attempt),
    {
        connect_godot_signal(node, signal_name, self.signal_sender.duplicate(), Some(*target))
    }
}

} // verus!
