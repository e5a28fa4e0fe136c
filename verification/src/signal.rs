//! The records that cross the bridge, and their mathematical models.

use crate::handle::GodotNodeHandle;
use bevy::ecs::entity::Entity;
use godot::obj::InstanceId;
use vstd::prelude::*;

verus! {

/// `bevy::ecs::entity::Entity`: the identifier of an entity in the ECS world.
/// The bridge only carries such a value from the connecting call to the
/// records it produces.
#[verifier::external_type_specification]
#[verifier::external_body]
pub struct ExEntity(Entity);

/// One argument of a signal emission, detached from the engine.
#[derive(Debug, Clone)]
pub struct GodotSignalArgument {
    /// The name of the argument's kind, one of the names of [`crate::translate::VariantKind`].
    pub kind_name: String,
    /// The engine's own text form of the value.
    pub value: String,
    /// The instance id of the object the argument refers to, if it refers to one.
    pub instance_id: Option<InstanceId>,
}

/// The model of a [`GodotSignalArgument`]: its two texts as character
/// sequences, and the optional object id.
pub struct SignalArgumentView {
    pub kind_name: Seq<char>,
    pub value: Seq<char>,
    pub instance_id: Option<InstanceId>,
}

impl View for GodotSignalArgument {
    type V = SignalArgumentView;

    open spec fn view(&self) -> SignalArgumentView {
        SignalArgumentView {
            kind_name: self.kind_name@,
            value: self.value@,
            instance_id: self.instance_id,
        }
    }
}

/// Whom a signal is meant for: a node of the engine, or an entity of the ECS.
///
/// The bridge does not interpret the target; it hands it to the systems that
/// read the events.
#[derive(Debug, Clone, Copy)]
pub enum GodotSignalTarget {
    Node(GodotNodeHandle),
    Entity(Entity),
}

/// The model of a [`GodotSignalTarget`]: a node by its instance id, or an
/// entity.
pub enum SignalTargetView {
    Node(InstanceId),
    Entity(Entity),
}

impl View for GodotSignalTarget {
    type V = SignalTargetView;

    open spec fn view(&self) -> SignalTargetView {
        match *self {
            GodotSignalTarget::Node(handle) => SignalTargetView::Node(handle@),
            GodotSignalTarget::Entity(entity) => SignalTargetView::Entity(entity),
        }
    }
}

/// One emission of a connected signal.
#[derive(Debug)]
pub struct GodotSignal {
    /// The name of the signal.
    pub name: String,
    /// The node the signal was connected on.
    pub origin: GodotNodeHandle,
    /// The target given when the signal was connected, or else the origin.
    pub target: GodotSignalTarget,
    /// The translated arguments, in the order the engine passed them.
    pub arguments: Vec<GodotSignalArgument>,
}

/// The model of a [`GodotSignal`].
pub struct SignalView {
    pub name: Seq<char>,
    pub origin: InstanceId,
    pub target: SignalTargetView,
    pub arguments: Seq<SignalArgumentView>,
}

/// The models of a sequence of arguments, position by position.
pub open spec fn argument_views(arguments: Seq<GodotSignalArgument>) -> Seq<SignalArgumentView> {
    Seq::new(arguments.len(), |i: int| arguments[i]@)
}

impl View for GodotSignal {
    type V = SignalView;

    open spec fn view(&self) -> SignalView {
        SignalView {
            name: self.name@,
            origin: self.origin@,
            target: self.target@,
            arguments: argument_views(self.arguments@),
        }
    }
}

} // verus!
