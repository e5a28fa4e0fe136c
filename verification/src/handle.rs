//! Handles that name an engine node without borrowing it.

use godot::obj::InstanceId;
use vstd::prelude::*;

verus! {

/// A reference to an engine node, kept as the node's instance id.
///
/// The id is a plain value: a handle can be copied, stored and moved between
/// threads freely. Whether the id still names a live node is only known to the
/// engine, and is asked when a signal is connected.
#[derive(Debug, Clone, Copy, PartialEq, Eq)]
pub struct GodotNodeHandle {
    instance_id: InstanceId,
}

impl View for GodotNodeHandle {
    type V = InstanceId;

    /// A handle is modelled by the instance id it carries.
    closed spec fn view(&self) -> InstanceId {
        self.instance_id
    }
}

impl GodotNodeHandle {
    /// Makes the handle of the node with the given instance id.
    pub fn from_instance_id(instance_id: InstanceId) -> (handle: Self)
        ensures
            handle@ == instance_id,
    {
        GodotNodeHandle { instance_id }
    }

    /// The instance id this handle was made from.
    pub fn instance_id(&self) -> (id: InstanceId)
        ensures
            id == self@,
    {
        self.instance_id
    }

    /// Two handles of the same instance id are the same handle.
    pub proof fn lemma_same_id_same_handle(a: GodotNodeHandle, b: GodotNodeHandle)
        requires
            a@ == b@,
        ensures
            a == b,
    {
    }
}

} // verus!
