//! What the library takes from the engine bindings without proof.
//!
//! The functions here do nothing but call into `godot` and hand the answer
//! on as a plain value; Verus reads their signatures and contracts, never
//! their bodies.
//!
//! The type of a variant is part of the variant: it is the same whenever it
//! is asked, and [`variant_type_of`] is its name in contracts. The text of a
//! variant, the object behind it, whether a node is alive and whether it has
//! a signal of some name are the engine's to say and may differ from one call
//! to the next; of those nothing is promised. The functions are to be called
//! where the engine itself may be called: from its thread, while it runs.

use crate::connect::SignalConnection;
use crate::translate::NIL_ORDINAL;
use godot::builtin::{Callable, Variant};
use godot::classes::{Node, Object};
use godot::meta::error::ConvertError;
use godot::obj::{EngineEnum, Gd, InstanceId};
use vstd::prelude::*;

verus! {

/// `godot::builtin::Variant`: a dynamically typed engine value.
#[verifier::external_type_specification]
#[verifier::external_body]
pub struct ExVariant(Variant);

/// `godot::obj::InstanceId`: the non-zero integer under which the engine
/// registers an object.
#[verifier::external_type_specification]
#[verifier::external_body]
pub struct ExInstanceId(InstanceId);

/// `godot::builtin::Callable`: something the engine can invoke.
#[verifier::external_type_specification]
#[verifier::external_body]
pub struct ExCallable(Callable);

/// `godot::meta::error::ConvertError`: why the engine could not hand out a
/// value as the requested type.
#[verifier::external_type_specification]
#[verifier::external_body]
pub struct ExConvertError(ConvertError);

/// The ordinal of the type that `Variant::get_type` reports for a variant.
/// It is read off the type tag and the object pointer that the variant
/// stores, so it depends on the variant alone. Which ordinal a given variant
/// has is not said here.
pub uninterp spec fn variant_type_of(variant: Variant) -> i32;

/// Calls `Variant::get_type` and returns the ordinal of the type it reports
/// (`EngineEnum::ord`): the variant's type, under its name.
#[verifier::external_body]
pub(crate) fn variant_type_ordinal(variant: &Variant) -> (ordinal: i32)
    ensures
        ordinal == variant_type_of(*variant),
{
    variant.get_type().ord()
}

/// Calls `Variant::stringify` and copies the engine string into a `String`.
/// Nothing is claimed about the text.
#[verifier::external_body]
pub(crate) fn variant_text(variant: &Variant) -> (text: String) {
    variant.stringify().to_string()
}

/// Calls `Variant::try_to::<Gd<Object>>` and, where the engine hands out an
/// object, reads its instance id with `Gd::instance_id`. `None` stands for a
/// refused conversion. The conversion is refused for an object that is no
/// longer alive, so the id is read off a live object.
#[verifier::external_body]
pub(crate) fn variant_object_id(variant: &Variant) -> (id: Option<InstanceId>) {
    match variant.try_to::<Gd<Object>>() {
        Ok(object) => Some(object.instance_id()),
        Err(_) => None,
    }
}

/// Calls `Variant::nil`: the empty value a handler gives back to the engine.
/// Its type is the engine's `NIL`.
#[verifier::external_body]
pub(crate) fn nil_variant() -> (nil: Variant)
    ensures
        variant_type_of(nil) == NIL_ORDINAL,
{
    Variant::nil()
}

/// Calls `Callable::from_fn` with the given label. The callable owns the
/// connection, and each time the engine invokes it, it passes the arguments of
/// that invocation to [`SignalConnection::handle`] and returns what `handle`
/// returns.
#[verifier::external_body]
pub(crate) fn handler_callable(label: &str, connection: SignalConnection) -> (callable: Callable) {
    Callable::from_fn(label, move |args: &[&Variant]| connection.handle(args))
}

/// Looks the node up with `Gd::<Node>::try_from_instance_id` and calls
/// `Object::connect` on it with the signal's name and the callable. Returns
/// the ordinal of the error code that `connect` gave, or the error of the
/// lookup, in which case `connect` was not called.
#[verifier::external_body]
pub(crate) fn connect_node_signal(
    node_id: InstanceId,
    signal_name: &str,
    callable: &Callable,
) -> (attempt: Result<i32, ConvertError>) {
    let mut node = Gd::<Node>::try_from_instance_id(node_id)?;
    Ok(node.connect(signal_name, callable).ord())
}

} // verus!
