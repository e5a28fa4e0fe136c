//! Turning engine values into owned descriptions.
//!
//! A variant is read three times: for its type, for its text, and, if it is an
//! object, for the object's instance id. What comes back is put together by
//! [`argument_from_parts`], whose result is fixed by its inputs. The type is
//! the variant's own, so the type name of a translation is fixed by the
//! variant; the text and the id are whatever the engine gives at that moment.

use crate::engine::{variant_object_id, variant_text, variant_type_of, variant_type_ordinal};
use crate::signal::{GodotSignalArgument, SignalArgumentView};
use godot::builtin::Variant;
use godot::obj::InstanceId;
use vstd::prelude::*;

verus! {

/// The ordinal of `Variant.Type.TYPE_NIL`.
pub const NIL_ORDINAL: i32 = 0;

/// The ordinal of `Variant.Type.TYPE_BOOL`.
pub const BOOL_ORDINAL: i32 = 1;

/// The ordinal of `Variant.Type.TYPE_INT`.
pub const INT_ORDINAL: i32 = 2;

/// The ordinal of `Variant.Type.TYPE_FLOAT`.
pub const FLOAT_ORDINAL: i32 = 3;

/// The ordinal of `Variant.Type.TYPE_STRING`.
pub const STRING_ORDINAL: i32 = 4;

/// The ordinal of `Variant.Type.TYPE_VECTOR2`.
pub const VECTOR2_ORDINAL: i32 = 5;

/// The ordinal of `Variant.Type.TYPE_VECTOR3`.
pub const VECTOR3_ORDINAL: i32 = 9;

/// The ordinal of `Variant.Type.TYPE_OBJECT`.
pub const OBJECT_ORDINAL: i32 = 24;

/// The kinds of argument the bridge tells apart. Every engine type that has
/// no variant of its own here is `Unknown`.
#[derive(Debug, Clone, Copy, PartialEq, Eq, Structural)]
pub enum VariantKind {
    Nil,
    Bool,
    Int,
    Float,
    String,
    Vector2,
    Vector3,
    Object,
    Unknown,
}

impl VariantKind {
    /// The kind that stands for the engine type with the given ordinal.
    pub open spec fn of_ordinal(ordinal: int) -> VariantKind {
        if ordinal == NIL_ORDINAL {
            VariantKind::Nil
        } else if ordinal == BOOL_ORDINAL {
            VariantKind::Bool
        } else if ordinal == INT_ORDINAL {
            VariantKind::Int
        } else if ordinal == FLOAT_ORDINAL {
            VariantKind::Float
        } else if ordinal == STRING_ORDINAL {
            VariantKind::String
        } else if ordinal == VECTOR2_ORDINAL {
            VariantKind::Vector2
        } else if ordinal == VECTOR3_ORDINAL {
            VariantKind::Vector3
        } else if ordinal == OBJECT_ORDINAL {
            VariantKind::Object
        } else {
            VariantKind::Unknown
        }
    }

    /// The name under which a kind appears in a translated argument.
    pub open spec fn name(self) -> Seq<char> {
        match self {
            VariantKind::Nil => "Nil"@,
            VariantKind::Bool => "Bool"@,
            VariantKind::Int => "Int"@,
            VariantKind::Float => "Float"@,
            VariantKind::String => "String"@,
            VariantKind::Vector2 => "Vector2"@,
            VariantKind::Vector3 => "Vector3"@,
            VariantKind::Object => "Object"@,
            VariantKind::Unknown => "Unknown"@,
        }
    }

    /// Reads a kind off the ordinal of an engine type.
    pub fn from_ordinal(ordinal: i32) -> (kind: VariantKind)
        ensures
            kind == VariantKind::of_ordinal(ordinal as int),
    {
        if ordinal == NIL_ORDINAL {
            VariantKind::Nil
        } else if ordinal == BOOL_ORDINAL {
            VariantKind::Bool
        } else if ordinal == INT_ORDINAL {
            VariantKind::Int
        } else if ordinal == FLOAT_ORDINAL {
            VariantKind::Float
        } else if ordinal == STRING_ORDINAL {
            VariantKind::String
        } else if ordinal == VECTOR2_ORDINAL {
            VariantKind::Vector2
        } else if ordinal == VECTOR3_ORDINAL {
            VariantKind::Vector3
        } else if ordinal == OBJECT_ORDINAL {
            VariantKind::Object
        } else {
            VariantKind::Unknown
        }
    }

    /// The kind's name as an owned string.
    pub fn owned_name(self) -> (name: String)
        ensures
            name@ == self.name(),
    {
        match self {
            VariantKind::Nil => "Nil".to_string(),
            VariantKind::Bool => "Bool".to_string(),
            VariantKind::Int => "Int".to_string(),
            VariantKind::Float => "Float".to_string(),
            VariantKind::String => "String".to_string(),
            VariantKind::Vector2 => "Vector2".to_string(),
            VariantKind::Vector3 => "Vector3".to_string(),
            VariantKind::Object => "Object".to_string(),
            VariantKind::Unknown => "Unknown".to_string(),
        }
    }
}

/// The argument that describes a value of the given kind and text. The object
/// id is kept for an object and dropped for every other kind.
pub open spec fn argument_of(
    kind: VariantKind,
    value: Seq<char>,
    object_id: Option<InstanceId>,
) -> SignalArgumentView {
    SignalArgumentView {
        kind_name: kind.name(),
        value,
        instance_id: if kind is Object {
            object_id
        } else {
            None
        },
    }
}

/// Whether an argument is the description of some value: its type name is the
/// name of a kind, and it carries an object id only under the name of
/// `Object`.
pub open spec fn is_translation(argument: SignalArgumentView) -> bool {
    exists|kind: VariantKind|
        argument == #[trigger] argument_of(kind, argument.value, argument.instance_id)
}

/// The kind of a variant: the kind that stands for the variant's type.
pub open spec fn variant_kind(variant: Variant) -> VariantKind {
    VariantKind::of_ordinal(variant_type_of(variant) as int)
}

/// Puts a translated argument together from what was read off a value.
pub fn argument_from_parts(
    kind: VariantKind,
    value: String,
    object_id: Option<InstanceId>,
) -> (argument: GodotSignalArgument)
    ensures
        argument@ == argument_of(kind, value@, object_id),
{
    let instance_id = match kind {
        VariantKind::Object => object_id,
        _ => None,
    };
    GodotSignalArgument { kind_name: kind.owned_name(), value, instance_id }
}

/// Translates one engine value.
///
/// The type name is the name of the variant's kind. The text is the engine's,
/// and the engine is asked for an object only when the variant is one, so a
/// variant of any other kind has no object id. Which text and id the engine
/// gives is not known here; the result is a translation with whatever it
/// gave.
pub fn variant_to_signal_argument(variant: &Variant) -> (argument: GodotSignalArgument)
    ensures
        is_translation(argument@),
        argument@.kind_name == variant_kind(*variant).name(),
        !(variant_kind(*variant) is Object) ==> argument@.instance_id is None,
{
    let kind = VariantKind::from_ordinal(variant_type_ordinal(variant));
    let value = variant_text(variant);
    let object_id = match kind {
        VariantKind::Object => variant_object_id(variant),
        _ => None,
    };
    argument_from_parts(kind, value, object_id)
}

/// Translates the arguments of one emission, keeping their order: the
/// translation at each position is that of the variant at that position.
pub fn translate_arguments(args: &[&Variant]) -> (arguments: Vec<GodotSignalArgument>)
    ensures
        arguments@.len() == args@.len(),
        forall|i: int| 0 <= i < arguments@.len() ==> is_translation(#[trigger] arguments@[i]@),
        forall|i: int|
            0 <= i < arguments@.len() ==> (#[trigger] arguments@[i])@.kind_name == variant_kind(
                *args@[i],
            ).name(),
        forall|i: int|
            0 <= i < arguments@.len() && !(variant_kind(*args@[i]) is Object) ==> (
            #[trigger] arguments@[i])@.instance_id is None,
{
    let mut arguments: Vec<GodotSignalArgument> = Vec::new();
    let mut next: usize = 0;
    while next < args.len()
        invariant
            next <= args@.len(),
            arguments@.len() == next,
            forall|i: int| 0 <= i < arguments@.len() ==> is_translation(#[trigger] arguments@[i]@),
            forall|i: int|
                0 <= i < arguments@.len() ==> (#[trigger] arguments@[i])@.kind_name
                    == variant_kind(*args@[i]).name(),
            forall|i: int|
                0 <= i < arguments@.len() && !(variant_kind(*args@[i]) is Object) ==> (
                #[trigger] arguments@[i])@.instance_id is None,
        decreases args@.len() - next,
    {
        let argument = variant_to_signal_argument(args[next]);
        arguments.push(argument);
        next = next + 1;
    }
    arguments
}

/// No two kinds share a name: the type name of an argument tells its kind.
pub proof fn lemma_names_are_distinct(a: VariantKind, b: VariantKind)
    requires
        a != b,
    ensures
        a.name() != b.name(),
{
    reveal_strlit("Nil");
    reveal_strlit("Bool");
    reveal_strlit("Int");
    reveal_strlit("Float");
    reveal_strlit("String");
    reveal_strlit("Vector2");
    reveal_strlit("Vector3");
    reveal_strlit("Object");
    reveal_strlit("Unknown");
    // Names of one length differ in their first character, but for `Vector2`
    // and `Vector3`, which differ in their last.
    assert(a.name().len() != b.name().len() || a.name()[0] != b.name()[0] || a.name()[6]
        != b.name()[6]);
}

/// An argument under the type name of `Object` carries the id that the
/// engine gave for the object, and an argument under any other name carries
/// none.
pub proof fn lemma_object_id_follows_the_name(
    kind: VariantKind,
    value: Seq<char>,
    object_id: Option<InstanceId>,
)
    ensures
        argument_of(kind, value, object_id).kind_name == "Object"@ ==> argument_of(
            kind,
            value,
            object_id,
        ).instance_id == object_id,
        argument_of(kind, value, object_id).kind_name != "Object"@ ==> argument_of(
            kind,
            value,
            object_id,
        ).instance_id is None,
{
    if kind != VariantKind::Object {
        lemma_names_are_distinct(kind, VariantKind::Object);
    }
}

/// A translated argument carries an object id only under the type name of
/// `Object`.
pub proof fn lemma_object_id_only_on_objects(argument: SignalArgumentView)
    requires
        is_translation(argument),
    ensures
        argument.instance_id is Some ==> argument.kind_name == "Object"@,
{
}

/// The type name of a translated argument is one of the nine names of the
/// table.
pub proof fn lemma_type_name_in_table(argument: SignalArgumentView)
    requires
        is_translation(argument),
    ensures
        exists|kind: VariantKind| argument.kind_name == #[trigger] kind.name(),
{
}

} // verus!
