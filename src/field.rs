use crate::names::str_eq;
use vstd::prelude::*;

verus! {

/// A type that the target language has built in.
#[derive(Debug, Clone, Copy, PartialEq, Eq, Structural)]
pub enum Primitive {
    /// 32-bit signed integer.
    Int32,
    /// 32-bit floating-point number.
    Float32,
    /// Owned text.
    Text,
    /// Boolean.
    Boolean,
}

/// The resolved type of an attribute: a built-in type, or the name of another
/// generated type.
#[derive(Debug, Clone)]
pub enum DataType {
    Primitive(Primitive),
    Reference(String),
}

/// How a field wraps its type: as is, optional, a sequence, or an optional sequence.
#[derive(Debug, Clone, Copy, PartialEq, Eq, Structural)]
pub enum Shape {
    Bare,
    Optional,
    Sequence,
    OptionalSequence,
}

/// The type of a generated field: its element type and how it is wrapped.
#[derive(Debug, Clone)]
pub struct FieldType {
    pub shape: Shape,
    pub dtype: DataType,
}

/// The built-in type that a type name stands for, if it names one.
pub open spec fn primitive_named(d: Seq<char>) -> Option<Primitive> {
    if d == "integer"@ {
        Some(Primitive::Int32)
    } else if d == "float"@ {
        Some(Primitive::Float32)
    } else if d == "string"@ {
        Some(Primitive::Text)
    } else if d == "boolean"@ {
        Some(Primitive::Boolean)
    } else {
        None
    }
}

/// What a type name resolves to: the built-in type it names, or else a reference to the
/// type of that name.
pub open spec fn resolves_to(d: Seq<char>, t: DataType) -> bool {
    match primitive_named(d) {
        Some(p) => t == DataType::Primitive(p),
        None => t is Reference && t->Reference_0@ == d,
    }
}

/// The shape of a field by its flags; an optional sequence of a referenced type is a
/// plain sequence.
pub open spec fn shape_for(required: bool, is_array: bool, is_primitive: bool) -> Shape {
    if !is_array {
        if required {
            Shape::Bare
        } else {
            Shape::Optional
        }
    } else if required || !is_primitive {
        Shape::Sequence
    } else {
        Shape::OptionalSequence
    }
}

/// Resolves a type name: one of the four built-in names, or a reference to another
/// generated type. Never fails; a reference is not checked against the generated types.
pub fn get_data_type(dtype: &str) -> (r: DataType)
    ensures
        resolves_to(dtype@, r),
{
    if str_eq(dtype, "integer") {
        DataType::Primitive(Primitive::Int32)
    } else if str_eq(dtype, "float") {
        DataType::Primitive(Primitive::Float32)
    } else if str_eq(dtype, "string") {
        DataType::Primitive(Primitive::Text)
    } else if str_eq(dtype, "boolean") {
        DataType::Primitive(Primitive::Boolean)
    } else {
        DataType::Reference(dtype.to_owned())
    }
}

/// Wraps a resolved type according to the field's flags.
pub fn wrap_dtype(is_array: bool, required: bool, dtype: DataType) -> (r: FieldType)
    ensures
        r.dtype == dtype,
        r.shape == shape_for(required, is_array, dtype is Primitive),
{
    let is_primitive = match &dtype {
        DataType::Primitive(_) => true,
        DataType::Reference(_) => false,
    };
    let shape = if required && !is_array {
        Shape::Bare
    } else if !required && !is_array {
        Shape::Optional
    } else if required && is_array {
        Shape::Sequence
    } else if is_primitive {
        Shape::OptionalSequence
    } else {
        Shape::Sequence
    };
    FieldType { shape, dtype }
}

/// Construction-time setter settings of a field. Every setter converts its argument
/// into the field's type, and every field left unset takes its empty or zero value.
#[derive(Debug, Clone)]
pub struct BuilderAttr {
    /// The setter takes the inner value and wraps it as present.
    pub strip_option: bool,
    /// The name of the setter that appends one element, for a sequence field.
    pub each: Option<String>,
}

/// Serialization hint of a field.
#[derive(Debug, Clone, Copy, PartialEq, Eq, Structural)]
pub enum SerdeHint {
    /// Always written, and expected present when read.
    NoHint,
    /// Left out when written if absent.
    SkipIfAbsent,
    /// Read as its empty value when missing.
    DefaultIfMissing,
}

/// Builder settings of a field: an optional field's setter takes the inner value, and
/// a sequence field has an appending setter `to_<name>`.
pub fn get_builder_attr(is_array: bool, required: bool, name: &str) -> (r: BuilderAttr)
    ensures
        r.strip_option == !required,
        r.each is Some <==> is_array,
        is_array ==> r.each->Some_0@ == "to_"@ + name@,
{
    let each = if is_array {
        Some(String::from_str("to_").concat(name))
    } else {
        None
    };
    BuilderAttr { strip_option: !required, each }
}

/// The serialization hint of a field by its flags.
pub open spec fn hint_for(is_array: bool, required: bool) -> SerdeHint {
    if is_array {
        SerdeHint::DefaultIfMissing
    } else if required {
        SerdeHint::NoHint
    } else {
        SerdeHint::SkipIfAbsent
    }
}

/// Serialization hint of a field: an optional single value is left out when absent, a
/// sequence is read as empty when missing, a required single value has no hint.
pub fn get_serde_attr(is_array: bool, required: bool) -> (r: SerdeHint)
    ensures
        r == hint_for(is_array, required),
{
    if !required && !is_array {
        SerdeHint::SkipIfAbsent
    } else if is_array {
        SerdeHint::DefaultIfMissing
    } else {
        SerdeHint::NoHint
    }
}

} // verus!
