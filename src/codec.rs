use crate::field::{SerdeHint, Shape};
use crate::model::{object_of, ObjectDef, ObjectDesc};
use vstd::prelude::*;

verus! {

/// What a field of a generated record holds: nothing, or its elements (exactly one for
/// a single value).
pub ghost enum FieldValue {
    Absent,
    Present(Seq<int>),
}

/// What an encoded record holds under a field's key.
pub ghost enum Encoded {
    /// The key is left out.
    Missing,
    /// The key holds null.
    Null,
    /// The key holds these elements.
    Value(Seq<int>),
}

/// Whether a field of this shape may be absent.
pub open spec fn shape_optional(shape: Shape) -> bool {
    shape == Shape::Optional || shape == Shape::OptionalSequence
}

/// The values that a field of this shape can hold.
pub open spec fn value_fits(shape: Shape, v: FieldValue) -> bool {
    match v {
        FieldValue::Absent => shape_optional(shape),
        FieldValue::Present(s) => shape == Shape::Sequence || shape == Shape::OptionalSequence
            || s.len() == 1,
    }
}

/// Encoding a field: an absent value is left out under `SkipIfAbsent`, else written as
/// null; a present one is written as is.
pub open spec fn encode_field(hint: SerdeHint, v: FieldValue) -> Encoded {
    match v {
        FieldValue::Absent => if hint == SerdeHint::SkipIfAbsent {
            Encoded::Missing
        } else {
            Encoded::Null
        },
        FieldValue::Present(s) => Encoded::Value(s),
    }
}

/// Decoding a field, `None` where it fails: a missing key is the empty sequence under
/// `DefaultIfMissing`, optional sequences included; otherwise null or a missing key is
/// absent for an optional field, and a required field must be there.
pub open spec fn decode_field(shape: Shape, hint: SerdeHint, e: Encoded) -> Option<FieldValue> {
    match e {
        Encoded::Value(s) => Some(FieldValue::Present(s)),
        Encoded::Null => if shape_optional(shape) {
            Some(FieldValue::Absent)
        } else {
            None
        },
        Encoded::Missing => if hint == SerdeHint::DefaultIfMissing {
            Some(FieldValue::Present(Seq::empty()))
        } else if shape_optional(shape) {
            Some(FieldValue::Absent)
        } else {
            None
        },
    }
}

/// Encoding a record of a generated type and decoding it again gives back the same
/// values, whichever optional fields are absent and whatever the lengths of its
/// sequences, empty ones included.
pub proof fn lemma_round_trip(o: ObjectDef, d: ObjectDesc, values: Seq<FieldValue>)
    requires
        object_of(o, d),
        values.len() == d.fields.len(),
        forall|j: int|
            0 <= j < values.len() ==> value_fits(d.fields[j].field_type.shape, #[trigger] values[j]),
    ensures
        forall|j: int|
            0 <= j < values.len() ==> decode_field(
                d.fields[j].field_type.shape,
                d.fields[j].serde,
                encode_field(d.fields[j].serde, #[trigger] values[j]),
            ) == Some(values[j]),
{
    assert forall|j: int| 0 <= j < values.len() implies decode_field(
        d.fields[j].field_type.shape,
        d.fields[j].serde,
        encode_field(d.fields[j].serde, #[trigger] values[j]),
    ) == Some(values[j]) by {
        let f = d.fields[j];
        assert(crate::model::field_of(o.attributes[j], f));
    }
}

} // verus!
