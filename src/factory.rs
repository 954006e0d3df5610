use vstd::prelude::*;

use crate::model::{shape_type_named, DiagramError, FloatBits, Shape, ShapeType};

verus! {

/// Bit pattern of the width and height of a new shape (100.0).
pub const DEFAULT_EXTENT_BITS: u64 = 0x4059_0000_0000_0000;

/// Bit pattern of the stroke width of a new shape (2.0).
pub const DEFAULT_STROKE_WIDTH_BITS: u64 = 0x4000_0000_0000_0000;

/// `s` is the shape of kind `kind` that the factory makes with id `id` at
/// (`x`, `y`): 100 by 100, no rotation, indigo fill and stroke, stroke
/// width 2, and the text "Text" for a text shape only.
pub open spec fn is_default_shape(
    s: Shape,
    kind: ShapeType,
    id: Seq<char>,
    x: FloatBits,
    y: FloatBits,
) -> bool {
    &&& s.id@ == id
    &&& s.shape_type == kind
    &&& s.x == x
    &&& s.y == y
    &&& s.width.bits == DEFAULT_EXTENT_BITS
    &&& s.height.bits == DEFAULT_EXTENT_BITS
    &&& s.rotation.bits == 0
    &&& s.fill@ == "#4f46e5"@
    &&& s.stroke@ == "#3730a3"@
    &&& s.stroke_width.bits == DEFAULT_STROKE_WIDTH_BITS
    &&& match s.text {
        Some(t) => kind == ShapeType::Text && t@ == "Text"@,
        None => kind != ShapeType::Text,
    }
}

/// Relies on uuid::Uuid::new_v4 and the Display of uuid::Uuid: a random
/// version-4 UUID written in its hyphenated form, which is 36 characters.
#[verifier::external_body]
fn generate_id() -> (r: String)
    ensures
        r@.len() == 36,
{
    uuid::Uuid::new_v4().to_string()
}

/// Builds the default shape of the kind named `shape_type` with the given id
/// at (`x`, `y`). Fails with `MalformedInput` when the name is not one of
/// "rectangle", "circle", "diamond" or "text".
pub fn default_shape(shape_type: &str, id: String, x: FloatBits, y: FloatBits) -> (r: Result<
    Shape,
    DiagramError,
>)
    ensures
        r is Ok <==> shape_type_named(shape_type@) is Some,
        r matches Ok(s) ==> is_default_shape(s, shape_type_named(shape_type@)->0, id@, x, y),
        r is Err ==> r == Err::<Shape, DiagramError>(DiagramError::MalformedInput),
{
    let kind = match ShapeType::from_name(shape_type) {
        Some(k) => k,
        None => return Err(DiagramError::MalformedInput),
    };
    let text = match kind {
        ShapeType::Text => Some("Text".to_owned()),
        _ => None,
    };
    Ok(
        Shape {
            id,
            shape_type: kind,
            x,
            y,
            width: FloatBits { bits: DEFAULT_EXTENT_BITS },
            height: FloatBits { bits: DEFAULT_EXTENT_BITS },
            rotation: FloatBits { bits: 0 },
            fill: "#4f46e5".to_owned(),
            stroke: "#3730a3".to_owned(),
            stroke_width: FloatBits { bits: DEFAULT_STROKE_WIDTH_BITS },
            text,
        },
    )
}

/// Builds the default shape of the kind named `shape_type` at (`x`, `y`)
/// under a freshly generated id.
pub fn create_default_shape(shape_type: &str, x: FloatBits, y: FloatBits) -> (r: Result<
    Shape,
    DiagramError,
>)
    ensures
        r is Ok <==> shape_type_named(shape_type@) is Some,
        r matches Ok(s) ==> s.id@.len() == 36 && is_default_shape(
            s,
            shape_type_named(shape_type@)->0,
            s.id@,
            x,
            y,
        ),
        r is Err ==> r == Err::<Shape, DiagramError>(DiagramError::MalformedInput),
{
    if ShapeType::from_name(shape_type).is_none() {
        return Err(DiagramError::MalformedInput);
    }
    let id = generate_id();
    default_shape(shape_type, id, x, y)
}

} // verus!
