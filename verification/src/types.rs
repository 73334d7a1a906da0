//! The records of the mesh and of its buffers: points, transforms, colours
//! and render vertices, all built from bit patterns of floating-point values.

use vstd::prelude::*;
use crate::scalar::{is_nan, same_scalar, scalar_eq, Scalar};

verus! {

/// Bit pattern of the single-precision value `0.0`.
pub const SINGLE_ZERO: u32 = 0;

/// Bit pattern of the single-precision value `1.0`.
pub const SINGLE_ONE: u32 = 0x3F80_0000;

/// A homogeneous point `(x, y, z, w)`; `w` is `1.0` for affine points.
#[derive(Clone, Copy, Debug, PartialEq, Eq)]
pub struct Position {
    pub x: Scalar,
    pub y: Scalar,
    pub z: Scalar,
    pub w: Scalar,
}

/// Scale factors along the three axes.
#[derive(Clone, Copy, Debug, PartialEq, Eq)]
pub struct Scale {
    pub x: Scalar,
    pub y: Scalar,
    pub z: Scalar,
}

/// Euler angles in degrees about the three axes.
#[derive(Clone, Copy, Debug, PartialEq, Eq)]
pub struct Rotation {
    pub x: Scalar,
    pub y: Scalar,
    pub z: Scalar,
}

/// The three corners of a triangle, in winding order.
pub type FaceType = (Position, Position, Position);

/// None of the four coordinates is a NaN.
pub open spec fn position_is_numeric(p: Position) -> bool {
    !is_nan(p.x) && !is_nan(p.y) && !is_nan(p.z) && !is_nan(p.w)
}

/// Equality of points as floating-point values, coordinate by coordinate.
/// Two patterns that differ in any bit other than the sign of a zero are
/// different points; a point with a NaN coordinate equals no point.
pub open spec fn position_eq(p: Position, q: Position) -> bool {
    &&& scalar_eq(p.x, q.x)
    &&& scalar_eq(p.y, q.y)
    &&& scalar_eq(p.z, q.z)
    &&& scalar_eq(p.w, q.w)
}

/// Decides [`position_eq`].
pub fn same_position(p: &Position, q: &Position) -> (equal: bool)
    ensures
        equal == position_eq(*p, *q),
{
    same_scalar(p.x, q.x) && same_scalar(p.y, q.y) && same_scalar(p.z, q.z) && same_scalar(
        p.w,
        q.w,
    )
}

/// An index as it is stored in an index buffer: reduced modulo 2^32.
pub open spec fn index32(i: int) -> u32 {
    (i % 0x1_0000_0000) as u32
}

/// Narrows an index to the width of an index buffer entry.
pub fn truncate_index(i: usize) -> (narrow: u32)
    ensures
        narrow == index32(i as int),
{
    let wide: u64 = i as u64;
    let narrow: u32 = (wide & 0xFFFF_FFFF) as u32;
    assert(wide & 0xFFFF_FFFF == wide % 0x1_0000_0000) by (bit_vector);
    narrow
}

/// The transform of an object: where it stands, how it is turned and how it
/// is scaled.
#[derive(Clone, Copy, Debug, PartialEq, Eq)]
pub struct Placement {
    pub position: Position,
    pub rotation: Rotation,
    pub scale: Scale,
}

/// One elementary transform of a point.
#[derive(Clone, Copy, Debug, PartialEq, Eq)]
pub enum TransformStep {
    /// Right-handed rotation about the X axis, by an angle in degrees.
    RotateX(Scalar),
    /// Right-handed rotation about the Y axis, by an angle in degrees.
    RotateY(Scalar),
    /// Right-handed rotation about the Z axis, by an angle in degrees.
    RotateZ(Scalar),
    /// Scaling by one factor along each axis.
    Scale(Scale),
    /// Translation by the first three coordinates of a position.
    Translate(Position),
}

impl Placement {
    /// The elementary transforms that carry a local point into world space,
    /// in the order in which they are applied: the rotations about X, Y and
    /// Z, then the scaling, then the translation.
    pub open spec fn pipeline(self) -> Seq<TransformStep> {
        seq![
            TransformStep::RotateX(self.rotation.x),
            TransformStep::RotateY(self.rotation.y),
            TransformStep::RotateZ(self.rotation.z),
            TransformStep::Scale(self.scale),
            TransformStep::Translate(self.position),
        ]
    }

    /// The transforms of [`Placement::pipeline`], first to last.
    pub fn steps(&self) -> (steps: [TransformStep; 5])
        ensures
            steps@ == self.pipeline(),
    {
        let steps = [
            TransformStep::RotateX(self.rotation.x),
            TransformStep::RotateY(self.rotation.y),
            TransformStep::RotateZ(self.rotation.z),
            TransformStep::Scale(self.scale),
            TransformStep::Translate(self.position),
        ];
        assert(steps@ =~= self.pipeline());
        steps
    }
}

/// A colour, as three single-precision bit patterns.
#[derive(Clone, Copy, Debug, PartialEq, Eq)]
pub struct Color {
    pub red: u32,
    pub green: u32,
    pub blue: u32,
}

/// The base colour of every render vertex.
pub open spec fn white() -> Color {
    Color { red: SINGLE_ONE, green: SINGLE_ONE, blue: SINGLE_ONE }
}

/// The colour of the selected object's vertices.
pub open spec fn magenta() -> Color {
    Color { red: SINGLE_ONE, green: SINGLE_ZERO, blue: SINGLE_ONE }
}

/// One record of a vertex buffer: a point in the local space of an object,
/// the placement that carries it into world space, and its colour.
#[derive(Clone, Copy, Debug, PartialEq, Eq)]
pub struct ShaderVertex {
    pub local: Position,
    pub placement: Placement,
    pub color: Color,
}

} // verus!
