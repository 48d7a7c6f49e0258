use vstd::prelude::*;

verus! {

/// Bit pattern of the single-precision value one.
pub const ONE_BITS: u32 = 0x3f80_0000;

/// A 3D vector whose coordinates are single-precision bit patterns.
#[derive(Clone, Copy, Debug, PartialEq, Eq, Structural)]
pub struct Vector3 {
    pub x: u32,
    pub y: u32,
    pub z: u32,
}

/// A rotation quaternion whose coordinates (vector part `i`, `j`, `k`, scalar
/// part `w`) are single-precision bit patterns.
#[derive(Clone, Copy, Debug, PartialEq, Eq, Structural)]
pub struct UnitQuaternion {
    pub i: u32,
    pub j: u32,
    pub k: u32,
    pub w: u32,
}

/// A 3x3 matrix of single-precision bit patterns, stored column by column.
#[derive(Clone, Copy, Debug)]
pub struct Matrix3 {
    pub m: [u32; 9],
}

/// A 4x4 matrix of single-precision bit patterns, stored column by column.
#[derive(Clone, Copy, Debug)]
pub struct Matrix4 {
    pub m: [u32; 16],
}

impl Vector3 {
    pub open spec fn spec_new(x: u32, y: u32, z: u32) -> Vector3 {
        Vector3 { x, y, z }
    }

    /// The zero vector.
    pub fn zeros() -> (r: Vector3)
        ensures
            r == Vector3::spec_new(0, 0, 0),
    {
        Vector3 { x: 0, y: 0, z: 0 }
    }

    /// The vector with every coordinate one: the neutral scale.
    pub fn ones() -> (r: Vector3)
        ensures
            r == Vector3::spec_new(ONE_BITS, ONE_BITS, ONE_BITS),
    {
        Vector3 { x: ONE_BITS, y: ONE_BITS, z: ONE_BITS }
    }
}

impl UnitQuaternion {
    pub open spec fn spec_identity() -> UnitQuaternion {
        UnitQuaternion { i: 0, j: 0, k: 0, w: ONE_BITS }
    }

    /// The rotation by zero radians.
    pub fn identity() -> (r: UnitQuaternion)
        ensures
            r == UnitQuaternion::spec_identity(),
    {
        UnitQuaternion { i: 0, j: 0, k: 0, w: ONE_BITS }
    }
}

impl Matrix3 {
    pub open spec fn spec_identity() -> Matrix3 {
        Matrix3 { m: [ONE_BITS, 0, 0, 0, ONE_BITS, 0, 0, 0, ONE_BITS] }
    }

    /// The 3x3 identity matrix.
    pub fn identity() -> (r: Matrix3)
        ensures
            r == Matrix3::spec_identity(),
    {
        Matrix3 { m: [ONE_BITS, 0, 0, 0, ONE_BITS, 0, 0, 0, ONE_BITS] }
    }
}

impl Matrix4 {
    pub open spec fn spec_identity() -> Matrix4 {
        Matrix4 {
            m: [
                ONE_BITS, 0, 0, 0,
                0, ONE_BITS, 0, 0,
                0, 0, ONE_BITS, 0,
                0, 0, 0, ONE_BITS,
            ],
        }
    }

    /// The 4x4 identity matrix.
    pub fn identity() -> (r: Matrix4)
        ensures
            r == Matrix4::spec_identity(),
    {
        Matrix4 {
            m: [
                ONE_BITS, 0, 0, 0,
                0, ONE_BITS, 0, 0,
                0, 0, ONE_BITS, 0,
                0, 0, 0, ONE_BITS,
            ],
        }
    }
}

/// What stands in for the inverse of the post-rotation matrix: the inverse
/// where one was found, the identity otherwise.
pub open spec fn inverse_or_identity(inverse: Option<Matrix3>) -> Matrix3 {
    match inverse {
        Some(m) => m,
        None => Matrix3::spec_identity(),
    }
}

/// Executable form of `inverse_or_identity`.
pub fn unwrap_inverse(inverse: Option<Matrix3>) -> (r: Matrix3)
    ensures
        r == inverse_or_identity(inverse),
{
    match inverse {
        Some(m) => m,
        None => Matrix3::identity(),
    }
}

/// Whether the bit pattern is a NaN: all exponent bits set, non-zero fraction.
pub open spec fn is_nan_bits(a: u32) -> bool {
    (a & 0x7f80_0000) == 0x7f80_0000 && (a & 0x007f_ffff) != 0
}

/// Whether the bit pattern is a zero of either sign.
pub open spec fn is_zero_bits(a: u32) -> bool {
    (a & 0x7fff_ffff) == 0
}

/// IEEE-754 equality of two single-precision values given by their bits: the
/// two zeros are equal, a NaN equals nothing, and otherwise equal values have
/// equal bits.
pub open spec fn float_eq(a: u32, b: u32) -> bool {
    (is_zero_bits(a) && is_zero_bits(b)) || (a == b && !is_nan_bits(a))
}

/// Executable form of `float_eq`.
pub fn float_equal(a: u32, b: u32) -> (r: bool)
    ensures
        r == float_eq(a, b),
{
    ((a & 0x7fff_ffff) == 0 && (b & 0x7fff_ffff) == 0)
        || (a == b && !((a & 0x7f80_0000) == 0x7f80_0000 && (a & 0x007f_ffff) != 0))
}

impl Vector3 {
    /// Coordinate-wise IEEE-754 equality.
    pub open spec fn same(self, o: Vector3) -> bool {
        float_eq(self.x, o.x) && float_eq(self.y, o.y) && float_eq(self.z, o.z)
    }

    pub open spec fn has_nan(self) -> bool {
        is_nan_bits(self.x) || is_nan_bits(self.y) || is_nan_bits(self.z)
    }

    /// Whether the two vectors are equal as single-precision values.
    pub fn equals(&self, o: &Vector3) -> (r: bool)
        ensures
            r == self.same(*o),
    {
        float_equal(self.x, o.x) && float_equal(self.y, o.y) && float_equal(self.z, o.z)
    }
}

impl UnitQuaternion {
    /// Coordinate-wise IEEE-754 equality.
    pub open spec fn same(self, o: UnitQuaternion) -> bool {
        float_eq(self.i, o.i) && float_eq(self.j, o.j) && float_eq(self.k, o.k) && float_eq(self.w, o.w)
    }

    pub open spec fn has_nan(self) -> bool {
        is_nan_bits(self.i) || is_nan_bits(self.j) || is_nan_bits(self.k) || is_nan_bits(self.w)
    }

    /// Whether the two quaternions are equal as single-precision values.
    pub fn equals(&self, o: &UnitQuaternion) -> (r: bool)
        ensures
            r == self.same(*o),
    {
        float_equal(self.i, o.i) && float_equal(self.j, o.j) && float_equal(self.k, o.k)
            && float_equal(self.w, o.w)
    }
}

} // verus!
