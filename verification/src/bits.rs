use vstd::prelude::*;

verus! {

/// A two-component vector of IEEE single-precision values, held as raw bit
/// patterns so that verified code can carry and compare them exactly.
#[derive(Clone, Copy, PartialEq, Eq, Structural, Debug)]
pub struct Vec2Bits {
    pub x: u32,
    pub y: u32,
}

/// A three-component vector of IEEE single-precision values, as bit patterns.
#[derive(Clone, Copy, PartialEq, Eq, Structural, Debug)]
pub struct Vec3Bits {
    pub x: u32,
    pub y: u32,
    pub z: u32,
}

/// A four-component vector of IEEE single-precision values, as bit patterns.
#[derive(Clone, Copy, PartialEq, Eq, Structural, Debug)]
pub struct Vec4Bits {
    pub x: u32,
    pub y: u32,
    pub z: u32,
    pub w: u32,
}

/// A quaternion, component bit patterns in `x, y, z, w` order.
#[derive(Clone, Copy, PartialEq, Eq, Structural, Debug)]
pub struct QuatBits {
    pub x: u32,
    pub y: u32,
    pub z: u32,
    pub w: u32,
}

/// A 4x4 matrix of IEEE single-precision values, sixteen bit patterns in
/// column-major order.
#[derive(Clone, Copy, PartialEq, Eq, Debug)]
pub struct Mat4Bits {
    pub cells: [u32; 16],
}

/// The bit pattern of the single-precision value one.
pub const ONE_BITS: u32 = 0x3F80_0000;

/// Opaque white, the color a primitive receives when its source supplies no
/// vertex-color channel.
pub open spec fn white() -> Vec4Bits {
    Vec4Bits { x: ONE_BITS, y: ONE_BITS, z: ONE_BITS, w: ONE_BITS }
}

/// Builds the opaque-white color value.
pub fn white_color() -> (c: Vec4Bits)
    ensures
        c == white(),
{
    Vec4Bits { x: ONE_BITS, y: ONE_BITS, z: ONE_BITS, w: ONE_BITS }
}

} // verus!
