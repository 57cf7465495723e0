//! Decomposed node transforms.
//!
//! Every real component is carried as the bit pattern of an IEEE-754
//! single-precision number, so that the library can store, copy and compare
//! transforms exactly. The only question asked of the numbers is whether a
//! scale is degenerate.

use vstd::prelude::*;
use crate::single::{lemma_ones_do_not_vanish, product_is_zero, product_vanishes};

verus! {

/// Bit pattern of the single-precision number `1.0`.
pub const ONE_BITS: u32 = 0x3f80_0000;

/// Bit pattern of the single-precision number `-0.0`; also the sign mask.
pub const SIGN_BIT: u32 = 0x8000_0000;

/// Whether a bit pattern denotes positive or negative zero.
pub open spec fn is_zero_bits(bits: u32) -> bool {
    bits == 0 || bits == SIGN_BIT
}

/// Whether a bit pattern denotes positive or negative zero.
pub fn bits_are_zero(bits: u32) -> (zero: bool)
    ensures
        zero == is_zero_bits(bits),
{
    bits == 0 || bits == SIGN_BIT
}

/// Three single-precision components, as bit patterns.
#[derive(Clone, Copy, Debug, PartialEq, Eq, Structural)]
pub struct Vector3 {
    pub x: u32,
    pub y: u32,
    pub z: u32,
}

/// Four single-precision components, as bit patterns.
#[derive(Clone, Copy, Debug, PartialEq, Eq, Structural)]
pub struct Vector4 {
    pub x: u32,
    pub y: u32,
    pub z: u32,
    pub w: u32,
}

/// A rotation quaternion with vector part `(x, y, z)` and scalar part `w`,
/// as bit patterns.
#[derive(Clone, Copy, Debug, PartialEq, Eq, Structural)]
pub struct Quaternion {
    pub x: u32,
    pub y: u32,
    pub z: u32,
    pub w: u32,
}

/// Local transform of a node in decomposed form: the rendered matrix is
/// translation, then rotation, then non-uniform scale, applied right to left.
#[derive(Clone, Copy, Debug, PartialEq, Eq, Structural)]
pub struct NodeTransform {
    pub position: Vector3,
    pub rotation: Quaternion,
    pub scale: Vector3,
}

impl NodeTransform {
    /// Whether one axis of the scale is exactly zero.
    pub open spec fn has_zero_axis(self) -> bool {
        is_zero_bits(self.scale.x) || is_zero_bits(self.scale.y) || is_zero_bits(self.scale.z)
    }

    /// A scale is degenerate when one of its axes is exactly zero, or when
    /// the product of the three, as single-precision numbers, is zero: the
    /// transform then has no inverse.
    pub open spec fn degenerate(self) -> bool {
        self.has_zero_axis() || product_vanishes(self.scale.x, self.scale.y, self.scale.z)
    }

    /// The transform that moves, turns and scales nothing.
    pub open spec fn spec_identity() -> NodeTransform {
        NodeTransform {
            position: Vector3 { x: 0, y: 0, z: 0 },
            rotation: Quaternion { x: 0, y: 0, z: 0, w: ONE_BITS },
            scale: Vector3 { x: ONE_BITS, y: ONE_BITS, z: ONE_BITS },
        }
    }

    /// The transform that moves, turns and scales nothing.
    pub fn identity() -> (t: NodeTransform)
        ensures
            t == Self::spec_identity(),
            !t.degenerate(),
    {
        proof {
            lemma_ones_do_not_vanish();
        }
        NodeTransform {
            position: Vector3 { x: 0, y: 0, z: 0 },
            rotation: Quaternion { x: 0, y: 0, z: 0, w: ONE_BITS },
            scale: Vector3 { x: ONE_BITS, y: ONE_BITS, z: ONE_BITS },
        }
    }

    /// Tells whether the scale is degenerate.
    pub fn is_degenerate(&self) -> (d: bool)
        ensures
            d == self.degenerate(),
    {
        bits_are_zero(self.scale.x) || bits_are_zero(self.scale.y) || bits_are_zero(self.scale.z)
            || product_is_zero(self.scale.x, self.scale.y, self.scale.z)
    }
}

} // verus!
