//! Plain-value carriers for matrix and colour data, and a small helper for
//! fixed-capacity uploads.
//!
//! Every scalar here is the raw bit pattern of a 32-bit floating-point
//! value.  The pass never computes with these numbers — it only decides
//! which of them are bound for each draw call — so they are kept opaque.

use vstd::prelude::*;

verus! {

/// Bit pattern of the 32-bit floating-point value one.
pub const FLOAT_ONE_BITS: u32 = 0x3F80_0000;

/// A 4x4 matrix, row-major, entries as raw 32-bit patterns.
#[derive(Clone, Copy, Debug, PartialEq, Eq, Structural)]
pub struct Mat4 {
    pub m00: u32,
    pub m01: u32,
    pub m02: u32,
    pub m03: u32,
    pub m10: u32,
    pub m11: u32,
    pub m12: u32,
    pub m13: u32,
    pub m20: u32,
    pub m21: u32,
    pub m22: u32,
    pub m23: u32,
    pub m30: u32,
    pub m31: u32,
    pub m32: u32,
    pub m33: u32,
}

impl Mat4 {
    /// The identity matrix: ones on the diagonal, zeroes elsewhere.
    pub open spec fn identity_spec() -> Mat4 {
        Mat4 {
            m00: FLOAT_ONE_BITS,
            m01: 0,
            m02: 0,
            m03: 0,
            m10: 0,
            m11: FLOAT_ONE_BITS,
            m12: 0,
            m13: 0,
            m20: 0,
            m21: 0,
            m22: FLOAT_ONE_BITS,
            m23: 0,
            m30: 0,
            m31: 0,
            m32: 0,
            m33: FLOAT_ONE_BITS,
        }
    }

    /// The identity matrix, used wherever a transform or camera is absent.
    pub fn identity() -> (r: Mat4)
        ensures
            r == Mat4::identity_spec(),
    {
        Mat4 {
            m00: FLOAT_ONE_BITS,
            m01: 0,
            m02: 0,
            m03: 0,
            m10: 0,
            m11: FLOAT_ONE_BITS,
            m12: 0,
            m13: 0,
            m20: 0,
            m21: 0,
            m22: FLOAT_ONE_BITS,
            m23: 0,
            m30: 0,
            m31: 0,
            m32: 0,
            m33: FLOAT_ONE_BITS,
        }
    }
}

/// An RGBA colour, components as raw 32-bit patterns.
#[derive(Clone, Copy, Debug, PartialEq, Eq, Structural)]
pub struct Rgba {
    pub red: u32,
    pub green: u32,
    pub blue: u32,
    pub alpha: u32,
}

/// A three-component vector (a position or a direction), components as raw
/// 32-bit patterns.
#[derive(Clone, Copy, Debug, PartialEq, Eq, Structural)]
pub struct Vec3 {
    pub x: u32,
    pub y: u32,
    pub z: u32,
}

/// `s` cut down to at most `max` elements, keeping the front.
///
/// Uniform buffers have fixed capacities; what exceeds one is dropped,
/// front-first in iteration order.
pub open spec fn capped<T>(s: Seq<T>, max: int) -> Seq<T> {
    if s.len() <= max {
        s
    } else {
        s.take(max)
    }
}

/// Appending to a sequence and then capping it either appends to the capped
/// sequence (when there was room) or leaves it unchanged (when it was full).
pub proof fn lemma_capped_push<T>(s: Seq<T>, x: T, max: int)
    requires
        0 <= max,
    ensures
        capped(s.push(x), max) == if s.len() < max {
            capped(s, max).push(x)
        } else {
            capped(s, max)
        },
{
    if s.len() < max {
        assert(capped(s.push(x), max) =~= capped(s, max).push(x));
    } else {
        assert(s.push(x).take(max) =~= capped(s, max));
    }
}

} // verus!
