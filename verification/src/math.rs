//! Plain value types for the quantities that components store.
//!
//! The runtime only keeps and hands back these values; it never computes with
//! them. A number is therefore carried as the bit pattern of its IEEE 754
//! single-precision encoding, which the host converts at the boundary.
use vstd::prelude::*;

verus! {

/// Bit pattern of the number zero.
pub const ZERO_BITS: u32 = 0;

/// Bit pattern of the number one.
pub const ONE_BITS: u32 = 0x3F80_0000;

/// A single-precision number, held as its bit pattern.
#[derive(Clone, Copy, Debug, PartialEq, Eq)]
pub struct Scalar {
    pub bits: u32,
}

/// An angle together with the unit it was given in.
#[derive(Clone, Copy, Debug, PartialEq, Eq)]
pub enum Angle {
    Degrees(Scalar),
    Radians(Scalar),
}

/// A vector of three numbers.
#[derive(Clone, Copy, Debug, PartialEq, Eq)]
pub struct Vec3 {
    pub x: Scalar,
    pub y: Scalar,
    pub z: Scalar,
}

/// A rotation as a quaternion.
#[derive(Clone, Copy, Debug, PartialEq, Eq)]
pub struct Quat {
    pub x: Scalar,
    pub y: Scalar,
    pub z: Scalar,
    pub w: Scalar,
}

/// A four by four matrix, row by row.
#[derive(Clone, Copy, Debug, PartialEq, Eq)]
pub struct Matrix4x4 {
    pub rows: [[Scalar; 4]; 4],
}

impl Scalar {
    pub open spec fn spec_zero() -> Scalar {
        Scalar { bits: ZERO_BITS }
    }

    pub open spec fn spec_one() -> Scalar {
        Scalar { bits: ONE_BITS }
    }

    /// The number zero.
    #[verifier::when_used_as_spec(spec_zero)]
    pub fn zero() -> (s: Scalar)
        ensures
            s == Scalar::spec_zero(),
    {
        Scalar { bits: ZERO_BITS }
    }

    /// The number one.
    #[verifier::when_used_as_spec(spec_one)]
    pub fn one() -> (s: Scalar)
        ensures
            s == Scalar::spec_one(),
    {
        Scalar { bits: ONE_BITS }
    }
}

impl Vec3 {
    pub open spec fn spec_zero() -> Vec3 {
        Vec3 { x: Scalar::spec_zero(), y: Scalar::spec_zero(), z: Scalar::spec_zero() }
    }

    pub open spec fn spec_one() -> Vec3 {
        Vec3 { x: Scalar::spec_one(), y: Scalar::spec_one(), z: Scalar::spec_one() }
    }

    /// The vector whose three parts are zero.
    #[verifier::when_used_as_spec(spec_zero)]
    pub fn zero() -> (v: Vec3)
        ensures
            v == Vec3::spec_zero(),
    {
        Vec3 { x: Scalar::zero(), y: Scalar::zero(), z: Scalar::zero() }
    }

    /// The vector whose three parts are one.
    #[verifier::when_used_as_spec(spec_one)]
    pub fn one() -> (v: Vec3)
        ensures
            v == Vec3::spec_one(),
    {
        Vec3 { x: Scalar::one(), y: Scalar::one(), z: Scalar::one() }
    }
}

impl Quat {
    pub open spec fn spec_identity() -> Quat {
        Quat {
            x: Scalar::spec_zero(),
            y: Scalar::spec_zero(),
            z: Scalar::spec_zero(),
            w: Scalar::spec_one(),
        }
    }

    /// The rotation that turns nothing.
    #[verifier::when_used_as_spec(spec_identity)]
    pub fn identity() -> (q: Quat)
        ensures
            q == Quat::spec_identity(),
    {
        Quat { x: Scalar::zero(), y: Scalar::zero(), z: Scalar::zero(), w: Scalar::one() }
    }
}

impl Matrix4x4 {
    pub open spec fn spec_zero() -> Matrix4x4 {
        let z = Scalar::spec_zero();
        Matrix4x4 { rows: [[z, z, z, z], [z, z, z, z], [z, z, z, z], [z, z, z, z]] }
    }

    /// The matrix whose sixteen cells are zero.
    #[verifier::when_used_as_spec(spec_zero)]
    pub fn zero() -> (m: Matrix4x4)
        ensures
            m == Matrix4x4::spec_zero(),
    {
        let z = Scalar::zero();
        Matrix4x4 { rows: [[z, z, z, z], [z, z, z, z], [z, z, z, z], [z, z, z, z]] }
    }
}

} // verus!
