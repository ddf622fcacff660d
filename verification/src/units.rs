//! Fixed-point quantities.
//!
//! Every scalar of the scene (a coordinate, a rate, a duration, a sample) is
//! held as a whole number of millionths of its unit, so that the arithmetic of
//! the bootstrap logic is exact and can be stated over the integers.

use vstd::prelude::*;

verus! {

/// How many millionths make one unit.
pub const MICRO_PER_UNIT: i64 = 1_000_000;

/// A scalar held in millionths of its unit: `micro == 1_500_000` stands for 1.5.
#[derive(Clone, Copy, Debug, PartialEq, Eq, Hash, Structural)]
pub struct Scalar {
    pub micro: i64,
}

impl Scalar {
    /// The scalar that stands for `micro` millionths.
    pub fn from_micro(micro: i64) -> (s: Scalar)
        ensures
            s.micro == micro,
    {
        Scalar { micro }
    }

    /// The scalar that stands for the whole number `units`.
    pub fn from_units(units: i32) -> (s: Scalar)
        ensures
            s.micro == units * MICRO_PER_UNIT,
    {
        let wide: i64 = units as i64;
        Scalar { micro: wide * MICRO_PER_UNIT }
    }

    /// The scalar zero.
    pub fn zero() -> (s: Scalar)
        ensures
            s.micro == 0,
    {
        Scalar { micro: 0 }
    }
}

/// A point or direction in space, each coordinate a [`Scalar`].
#[derive(Clone, Copy, Debug, PartialEq, Eq, Hash, Structural)]
pub struct Vector {
    pub x: Scalar,
    pub y: Scalar,
    pub z: Scalar,
}

impl Vector {
    /// The vector with the given coordinates in millionths.
    pub open spec fn of_micro(x: int, y: int, z: int) -> Vector
        recommends
            i64::MIN <= x <= i64::MAX,
            i64::MIN <= y <= i64::MAX,
            i64::MIN <= z <= i64::MAX,
    {
        Vector {
            x: Scalar { micro: x as i64 },
            y: Scalar { micro: y as i64 },
            z: Scalar { micro: z as i64 },
        }
    }

    /// The vector with the given coordinates in millionths.
    pub fn from_micro(x: i64, y: i64, z: i64) -> (v: Vector)
        ensures
            v == Vector::of_micro(x as int, y as int, z as int),
    {
        Vector { x: Scalar { micro: x }, y: Scalar { micro: y }, z: Scalar { micro: z } }
    }

    /// The origin.
    pub fn zero() -> (v: Vector)
        ensures
            v == Vector::of_micro(0, 0, 0),
    {
        Vector::from_micro(0, 0, 0)
    }
}

/// A displacement of a body over one frame.
///
/// A displacement is the product of a rate and a duration, both held in
/// millionths, so each coordinate is held in millionths of a millionth of a
/// unit: `y == -100_000_000_000_000` stands for a fall of 100 units.
#[derive(Clone, Copy, Debug, PartialEq, Eq, Hash, Structural)]
pub struct Displacement {
    pub x: i128,
    pub y: i128,
    pub z: i128,
}

} // verus!
