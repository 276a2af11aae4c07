//! Three-component vectors over fixed-point scalars.

use vstd::prelude::*;
use crate::scalar::Scalar;

verus! {

/// A vector, a point or a colour: three scalars.
#[derive(Clone, Copy, Debug, PartialEq, Eq, Structural)]
pub struct Vector3 {
    pub x: Scalar,
    pub y: Scalar,
    pub z: Scalar,
}

/// A position in space.
pub type Point3 = Vector3;

/// A colour: red, green and blue in `x`, `y` and `z`.
pub type ColorRGB = Vector3;

impl Vector3 {
    /// Componentwise sum, saturating.
    pub open spec fn spec_plus(self, other: Vector3) -> Vector3 {
        Vector3 {
            x: self.x.spec_plus(other.x),
            y: self.y.spec_plus(other.y),
            z: self.z.spec_plus(other.z),
        }
    }

    /// Componentwise difference, saturating.
    pub open spec fn spec_minus(self, other: Vector3) -> Vector3 {
        Vector3 {
            x: self.x.spec_minus(other.x),
            y: self.y.spec_minus(other.y),
            z: self.z.spec_minus(other.z),
        }
    }

    /// The opposite vector, saturating.
    pub open spec fn spec_negated(self) -> Vector3 {
        Vector3 { x: self.x.spec_negated(), y: self.y.spec_negated(), z: self.z.spec_negated() }
    }

    /// Every component multiplied by `factor`.
    pub open spec fn spec_scaled(self, factor: Scalar) -> Vector3 {
        Vector3 {
            x: self.x.spec_times(factor),
            y: self.y.spec_times(factor),
            z: self.z.spec_times(factor),
        }
    }

    /// Every component divided by `divisor`.
    pub open spec fn spec_divided_by(self, divisor: Scalar) -> Vector3 {
        Vector3 {
            x: self.x.spec_divided_by(divisor),
            y: self.y.spec_divided_by(divisor),
            z: self.z.spec_divided_by(divisor),
        }
    }

    /// Inner product: the three componentwise products, each rounded down,
    /// added from left to right with saturation.
    pub open spec fn spec_dot(self, other: Vector3) -> Scalar {
        self.x.spec_times(other.x).spec_plus(self.y.spec_times(other.y)).spec_plus(
            self.z.spec_times(other.z),
        )
    }

    /// Componentwise minimum.
    pub open spec fn spec_min(self, other: Vector3) -> Vector3 {
        Vector3 {
            x: self.x.spec_min(other.x),
            y: self.y.spec_min(other.y),
            z: self.z.spec_min(other.z),
        }
    }

    /// Componentwise maximum.
    pub open spec fn spec_max(self, other: Vector3) -> Vector3 {
        Vector3 {
            x: self.x.spec_max(other.x),
            y: self.y.spec_max(other.y),
            z: self.z.spec_max(other.z),
        }
    }

    /// Whether every component of `self` is at most that of `other`.
    pub open spec fn le(self, other: Vector3) -> bool {
        self.x.raw <= other.x.raw && self.y.raw <= other.y.raw && self.z.raw <= other.z.raw
    }

    /// The vector of the three components.
    pub fn new(x: Scalar, y: Scalar, z: Scalar) -> (v: Vector3)
        ensures
            v == (Vector3 { x, y, z }),
    {
        Vector3 { x, y, z }
    }

    /// The componentwise sum, saturating.
    pub fn plus(self, other: Vector3) -> (v: Vector3)
        ensures
            v == self.spec_plus(other),
    {
        Vector3 { x: self.x.plus(other.x), y: self.y.plus(other.y), z: self.z.plus(other.z) }
    }

    /// The componentwise difference, saturating.
    pub fn minus(self, other: Vector3) -> (v: Vector3)
        ensures
            v == self.spec_minus(other),
    {
        Vector3 { x: self.x.minus(other.x), y: self.y.minus(other.y), z: self.z.minus(other.z) }
    }

    /// The opposite vector, saturating.
    pub fn negated(self) -> (v: Vector3)
        ensures
            v == self.spec_negated(),
    {
        Vector3 { x: self.x.negated(), y: self.y.negated(), z: self.z.negated() }
    }

    /// Every component multiplied by `factor`.
    pub fn scaled(self, factor: Scalar) -> (v: Vector3)
        ensures
            v == self.spec_scaled(factor),
    {
        Vector3 { x: self.x.times(factor), y: self.y.times(factor), z: self.z.times(factor) }
    }

    /// Every component divided by `divisor`.
    pub fn divided_by(self, divisor: Scalar) -> (v: Vector3)
        ensures
            v == self.spec_divided_by(divisor),
    {
        Vector3 {
            x: self.x.divided_by(divisor),
            y: self.y.divided_by(divisor),
            z: self.z.divided_by(divisor),
        }
    }

    /// The inner product.
    pub fn dot(self, other: Vector3) -> (d: Scalar)
        ensures
            d == self.spec_dot(other),
    {
        self.x.times(other.x).plus(self.y.times(other.y)).plus(self.z.times(other.z))
    }

    /// The componentwise minimum.
    pub fn min(self, other: Vector3) -> (v: Vector3)
        ensures
            v == self.spec_min(other),
    {
        Vector3 { x: self.x.min(other.x), y: self.y.min(other.y), z: self.z.min(other.z) }
    }

    /// The componentwise maximum.
    pub fn max(self, other: Vector3) -> (v: Vector3)
        ensures
            v == self.spec_max(other),
    {
        Vector3 { x: self.x.max(other.x), y: self.y.max(other.y), z: self.z.max(other.z) }
    }
}

} // verus!
