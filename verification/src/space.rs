//! Points and direction vectors in three dimensions, on the fixed-point grid.

use vstd::prelude::*;
use crate::fixed::{
    fx_add, fx_add_spec, fx_div, fx_div_spec, fx_mul, fx_mul_spec, fx_neg, fx_neg_spec, fx_sqrt,
    fx_sqrt_spec, fx_sub, fx_sub_spec,
};

verus! {

/// A position in space; components are fixed-point scalars.
#[derive(Clone, Copy, Debug, PartialEq, Eq, Structural)]
pub struct Point3 {
    pub x: i64,
    pub y: i64,
    pub z: i64,
}

/// A direction or offset in space; components are fixed-point scalars.
/// Vectors used as directions are unit length at the point of use; producing
/// them normalized is the producer's duty.
#[derive(Clone, Copy, Debug, PartialEq, Eq, Structural)]
pub struct Vector3 {
    pub x: i64,
    pub y: i64,
    pub z: i64,
}

impl Point3 {
    pub fn new(x: i64, y: i64, z: i64) -> (r: Point3)
        ensures
            r == (Point3 { x, y, z }),
    {
        Point3 { x, y, z }
    }

    /// Value of the offset from `o` to `self`.
    pub open spec fn minus_spec(self, o: Point3) -> Vector3 {
        Vector3 {
            x: fx_sub_spec(self.x, o.x),
            y: fx_sub_spec(self.y, o.y),
            z: fx_sub_spec(self.z, o.z),
        }
    }

    /// The offset from `o` to `self`.
    pub fn minus(&self, o: &Point3) -> (r: Vector3)
        ensures
            r == self.minus_spec(*o),
    {
        Vector3 { x: fx_sub(self.x, o.x), y: fx_sub(self.y, o.y), z: fx_sub(self.z, o.z) }
    }

    /// Value of this point moved by the offset `v`.
    pub open spec fn plus_spec(self, v: Vector3) -> Point3 {
        Point3 {
            x: fx_add_spec(self.x, v.x),
            y: fx_add_spec(self.y, v.y),
            z: fx_add_spec(self.z, v.z),
        }
    }

    /// This point moved by the offset `v`.
    pub fn plus(&self, v: &Vector3) -> (r: Point3)
        ensures
            r == self.plus_spec(*v),
    {
        Point3 { x: fx_add(self.x, v.x), y: fx_add(self.y, v.y), z: fx_add(self.z, v.z) }
    }
}

impl Vector3 {
    pub fn new(x: i64, y: i64, z: i64) -> (r: Vector3)
        ensures
            r == (Vector3 { x, y, z }),
    {
        Vector3 { x, y, z }
    }

    /// Value of the dot product, each product and sum on the fixed-point
    /// grid.
    pub open spec fn dot_spec(self, o: Vector3) -> i64 {
        fx_add_spec(
            fx_add_spec(fx_mul_spec(self.x, o.x), fx_mul_spec(self.y, o.y)),
            fx_mul_spec(self.z, o.z),
        )
    }

    /// Dot product.
    pub fn dot(&self, o: &Vector3) -> (r: i64)
        ensures
            r == self.dot_spec(*o),
    {
        fx_add(fx_add(fx_mul(self.x, o.x), fx_mul(self.y, o.y)), fx_mul(self.z, o.z))
    }

    /// Value of this vector scaled by `s`.
    pub open spec fn scaled_spec(self, s: i64) -> Vector3 {
        Vector3 {
            x: fx_mul_spec(self.x, s),
            y: fx_mul_spec(self.y, s),
            z: fx_mul_spec(self.z, s),
        }
    }

    /// This vector scaled by `s`.
    pub fn scaled(&self, s: i64) -> (r: Vector3)
        ensures
            r == self.scaled_spec(s),
    {
        Vector3 { x: fx_mul(self.x, s), y: fx_mul(self.y, s), z: fx_mul(self.z, s) }
    }

    /// Value of the component-wise difference.
    pub open spec fn minus_spec(self, o: Vector3) -> Vector3 {
        Vector3 {
            x: fx_sub_spec(self.x, o.x),
            y: fx_sub_spec(self.y, o.y),
            z: fx_sub_spec(self.z, o.z),
        }
    }

    /// Component-wise difference.
    pub fn minus(&self, o: &Vector3) -> (r: Vector3)
        ensures
            r == self.minus_spec(*o),
    {
        Vector3 { x: fx_sub(self.x, o.x), y: fx_sub(self.y, o.y), z: fx_sub(self.z, o.z) }
    }

    /// Value of the opposite vector.
    pub open spec fn negated_spec(self) -> Vector3 {
        Vector3 { x: fx_neg_spec(self.x), y: fx_neg_spec(self.y), z: fx_neg_spec(self.z) }
    }

    /// The opposite vector.
    pub fn negated(&self) -> (r: Vector3)
        ensures
            r == self.negated_spec(),
    {
        Vector3 { x: fx_neg(self.x), y: fx_neg(self.y), z: fx_neg(self.z) }
    }

    /// Value of the squared length: the dot product of the vector with
    /// itself.
    pub open spec fn magnitude2_spec(self) -> i64 {
        self.dot_spec(self)
    }

    /// Squared length.
    pub fn magnitude2(&self) -> (r: i64)
        ensures
            r == self.magnitude2_spec(),
    {
        self.dot(self)
    }

    /// The squared length is never negative: each squared component is
    /// non-negative and stays so through the clipped sums.
    pub proof fn lemma_magnitude2_nonneg(self)
        ensures
            self.magnitude2_spec() >= 0,
    {
        assert(self.x * self.x >= 0) by (nonlinear_arith);
        assert(self.y * self.y >= 0) by (nonlinear_arith);
        assert(self.z * self.z >= 0) by (nonlinear_arith);
    }

    /// Value of the length: the fixed-point square root of the squared
    /// length.
    pub open spec fn magnitude_spec(self) -> i64 {
        fx_sqrt_spec(self.magnitude2_spec())
    }

    /// Length.
    pub fn magnitude(&self) -> (r: i64)
        ensures
            r == self.magnitude_spec(),
    {
        let m2 = self.magnitude2();
        proof {
            self.lemma_magnitude2_nonneg();
        }
        fx_sqrt(m2)
    }

    /// Value of the unit vector with this vector's direction: each component
    /// divided by the length. A vector short enough to have length zero on
    /// the grid maps each non-zero component to a saturated quotient.
    pub open spec fn normalized_spec(self) -> Vector3 {
        let m = self.magnitude_spec();
        Vector3 {
            x: fx_div_spec(self.x, m),
            y: fx_div_spec(self.y, m),
            z: fx_div_spec(self.z, m),
        }
    }

    /// The unit vector with this vector's direction.
    pub fn normalized(&self) -> (r: Vector3)
        ensures
            r == self.normalized_spec(),
    {
        let m = self.magnitude();
        Vector3 { x: fx_div(self.x, m), y: fx_div(self.y, m), z: fx_div(self.z, m) }
    }
}

} // verus!
