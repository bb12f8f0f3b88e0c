use vstd::prelude::*;

use crate::numeric::dot2_req;
use crate::numeric::dot2_spec;
use crate::numeric::isqrt;
use crate::numeric::sqrt_floor;
use crate::numeric::Fractional;
use crate::numeric::Numeric;

verus! {

/// A 2-component vector over a `Numeric` scalar: a point or displacement in
/// the plane. Any pair of components is a valid vector; there is no
/// invariant beyond type-correctness.
#[derive(Debug, PartialEq, Eq)]
pub struct Vector<T: Numeric> {
    pub x: T,
    pub y: T,
}

impl<T: Numeric> Clone for Vector<T> {
    fn clone(&self) -> (r: Self)
        ensures
            r == *self,
    {
        Vector { x: self.x, y: self.y }
    }
}

impl<T: Numeric> Default for Vector<T> {
    /// The zero vector: both components at the scalar's zero.
    fn default() -> (r: Self)
        ensures
            r.x == T::zero_spec(),
            r.y == T::zero_spec(),
    {
        Vector { x: T::zero(), y: T::zero() }
    }
}

impl<T: Numeric> Vector<T> {
    pub fn new(x: T, y: T) -> (r: Self)
        ensures
            r.x == x,
            r.y == y,
    {
        Vector { x, y }
    }

    /// Broadcasts one scalar into both components.
    pub fn scalar(scalar: T) -> (r: Self)
        ensures
            r.x == scalar,
            r.y == scalar,
    {
        Vector { x: scalar, y: scalar }
    }

    /// When the dot product of `self` and `rhs` may be computed.
    pub open spec fn dot_req(self, rhs: Self) -> bool {
        dot2_req(self.x, self.y, rhs.x, rhs.y)
    }

    /// The dot product `x1*x2 + y1*y2` over the scalar's own operations.
    pub open spec fn dot_spec(self, rhs: Self) -> T {
        dot2_spec(self.x, self.y, rhs.x, rhs.y)
    }

    /// The inner product of two vectors; this is also what the
    /// multiplication of two vectors means in this library, a scalar rather
    /// than a vector.
    pub fn dot(&self, rhs: &Self) -> (r: T)
        requires
            self.dot_req(*rhs),
        ensures
            r == self.dot_spec(*rhs),
    {
        self.x.mul(rhs.x).add(self.y.mul(rhs.y))
    }

    pub open spec fn magnitude_squared_spec(self) -> T {
        self.dot_spec(self)
    }

    /// The squared length of the vector: its dot product with itself.
    pub fn magnitude_squared(&self) -> (r: T)
        requires
            self.dot_req(*self),
        ensures
            r == self.magnitude_squared_spec(),
    {
        self.dot(self)
    }

    pub open spec fn add_vec_req(self, rhs: Self) -> bool {
        self.x.add_req(rhs.x) && self.y.add_req(rhs.y)
    }

    pub open spec fn add_vec_spec(self, rhs: Self) -> Self {
        Vector { x: self.x.add_spec(rhs.x), y: self.y.add_spec(rhs.y) }
    }

    /// Componentwise vector addition.
    pub fn add(&self, rhs: &Self) -> (r: Self)
        requires
            self.add_vec_req(*rhs),
        ensures
            r == self.add_vec_spec(*rhs),
    {
        Vector { x: self.x.add(rhs.x), y: self.y.add(rhs.y) }
    }

    pub open spec fn sub_vec_req(self, rhs: Self) -> bool {
        self.x.sub_req(rhs.x) && self.y.sub_req(rhs.y)
    }

    pub open spec fn sub_vec_spec(self, rhs: Self) -> Self {
        Vector { x: self.x.sub_spec(rhs.x), y: self.y.sub_spec(rhs.y) }
    }

    /// Componentwise vector subtraction.
    pub fn sub(&self, rhs: &Self) -> (r: Self)
        requires
            self.sub_vec_req(*rhs),
        ensures
            r == self.sub_vec_spec(*rhs),
    {
        Vector { x: self.x.sub(rhs.x), y: self.y.sub(rhs.y) }
    }

    pub open spec fn scale_req(self, scalar: T) -> bool {
        self.x.mul_req(scalar) && self.y.mul_req(scalar)
    }

    pub open spec fn scale_spec(self, scalar: T) -> Self {
        Vector { x: self.x.mul_spec(scalar), y: self.y.mul_spec(scalar) }
    }

    /// Broadcasts the scalar across both components by multiplication.
    pub fn scale(&self, scalar: T) -> (r: Self)
        requires
            self.scale_req(scalar),
        ensures
            r == self.scale_spec(scalar),
    {
        Vector { x: self.x.mul(scalar), y: self.y.mul(scalar) }
    }

    pub open spec fn div_scalar_req(self, scalar: T) -> bool {
        self.x.div_req(scalar) && self.y.div_req(scalar)
    }

    pub open spec fn div_scalar_spec(self, scalar: T) -> Self {
        Vector { x: self.x.div_spec(scalar), y: self.y.div_spec(scalar) }
    }

    /// Broadcasts the scalar across both components by division, in the
    /// scalar's own division semantics.
    pub fn div_scalar(&self, scalar: T) -> (r: Self)
        requires
            self.div_scalar_req(scalar),
        ensures
            r == self.div_scalar_spec(scalar),
    {
        Vector { x: self.x.div(scalar), y: self.y.div(scalar) }
    }

    /// In-place vector addition.
    pub fn add_assign(&mut self, rhs: &Self)
        requires
            old(self).add_vec_req(*rhs),
        ensures
            *final(self) == old(self).add_vec_spec(*rhs),
    {
        self.x = self.x.add(rhs.x);
        self.y = self.y.add(rhs.y);
    }

    /// In-place vector subtraction.
    pub fn sub_assign(&mut self, rhs: &Self)
        requires
            old(self).sub_vec_req(*rhs),
        ensures
            *final(self) == old(self).sub_vec_spec(*rhs),
    {
        self.x = self.x.sub(rhs.x);
        self.y = self.y.sub(rhs.y);
    }

    /// In-place scalar multiplication.
    pub fn scale_assign(&mut self, scalar: T)
        requires
            old(self).scale_req(scalar),
        ensures
            *final(self) == old(self).scale_spec(scalar),
    {
        self.x = self.x.mul(scalar);
        self.y = self.y.mul(scalar);
    }

    /// In-place scalar division.
    pub fn div_assign(&mut self, scalar: T)
        requires
            old(self).div_scalar_req(scalar),
        ensures
            *final(self) == old(self).div_scalar_spec(scalar),
    {
        self.x = self.x.div(scalar);
        self.y = self.y.div(scalar);
    }
}

impl<T: Fractional> Vector<T> {
    /// The unit vector along the first axis.
    pub fn x_axis() -> (r: Self)
        ensures
            r.x == T::one_spec(),
            r.y == T::zero_spec(),
    {
        Vector { x: T::one(), y: T::zero() }
    }

    /// The unit vector along the second axis.
    pub fn y_axis() -> (r: Self)
        ensures
            r.x == T::zero_spec(),
            r.y == T::one_spec(),
    {
        Vector { x: T::zero(), y: T::one() }
    }
}

impl Vector<i64> {
    /// The integer length of the vector: the integer square root of the
    /// squared magnitude.
    pub open spec fn magnitude_spec(self) -> i64 {
        sqrt_floor(self.magnitude_squared_spec() as int) as i64
    }

    /// Divides each component by the vector's integer magnitude, in the
    /// scalar's truncating division. The zero vector has magnitude zero and
    /// is excluded, as division by zero is.
    pub fn normalize(&self) -> (r: Self)
        requires
            self.dot_req(*self),
            !(self.x == 0 && self.y == 0),
        ensures
            r.x == self.x.div_spec(self.magnitude_spec()),
            r.y == self.y.div_spec(self.magnitude_spec()),
    {
        let ms: i64 = self.magnitude_squared();
        proof {
            assert(self.x * self.x >= 0 && self.y * self.y >= 0) by (nonlinear_arith);
            assert(self.x != 0 ==> self.x * self.x >= 1) by (nonlinear_arith);
            assert(self.y != 0 ==> self.y * self.y >= 1) by (nonlinear_arith);
            assert(ms >= 1);
            crate::numeric::lemma_sqrt_floor_bounds(ms as int);
            assert(sqrt_floor(ms as int) >= 1) by {
                if sqrt_floor(ms as int) < 1 {
                    assert((sqrt_floor(ms as int) + 1) * (sqrt_floor(ms as int) + 1) <= 1)
                        by (nonlinear_arith)
                        requires
                            0 <= sqrt_floor(ms as int) < 1,
                    ;
                }
            }
        }
        let mag: i64 = isqrt(ms);
        Vector { x: self.x / mag, y: self.y / mag }
    }
}

} // verus!
