use vstd::prelude::*;

use crate::numeric::dot2_req;
use crate::numeric::dot2_spec;
use crate::numeric::Fractional;
use crate::numeric::Numeric;
use crate::vector::Vector;

verus! {

/// A 2x2 matrix over a `Numeric` scalar, laid out as
///
/// ```text
/// | m11  m12 |
/// | m21  m22 |
/// ```
///
/// A matrix may be singular (determinant zero); that is a valid value,
/// rejected only at the point of inversion.
#[derive(PartialEq, Eq)]
pub struct Matrix<T: Numeric> {
    pub m11: T,
    pub m12: T,
    pub m21: T,
    pub m22: T,
}

impl<T: Numeric> Clone for Matrix<T> {
    fn clone(&self) -> (r: Self)
        ensures
            r == *self,
    {
        Matrix { m11: self.m11, m12: self.m12, m21: self.m21, m22: self.m22 }
    }
}

impl<T: Numeric> Default for Matrix<T> {
    /// The zero matrix: all four cells at the scalar's zero.
    fn default() -> (r: Self)
        ensures
            r.m11 == T::zero_spec(),
            r.m12 == T::zero_spec(),
            r.m21 == T::zero_spec(),
            r.m22 == T::zero_spec(),
    {
        Matrix { m11: T::zero(), m12: T::zero(), m21: T::zero(), m22: T::zero() }
    }
}

impl<T: Numeric> Matrix<T> {
    pub fn new(m11: T, m12: T, m21: T, m22: T) -> (r: Self)
        ensures
            r.m11 == m11,
            r.m12 == m12,
            r.m21 == m21,
            r.m22 == m22,
    {
        Matrix { m11, m12, m21, m22 }
    }

    /// Broadcasts one scalar into all four cells.
    pub fn scalar(scalar: T) -> (r: Self)
        ensures
            r.m11 == scalar,
            r.m12 == scalar,
            r.m21 == scalar,
            r.m22 == scalar,
    {
        Matrix { m11: scalar, m12: scalar, m21: scalar, m22: scalar }
    }

    pub open spec fn determinant_req(self) -> bool {
        &&& self.m11.mul_req(self.m22)
        &&& self.m12.mul_req(self.m21)
        &&& self.m11.mul_spec(self.m22).sub_req(self.m12.mul_spec(self.m21))
    }

    /// The determinant `m11*m22 - m12*m21` over the scalar's own operations.
    pub open spec fn determinant_spec(self) -> T {
        self.m11.mul_spec(self.m22).sub_spec(self.m12.mul_spec(self.m21))
    }

    pub fn determinant(&self) -> (r: T)
        requires
            self.determinant_req(),
        ensures
            r == self.determinant_spec(),
    {
        self.m11.mul(self.m22).sub(self.m12.mul(self.m21))
    }

    /// The transpose: `m12` and `m21` swapped, the diagonal unchanged.
    pub open spec fn transpose_spec(self) -> Self {
        Matrix { m11: self.m11, m12: self.m21, m21: self.m12, m22: self.m22 }
    }

    pub fn transpose(&self) -> (r: Self)
        ensures
            r == self.transpose_spec(),
    {
        Matrix { m11: self.m11, m12: self.m21, m21: self.m12, m22: self.m22 }
    }

    pub open spec fn add_mat_req(self, rhs: Self) -> bool {
        &&& self.m11.add_req(rhs.m11)
        &&& self.m12.add_req(rhs.m12)
        &&& self.m21.add_req(rhs.m21)
        &&& self.m22.add_req(rhs.m22)
    }

    pub open spec fn add_mat_spec(self, rhs: Self) -> Self {
        Matrix {
            m11: self.m11.add_spec(rhs.m11),
            m12: self.m12.add_spec(rhs.m12),
            m21: self.m21.add_spec(rhs.m21),
            m22: self.m22.add_spec(rhs.m22),
        }
    }

    /// Componentwise matrix addition.
    pub fn add(&self, rhs: &Self) -> (r: Self)
        requires
            self.add_mat_req(*rhs),
        ensures
            r == self.add_mat_spec(*rhs),
    {
        Matrix {
            m11: self.m11.add(rhs.m11),
            m12: self.m12.add(rhs.m12),
            m21: self.m21.add(rhs.m21),
            m22: self.m22.add(rhs.m22),
        }
    }

    pub open spec fn sub_mat_req(self, rhs: Self) -> bool {
        &&& self.m11.sub_req(rhs.m11)
        &&& self.m12.sub_req(rhs.m12)
        &&& self.m21.sub_req(rhs.m21)
        &&& self.m22.sub_req(rhs.m22)
    }

    pub open spec fn sub_mat_spec(self, rhs: Self) -> Self {
        Matrix {
            m11: self.m11.sub_spec(rhs.m11),
            m12: self.m12.sub_spec(rhs.m12),
            m21: self.m21.sub_spec(rhs.m21),
            m22: self.m22.sub_spec(rhs.m22),
        }
    }

    /// Componentwise matrix subtraction.
    pub fn sub(&self, rhs: &Self) -> (r: Self)
        requires
            self.sub_mat_req(*rhs),
        ensures
            r == self.sub_mat_spec(*rhs),
    {
        Matrix {
            m11: self.m11.sub(rhs.m11),
            m12: self.m12.sub(rhs.m12),
            m21: self.m21.sub(rhs.m21),
            m22: self.m22.sub(rhs.m22),
        }
    }

    pub open spec fn scale_req(self, scalar: T) -> bool {
        &&& self.m11.mul_req(scalar)
        &&& self.m12.mul_req(scalar)
        &&& self.m21.mul_req(scalar)
        &&& self.m22.mul_req(scalar)
    }

    pub open spec fn scale_spec(self, scalar: T) -> Self {
        Matrix {
            m11: self.m11.mul_spec(scalar),
            m12: self.m12.mul_spec(scalar),
            m21: self.m21.mul_spec(scalar),
            m22: self.m22.mul_spec(scalar),
        }
    }

    /// Broadcasts the scalar across all four cells by multiplication.
    pub fn scale(&self, scalar: T) -> (r: Self)
        requires
            self.scale_req(scalar),
        ensures
            r == self.scale_spec(scalar),
    {
        Matrix {
            m11: self.m11.mul(scalar),
            m12: self.m12.mul(scalar),
            m21: self.m21.mul(scalar),
            m22: self.m22.mul(scalar),
        }
    }

    pub open spec fn div_scalar_req(self, scalar: T) -> bool {
        &&& self.m11.div_req(scalar)
        &&& self.m12.div_req(scalar)
        &&& self.m21.div_req(scalar)
        &&& self.m22.div_req(scalar)
    }

    pub open spec fn div_scalar_spec(self, scalar: T) -> Self {
        Matrix {
            m11: self.m11.div_spec(scalar),
            m12: self.m12.div_spec(scalar),
            m21: self.m21.div_spec(scalar),
            m22: self.m22.div_spec(scalar),
        }
    }

    /// Broadcasts the scalar across all four cells by division, in the
    /// scalar's own division semantics.
    pub fn div_scalar(&self, scalar: T) -> (r: Self)
        requires
            self.div_scalar_req(scalar),
        ensures
            r == self.div_scalar_spec(scalar),
    {
        Matrix {
            m11: self.m11.div(scalar),
            m12: self.m12.div(scalar),
            m21: self.m21.div(scalar),
            m22: self.m22.div(scalar),
        }
    }

    pub open spec fn mul_mat_req(self, rhs: Self) -> bool {
        &&& dot2_req(self.m11, self.m12, rhs.m11, rhs.m21)
        &&& dot2_req(self.m11, self.m12, rhs.m12, rhs.m22)
        &&& dot2_req(self.m21, self.m22, rhs.m11, rhs.m21)
        &&& dot2_req(self.m21, self.m22, rhs.m12, rhs.m22)
    }

    /// The standard 2x2 row-by-column matrix product.
    pub open spec fn mul_mat_spec(self, rhs: Self) -> Self {
        Matrix {
            m11: dot2_spec(self.m11, self.m12, rhs.m11, rhs.m21),
            m12: dot2_spec(self.m11, self.m12, rhs.m12, rhs.m22),
            m21: dot2_spec(self.m21, self.m22, rhs.m11, rhs.m21),
            m22: dot2_spec(self.m21, self.m22, rhs.m12, rhs.m22),
        }
    }

    /// Matrix multiplication.
    pub fn mul(&self, rhs: &Self) -> (r: Self)
        requires
            self.mul_mat_req(*rhs),
        ensures
            r == self.mul_mat_spec(*rhs),
    {
        Matrix {
            m11: self.m11.mul(rhs.m11).add(self.m12.mul(rhs.m21)),
            m12: self.m11.mul(rhs.m12).add(self.m12.mul(rhs.m22)),
            m21: self.m21.mul(rhs.m11).add(self.m22.mul(rhs.m21)),
            m22: self.m21.mul(rhs.m12).add(self.m22.mul(rhs.m22)),
        }
    }

    pub open spec fn mul_vector_req(self, rhs: Vector<T>) -> bool {
        &&& dot2_req(self.m11, self.m12, rhs.x, rhs.y)
        &&& dot2_req(self.m12, self.m22, rhs.x, rhs.y)
    }

    /// The linear map this library applies to a vector. The second
    /// component is built from `m12`, not `m21`: `m21` never enters
    /// matrix-vector application, so the applied map agrees with the
    /// standard product only when `m12 == m21`.
    pub open spec fn mul_vector_spec(self, rhs: Vector<T>) -> Vector<T> {
        Vector {
            x: dot2_spec(self.m11, self.m12, rhs.x, rhs.y),
            y: dot2_spec(self.m12, self.m22, rhs.x, rhs.y),
        }
    }

    /// Applies the matrix to a vector as a linear map.
    pub fn mul_vector(&self, rhs: &Vector<T>) -> (r: Vector<T>)
        requires
            self.mul_vector_req(*rhs),
        ensures
            r == self.mul_vector_spec(*rhs),
    {
        Vector {
            x: self.m11.mul(rhs.x).add(self.m12.mul(rhs.y)),
            y: self.m12.mul(rhs.x).add(self.m22.mul(rhs.y)),
        }
    }

    /// In-place matrix addition.
    pub fn add_assign(&mut self, rhs: &Self)
        requires
            old(self).add_mat_req(*rhs),
        ensures
            *final(self) == old(self).add_mat_spec(*rhs),
    {
        self.m11 = self.m11.add(rhs.m11);
        self.m12 = self.m12.add(rhs.m12);
        self.m21 = self.m21.add(rhs.m21);
        self.m22 = self.m22.add(rhs.m22);
    }

    /// In-place matrix subtraction.
    pub fn sub_assign(&mut self, rhs: &Self)
        requires
            old(self).sub_mat_req(*rhs),
        ensures
            *final(self) == old(self).sub_mat_spec(*rhs),
    {
        self.m11 = self.m11.sub(rhs.m11);
        self.m12 = self.m12.sub(rhs.m12);
        self.m21 = self.m21.sub(rhs.m21);
        self.m22 = self.m22.sub(rhs.m22);
    }

    /// In-place scalar multiplication.
    pub fn scale_assign(&mut self, scalar: T)
        requires
            old(self).scale_req(scalar),
        ensures
            *final(self) == old(self).scale_spec(scalar),
    {
        self.m11 = self.m11.mul(scalar);
        self.m12 = self.m12.mul(scalar);
        self.m21 = self.m21.mul(scalar);
        self.m22 = self.m22.mul(scalar);
    }

    /// In-place scalar division.
    pub fn div_assign(&mut self, scalar: T)
        requires
            old(self).div_scalar_req(scalar),
        ensures
            *final(self) == old(self).div_scalar_spec(scalar),
    {
        self.m11 = self.m11.div(scalar);
        self.m12 = self.m12.div(scalar);
        self.m21 = self.m21.div(scalar);
        self.m22 = self.m22.div(scalar);
    }

    /// In-place matrix multiplication: replaces the receiver with the
    /// product of itself and `rhs`.
    pub fn mul_assign(&mut self, rhs: &Self)
        requires
            old(self).mul_mat_req(*rhs),
        ensures
            *final(self) == old(self).mul_mat_spec(*rhs),
    {
        let product = self.mul(rhs);
        *self = product;
    }
}

impl<T: Fractional> Matrix<T> {
    pub open spec fn unity_spec() -> Self {
        Matrix { m11: T::one_spec(), m12: T::zero_spec(), m21: T::zero_spec(), m22: T::one_spec() }
    }

    /// The 2x2 identity matrix.
    pub fn unity() -> (r: Self)
        ensures
            r == Self::unity_spec(),
    {
        Matrix { m11: T::one(), m12: T::zero(), m21: T::zero(), m22: T::one() }
    }

    /// The value inversion yields when the determinant is nonzero: the
    /// adjugate scaled by the reciprocal of the determinant, each cell in
    /// the scalar's own operations.
    pub open spec fn inverse_some_spec(self) -> Self {
        let inv_det = self.determinant_spec().recip_spec();
        Matrix {
            m11: self.m22.mul_spec(inv_det),
            m12: T::neg_one_spec().mul_spec(self.m12).mul_spec(inv_det),
            m21: T::neg_one_spec().mul_spec(self.m21).mul_spec(inv_det),
            m22: self.m11.mul_spec(inv_det),
        }
    }

    pub open spec fn inverse_req(self) -> bool {
        &&& self.determinant_req()
        &&& self.determinant_spec() != T::zero_spec() ==> {
            let inv_det = self.determinant_spec().recip_spec();
            &&& self.determinant_spec().recip_req()
            &&& self.m22.mul_req(inv_det)
            &&& T::neg_one_spec().mul_req(self.m12)
            &&& T::neg_one_spec().mul_spec(self.m12).mul_req(inv_det)
            &&& T::neg_one_spec().mul_req(self.m21)
            &&& T::neg_one_spec().mul_spec(self.m21).mul_req(inv_det)
            &&& self.m11.mul_req(inv_det)
        }
    }

    /// Inversion, the one operation that can fail: a singular matrix
    /// (determinant equal to the scalar's zero) has no inverse and yields
    /// `None`; every other matrix yields exactly the adjugate over the
    /// determinant.
    pub fn inverse(&self) -> (r: Option<Matrix<T>>)
        requires
            self.inverse_req(),
        ensures
            (r is Some) <==> self.determinant_spec() != T::zero_spec(),
            r is Some ==> r->0 == self.inverse_some_spec(),
    {
        let det = self.determinant();
        if det.eq_val(T::zero()) {
            None
        } else {
            let inv_det = det.recip();
            Some(
                Matrix {
                    m11: self.m22.mul(inv_det),
                    m12: T::neg_one().mul(self.m12).mul(inv_det),
                    m21: T::neg_one().mul(self.m21).mul(inv_det),
                    m22: self.m11.mul(inv_det),
                },
            )
        }
    }
}

} // verus!
