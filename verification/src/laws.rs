use vstd::prelude::*;

use crate::matrix::Matrix;
use crate::numeric::Fractional;
use crate::numeric::Numeric;
use crate::vector::Vector;

verus! {

/// All four cells of the matrix lie within `[-bound, bound]`.
pub open spec fn cells_within(m: Matrix<i64>, bound: int) -> bool {
    &&& -bound <= m.m11 <= bound
    &&& -bound <= m.m12 <= bound
    &&& -bound <= m.m21 <= bound
    &&& -bound <= m.m22 <= bound
}

proof fn lemma_abs_mul_bound(x: int, y: int, p: int, q: int)
    by (nonlinear_arith)
    requires
        -p <= x <= p,
        -q <= y <= q,
        0 <= p,
        0 <= q,
    ensures
        -(p * q) <= x * y <= p * q,
{
}

/// When the cells of both operands are small enough that no intermediate
/// value leaves the scalar's range, the truncating matrix product agrees
/// with the mathematical one, and its cells are bounded in turn.
proof fn lemma_mul_mat_exact(a: Matrix<i64>, b: Matrix<i64>, p: int, q: int)
    requires
        cells_within(a, p),
        cells_within(b, q),
        0 <= p,
        0 <= q,
        2 * p * q <= i64::MAX,
    ensures
        a.mul_mat_spec(b).m11 == a.m11 * b.m11 + a.m12 * b.m21,
        a.mul_mat_spec(b).m12 == a.m11 * b.m12 + a.m12 * b.m22,
        a.mul_mat_spec(b).m21 == a.m21 * b.m11 + a.m22 * b.m21,
        a.mul_mat_spec(b).m22 == a.m21 * b.m12 + a.m22 * b.m22,
        cells_within(a.mul_mat_spec(b), 2 * p * q),
{
    assert(0 <= p * q && p * q + p * q == 2 * p * q) by (nonlinear_arith)
        requires
            0 <= p,
            0 <= q,
    ;
    lemma_abs_mul_bound(a.m11 as int, b.m11 as int, p, q);
    lemma_abs_mul_bound(a.m11 as int, b.m12 as int, p, q);
    lemma_abs_mul_bound(a.m12 as int, b.m21 as int, p, q);
    lemma_abs_mul_bound(a.m12 as int, b.m22 as int, p, q);
    lemma_abs_mul_bound(a.m21 as int, b.m11 as int, p, q);
    lemma_abs_mul_bound(a.m21 as int, b.m12 as int, p, q);
    lemma_abs_mul_bound(a.m22 as int, b.m21 as int, p, q);
    lemma_abs_mul_bound(a.m22 as int, b.m22 as int, p, q);
}

/// The dot product is commutative: `Dot(a, b) == Dot(b, a)`, for every pair
/// of vectors.
pub proof fn lemma_dot_commutative(a: Vector<i64>, b: Vector<i64>)
    ensures
        a.dot_spec(b) == b.dot_spec(a),
{
    assert(a.x * b.x == b.x * a.x) by (nonlinear_arith);
    assert(a.y * b.y == b.y * a.y) by (nonlinear_arith);
}

/// The squared magnitude is the vector's dot product with itself, over any
/// scalar.
pub proof fn lemma_magnitude_squared_is_dot<T: Numeric>(v: Vector<T>)
    ensures
        v.magnitude_squared_spec() == v.dot_spec(v),
{
}

/// Transposition is an involution: `Transpose(Transpose(A)) == A` exactly,
/// over any scalar.
pub proof fn lemma_transpose_involution<T: Numeric>(m: Matrix<T>)
    ensures
        m.transpose_spec().transpose_spec() == m,
{
}

/// One cell of the associativity law, as a ring identity over the
/// mathematical integers.
proof fn lemma_entry_assoc(
    a1: int,
    a2: int,
    b11: int,
    b12: int,
    b21: int,
    b22: int,
    c1: int,
    c2: int,
)
    ensures
        (a1 * b11 + a2 * b21) * c1 + (a1 * b12 + a2 * b22) * c2 == a1 * (b11 * c1 + b12 * c2) + a2
            * (b21 * c1 + b22 * c2),
{
    vstd::arithmetic::mul::lemma_mul_is_distributive_add_other_way(c1, a1 * b11, a2 * b21);
    vstd::arithmetic::mul::lemma_mul_is_distributive_add_other_way(c2, a1 * b12, a2 * b22);
    vstd::arithmetic::mul::lemma_mul_is_distributive_add(a1, b11 * c1, b12 * c2);
    vstd::arithmetic::mul::lemma_mul_is_distributive_add(a2, b21 * c1, b22 * c2);
    vstd::arithmetic::mul::lemma_mul_is_associative(a1, b11, c1);
    vstd::arithmetic::mul::lemma_mul_is_associative(a1, b12, c2);
    vstd::arithmetic::mul::lemma_mul_is_associative(a2, b21, c1);
    vstd::arithmetic::mul::lemma_mul_is_associative(a2, b22, c2);
}

/// Matrix multiplication is associative: `(A * B) * C == A * (B * C)`, for
/// matrices whose cells are small enough that no intermediate value leaves
/// the scalar's range.
pub proof fn lemma_matrix_mul_associative(a: Matrix<i64>, b: Matrix<i64>, c: Matrix<i64>)
    ensures
        cells_within(a, 0x100000) && cells_within(b, 0x100000) && cells_within(c, 0x100000)
            ==> a.mul_mat_spec(b).mul_mat_spec(c) == a.mul_mat_spec(b.mul_mat_spec(c)),
{
    if cells_within(a, 0x100000) && cells_within(b, 0x100000) && cells_within(c, 0x100000) {
        let k: int = 0x100000;
        assert(2 * k * k <= i64::MAX && 2 * (2 * k * k) * k <= i64::MAX && 2 * k * (2 * k * k)
            <= i64::MAX) by (nonlinear_arith)
            requires
                k == 0x100000,
        ;
        lemma_mul_mat_exact(a, b, k, k);
        let ab = a.mul_mat_spec(b);
        lemma_mul_mat_exact(ab, c, 2 * k * k, k);
        lemma_mul_mat_exact(b, c, k, k);
        let bc = b.mul_mat_spec(c);
        lemma_mul_mat_exact(a, bc, k, 2 * k * k);
        lemma_entry_assoc(
            a.m11 as int,
            a.m12 as int,
            b.m11 as int,
            b.m12 as int,
            b.m21 as int,
            b.m22 as int,
            c.m11 as int,
            c.m21 as int,
        );
        lemma_entry_assoc(
            a.m11 as int,
            a.m12 as int,
            b.m11 as int,
            b.m12 as int,
            b.m21 as int,
            b.m22 as int,
            c.m12 as int,
            c.m22 as int,
        );
        lemma_entry_assoc(
            a.m21 as int,
            a.m22 as int,
            b.m11 as int,
            b.m12 as int,
            b.m21 as int,
            b.m22 as int,
            c.m11 as int,
            c.m21 as int,
        );
        lemma_entry_assoc(
            a.m21 as int,
            a.m22 as int,
            b.m11 as int,
            b.m12 as int,
            b.m21 as int,
            b.m22 as int,
            c.m12 as int,
            c.m22 as int,
        );
    }
}

/// The identity matrix maps every vector to itself, even under this
/// library's linear map, whose second component reads `m12`: the identity
/// has `m12 == m21`, so the two formulas agree on it.
pub proof fn lemma_unity_maps_identically(v: Vector<i64>)
    ensures
        Matrix::<i64>::unity_spec().mul_vector_spec(v) == v,
{
}

/// A matrix of determinant one or minus one, multiplied by its inverse,
/// gives the identity exactly, provided its cells are small enough that no
/// intermediate value leaves the scalar's range. (For other nonzero
/// determinants the scalar's truncating reciprocal loses the inverse, as
/// integer division must.)
pub proof fn lemma_inverse_unimodular(a: Matrix<i64>)
    requires
        cells_within(a, 0x40000000),
        a.determinant_spec() == 1i64 || a.determinant_spec() == -1i64,
    ensures
        a.mul_mat_spec(a.inverse_some_spec()) == Matrix::<i64>::unity_spec(),
{
    let k: int = 0x40000000;
    assert(k * k + k * k <= i64::MAX && 2 * k * k <= i64::MAX) by (nonlinear_arith)
        requires
            k == 0x40000000,
    ;
    lemma_abs_mul_bound(a.m11 as int, a.m22 as int, k, k);
    lemma_abs_mul_bound(a.m12 as int, a.m21 as int, k, k);
    let d: int = a.m11 * a.m22 - a.m12 * a.m21;
    assert(a.determinant_spec() == d);
    assert(1int / 1int == 1) by (nonlinear_arith);
    assert(1int / (-1int) == -1) by (nonlinear_arith);
    let inv = a.inverse_some_spec();
    assert(a.m12 * (-a.m21) == -(a.m12 * a.m21)) by (nonlinear_arith);
    assert(a.m11 * (-a.m12) == -(a.m11 * a.m12)) by (nonlinear_arith);
    assert(a.m12 * a.m11 == a.m11 * a.m12) by (nonlinear_arith);
    assert(a.m21 * (-a.m22) == -(a.m21 * a.m22)) by (nonlinear_arith);
    assert(a.m22 * a.m21 == a.m21 * a.m22) by (nonlinear_arith);
    assert(a.m21 * (-a.m12) == -(a.m21 * a.m12)) by (nonlinear_arith);
    assert(a.m21 * a.m12 == a.m12 * a.m21) by (nonlinear_arith);
    assert(a.m22 * a.m11 == a.m11 * a.m22) by (nonlinear_arith);
    assert(a.m11 * (-a.m22) == -(a.m11 * a.m22)) by (nonlinear_arith);
    assert(a.m22 * (-a.m21) == -(a.m22 * a.m21)) by (nonlinear_arith);
    assert(a.m12 * (-a.m11) == -(a.m12 * a.m11)) by (nonlinear_arith);
    assert(a.m22 * (-a.m11) == -(a.m22 * a.m11)) by (nonlinear_arith);
    if a.determinant_spec() == 1i64 {
        assert(inv.m11 == a.m22 && inv.m12 == -a.m12 && inv.m21 == -a.m21 && inv.m22 == a.m11);
        assert(cells_within(inv, k));
        lemma_mul_mat_exact(a, inv, k, k);
        assert(a.mul_mat_spec(inv).m11 == a.m11 * a.m22 + a.m12 * (-a.m21));
        assert(a.mul_mat_spec(inv).m11 == 1);
        assert(a.mul_mat_spec(inv).m12 == a.m11 * (-a.m12) + a.m12 * a.m11 == 0);
        assert(a.mul_mat_spec(inv).m21 == a.m21 * a.m22 + a.m22 * (-a.m21) == 0);
        assert(a.mul_mat_spec(inv).m22 == a.m21 * (-a.m12) + a.m22 * a.m11 == 1);
    } else {
        assert(inv.m11 == -a.m22 && inv.m12 == a.m12 && inv.m21 == a.m21 && inv.m22 == -a.m11);
        assert(cells_within(inv, k));
        lemma_mul_mat_exact(a, inv, k, k);
        assert(a.mul_mat_spec(inv).m11 == a.m11 * (-a.m22) + a.m12 * a.m21 == 1);
        assert(a.mul_mat_spec(inv).m12 == a.m11 * a.m12 + a.m12 * (-a.m11) == 0);
        assert(a.mul_mat_spec(inv).m21 == a.m21 * (-a.m22) + a.m22 * a.m21 == 0);
        assert(a.mul_mat_spec(inv).m22 == a.m21 * a.m12 + a.m22 * (-a.m11) == 1);
    }
}

} // verus!
