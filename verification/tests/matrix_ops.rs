use linalg2d::Matrix;
use linalg2d::Vector;

#[test]
fn matrix_new_cells() {
    let m: Matrix<i64> = Matrix::new(1, 2, 3, 4);
    assert_eq!(m.m11, 1);
    assert_eq!(m.m12, 2);
    assert_eq!(m.m21, 3);
    assert_eq!(m.m22, 4);
}

#[test]
fn matrix_scalar_broadcast() {
    let m: Matrix<i64> = Matrix::scalar(6);
    assert_eq!(m.m11, 6);
    assert_eq!(m.m12, 6);
    assert_eq!(m.m21, 6);
    assert_eq!(m.m22, 6);
}

#[test]
fn matrix_default_is_zero() {
    let m: Matrix<i64> = Default::default();
    assert!(m == Matrix::new(0, 0, 0, 0));
}

#[test]
fn determinant_examples() {
    let m: Matrix<i64> = Matrix::new(1, 2, 3, 4);
    assert_eq!(m.determinant(), -2);
    let singular: Matrix<i64> = Matrix::new(1, 2, 2, 4);
    assert_eq!(singular.determinant(), 0);
}

#[test]
fn transpose_swaps_off_diagonal() {
    let m: Matrix<i64> = Matrix::new(1, 2, 3, 4);
    let t = m.transpose();
    assert!(t == Matrix::new(1, 3, 2, 4));
}

#[test]
fn transpose_twice_is_identity() {
    let m: Matrix<i64> = Matrix::new(9, -2, 7, 0);
    assert!(m.transpose().transpose() == m);
}

#[test]
fn unity_cells() {
    let u: Matrix<i64> = Matrix::unity();
    assert!(u == Matrix::new(1, 0, 0, 1));
}

#[test]
fn unity_applied_to_vector() {
    let u: Matrix<i64> = Matrix::unity();
    let v: Vector<i64> = Vector::new(3, 4);
    let r = u.mul_vector(&v);
    assert_eq!(r.x, 3);
    assert_eq!(r.y, 4);
}

#[test]
fn matrix_product_example() {
    let a: Matrix<i64> = Matrix::new(1, 2, 3, 4);
    let b: Matrix<i64> = Matrix::new(5, 6, 7, 8);
    let p = a.mul(&b);
    assert!(p == Matrix::new(19, 22, 43, 50));
}

#[test]
fn matrix_product_associates_on_values() {
    let a: Matrix<i64> = Matrix::new(1, -2, 3, 4);
    let b: Matrix<i64> = Matrix::new(5, 6, -7, 8);
    let c: Matrix<i64> = Matrix::new(9, 0, 1, -2);
    let left = a.mul(&b).mul(&c);
    let right = a.mul(&b.mul(&c));
    assert!(left == right);
}

#[test]
fn map_vector_reads_m12_twice() {
    let m: Matrix<i64> = Matrix::new(1, 2, 3, 4);
    let v: Vector<i64> = Vector::new(5, 6);
    let r = m.mul_vector(&v);
    assert_eq!(r.x, 17);
    assert_eq!(r.y, 34);
}

#[test]
fn inverse_of_singular_is_none() {
    let singular: Matrix<i64> = Matrix::new(1, 2, 2, 4);
    assert!(singular.inverse().is_none());
    let zero: Matrix<i64> = Matrix::scalar(0);
    assert!(zero.inverse().is_none());
}

#[test]
fn inverse_of_unity_is_unity() {
    let u: Matrix<i64> = Matrix::unity();
    let inv = u.inverse().unwrap();
    assert!(inv == Matrix::new(1, 0, 0, 1));
}

#[test]
fn inverse_of_unimodular_matrix() {
    let a: Matrix<i64> = Matrix::new(2, 3, 3, 5);
    assert_eq!(a.determinant(), 1);
    let inv = a.inverse().unwrap();
    assert!(inv == Matrix::new(5, -3, -3, 2));
    let p = a.mul(&inv);
    assert!(p == Matrix::new(1, 0, 0, 1));
}

#[test]
fn inverse_truncates_for_larger_determinants() {
    let a: Matrix<i64> = Matrix::new(2, 0, 0, 2);
    assert_eq!(a.determinant(), 4);
    let inv = a.inverse().unwrap();
    assert!(inv == Matrix::new(0, 0, 0, 0));
}

#[test]
fn matrix_add_sub() {
    let a: Matrix<i64> = Matrix::new(1, 2, 3, 4);
    let b: Matrix<i64> = Matrix::new(10, 20, 30, 40);
    let s = a.add(&b);
    assert!(s == Matrix::new(11, 22, 33, 44));
    let d = b.sub(&a);
    assert!(d == Matrix::new(9, 18, 27, 36));
}

#[test]
fn matrix_scale_and_divide() {
    let a: Matrix<i64> = Matrix::new(1, -2, 3, -4);
    let s = a.scale(3);
    assert!(s == Matrix::new(3, -6, 9, -12));
    let q = Matrix::<i64>::new(9, -9, 5, -5).div_scalar(2);
    assert!(q == Matrix::new(4, -4, 2, -2));
}

#[test]
fn matrix_compound_assignments() {
    let mut m: Matrix<i64> = Matrix::new(1, 2, 3, 4);
    m.add_assign(&Matrix::scalar(1));
    assert!(m == Matrix::new(2, 3, 4, 5));
    m.sub_assign(&Matrix::scalar(2));
    assert!(m == Matrix::new(0, 1, 2, 3));
    m.scale_assign(4);
    assert!(m == Matrix::new(0, 4, 8, 12));
    m.div_assign(3);
    assert!(m == Matrix::new(0, 1, 2, 4));
}

#[test]
fn narrower_scalar_instantiation() {
    let a: Matrix<i32> = Matrix::new(2, 3, 3, 5);
    assert_eq!(a.determinant(), 1);
    let inv = a.inverse().unwrap();
    assert!(inv == Matrix::new(5, -3, -3, 2));
    let v: Vector<i32> = Vector::new(1, 2);
    let w: Vector<i32> = Vector::new(3, 4);
    assert_eq!(v.dot(&w), 11);
}

#[test]
fn matrix_product_assignment() {
    let mut m: Matrix<i64> = Matrix::new(1, 2, 3, 4);
    m.mul_assign(&Matrix::new(5, 6, 7, 8));
    assert!(m == Matrix::new(19, 22, 43, 50));
}
