use linalg2d::isqrt;
use linalg2d::Vector;

#[test]
fn vector_new_components() {
    let v: Vector<i64> = Vector::new(3, -7);
    assert_eq!(v.x, 3);
    assert_eq!(v.y, -7);
}

#[test]
fn vector_scalar_broadcast() {
    let v: Vector<i64> = Vector::scalar(9);
    assert_eq!(v.x, 9);
    assert_eq!(v.y, 9);
}

#[test]
fn vector_default_is_zero() {
    let v: Vector<i64> = Default::default();
    assert_eq!(v.x, 0);
    assert_eq!(v.y, 0);
}

#[test]
fn vector_clone_keeps_components() {
    let v: Vector<i64> = Vector::new(4, 5);
    let w = v.clone();
    assert!(w == v);
}

#[test]
fn vector_debug_rendering() {
    let v: Vector<i64> = Vector::new(3, 4);
    assert_eq!(format!("{:?}", v), "Vector { x: 3, y: 4 }");
}

#[test]
fn dot_product_example() {
    let v: Vector<i64> = Vector::new(1, 2);
    let w: Vector<i64> = Vector::new(3, 4);
    assert_eq!(v.dot(&w), 11);
}

#[test]
fn dot_product_commutes_on_values() {
    let pairs: [(i64, i64, i64, i64); 4] = [(1, 2, 3, 4), (-5, 7, 11, -13), (0, 0, 9, 9), (
        -1,
        -1,
        -1,
        -1,
    )];
    for (ax, ay, bx, by) in pairs {
        let a: Vector<i64> = Vector::new(ax, ay);
        let b: Vector<i64> = Vector::new(bx, by);
        assert_eq!(a.dot(&b), b.dot(&a));
    }
}

#[test]
fn magnitude_squared_example() {
    let v: Vector<i64> = Vector::new(3, 4);
    assert_eq!(v.magnitude_squared(), 25);
    assert_eq!(v.magnitude_squared(), v.dot(&v));
}

#[test]
fn axis_units() {
    let x: Vector<i64> = Vector::x_axis();
    let y: Vector<i64> = Vector::y_axis();
    assert_eq!(x.x, 1);
    assert_eq!(x.y, 0);
    assert_eq!(y.x, 0);
    assert_eq!(y.y, 1);
}

#[test]
fn vector_add_sub() {
    let v: Vector<i64> = Vector::new(1, 2);
    let w: Vector<i64> = Vector::new(3, 4);
    let s = v.add(&w);
    assert_eq!(s.x, 4);
    assert_eq!(s.y, 6);
    let d = w.sub(&v);
    assert_eq!(d.x, 2);
    assert_eq!(d.y, 2);
}

#[test]
fn vector_scale_and_divide() {
    let v: Vector<i64> = Vector::new(2, 3);
    let s = v.scale(4);
    assert_eq!(s.x, 8);
    assert_eq!(s.y, 12);
    let w: Vector<i64> = Vector::new(9, -9);
    let q = w.div_scalar(2);
    assert_eq!(q.x, 4);
    assert_eq!(q.y, -4);
}

#[test]
fn vector_compound_assignments() {
    let mut v: Vector<i64> = Vector::new(1, 2);
    v.add_assign(&Vector::new(10, 20));
    assert_eq!(v.x, 11);
    assert_eq!(v.y, 22);
    v.sub_assign(&Vector::new(1, 2));
    assert_eq!(v.x, 10);
    assert_eq!(v.y, 20);
    v.scale_assign(3);
    assert_eq!(v.x, 30);
    assert_eq!(v.y, 60);
    v.div_assign(7);
    assert_eq!(v.x, 4);
    assert_eq!(v.y, 8);
}

#[test]
fn isqrt_examples() {
    assert_eq!(isqrt(0), 0);
    assert_eq!(isqrt(1), 1);
    assert_eq!(isqrt(2), 1);
    assert_eq!(isqrt(3), 1);
    assert_eq!(isqrt(4), 2);
    assert_eq!(isqrt(24), 4);
    assert_eq!(isqrt(25), 5);
    assert_eq!(isqrt(26), 5);
    assert_eq!(isqrt(1_000_000_000_000_000_000), 1_000_000_000);
    assert_eq!(isqrt(i64::MAX), 3_037_000_499);
}

#[test]
fn normalize_divides_by_integer_magnitude() {
    let v: Vector<i64> = Vector::new(5, 0);
    let n = v.normalize();
    assert_eq!(n.x, 1);
    assert_eq!(n.y, 0);
    let w: Vector<i64> = Vector::new(0, -7);
    let m = w.normalize();
    assert_eq!(m.x, 0);
    assert_eq!(m.y, -1);
}

#[test]
fn normalize_truncates_below_unit() {
    let v: Vector<i64> = Vector::new(3, 4);
    let n = v.normalize();
    assert_eq!(n.x, 0);
    assert_eq!(n.y, 0);
    let w: Vector<i64> = Vector::new(6, 8);
    let m = w.normalize();
    assert_eq!(m.x, 0);
    assert_eq!(m.y, 0);
}
