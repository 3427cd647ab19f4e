use blanko_quaternions::angle::Angle;
use blanko_quaternions::complex::Complex;
use blanko_quaternions::direction::Direction;
use blanko_quaternions::dual_numbers::DualNumber;
use blanko_quaternions::dual_quaternion::DualQuaternion;
use blanko_quaternions::point::Point;
use blanko_quaternions::quaternion::Quaternion;
use blanko_quaternions::scalar::{Scalar, NAN_RAW, ONE_RAW};
use blanko_quaternions::vector3::Vector3;

fn raw(n: i64) -> Scalar {
    Scalar { raw: n }
}

fn whole(n: i64) -> Scalar {
    Scalar { raw: n * ONE_RAW }
}

fn quat(w: i64, i: i64, j: i64, k: i64) -> Quaternion {
    Quaternion { w: whole(w), i: whole(i), j: whole(j), k: whole(k) }
}

fn dq(w: i64, i: i64, j: i64, k: i64, ie: i64, je: i64, ke: i64, we: i64) -> DualQuaternion {
    DualQuaternion {
        w: whole(w),
        i: whole(i),
        j: whole(j),
        k: whole(k),
        ie: whole(ie),
        je: whole(je),
        ke: whole(ke),
        we: whole(we),
    }
}

#[test]
fn operators_on_scalars() {
    assert_eq!(whole(2) + whole(3), whole(5));
    assert_eq!(whole(2) - whole(3), whole(-1));
    assert_eq!(whole(2) * whole(3), whole(6));
    assert_eq!(whole(6) / whole(3), whole(2));
    assert_eq!(whole(7) % whole(3), whole(1));
    assert_eq!(-whole(2), whole(-2));
    assert_eq!(whole(1) / whole(0), raw(NAN_RAW));
    assert_eq!(whole(2) * whole(3), whole(2).mul(whole(3)));
}

#[test]
fn operators_on_angles() {
    let a = Angle::from_deg(whole(30));
    let b = Angle::from_deg(whole(60));
    assert_eq!((a + b).deg(), whole(90));
    assert_eq!((a - b).deg(), whole(-30));
    assert_eq!((-a).deg(), whole(-30));
    assert_eq!((a * whole(3)).deg(), whole(90));
    assert_eq!((whole(3) * a).deg(), whole(90));
    assert_eq!((b / whole(2)).deg(), whole(30));
    assert_eq!((Angle::from_deg(whole(100)) % whole(45)).deg(), whole(10));
    assert_eq!(a + b, a.add(b));
}

#[test]
fn operators_on_vectors_points_and_directions() {
    let u = Vector3 { x: whole(1), y: whole(2), z: whole(3) };
    let v = Vector3 { x: whole(10), y: whole(20), z: whole(30) };
    assert_eq!(u + v, Vector3 { x: whole(11), y: whole(22), z: whole(33) });
    assert_eq!(v - u, Vector3 { x: whole(9), y: whole(18), z: whole(27) });
    assert_eq!(-u, Vector3 { x: whole(-1), y: whole(-2), z: whole(-3) });
    assert_eq!(u * whole(10), v);
    assert_eq!(whole(10) * u, v);
    let d = Direction { x: whole(1), y: whole(2), z: whole(3) };
    let e = Direction { x: whole(10), y: whole(20), z: whole(30) };
    assert_eq!(d + e, Direction { x: whole(11), y: whole(22), z: whole(33) });
    assert_eq!(e - d, Direction { x: whole(9), y: whole(18), z: whole(27) });
    assert_eq!(-d, Direction { x: whole(-1), y: whole(-2), z: whole(-3) });
    assert_eq!(d * whole(10), e);
    assert_eq!(whole(10) * d, e);
    let p = Point { x: whole(1), y: whole(2), z: whole(3) };
    let q = Point { x: whole(10), y: whole(20), z: whole(30) };
    assert_eq!(p * whole(10), q);
    assert_eq!(whole(10) * p, q);
    assert_eq!(-p, Point { x: whole(-1), y: whole(-2), z: whole(-3) });
    // the product of two points is the displacement from the second to the first
    assert_eq!(q * p, Direction { x: whole(9), y: whole(18), z: whole(27) });
}

#[test]
fn operators_on_complex_numbers() {
    let a = Complex { re: whole(1), im: whole(2) };
    let b = Complex { re: whole(3), im: whole(4) };
    assert_eq!(a + b, Complex { re: whole(4), im: whole(6) });
    assert_eq!(a - b, Complex { re: whole(-2), im: whole(-2) });
    assert_eq!(-a, Complex { re: whole(-1), im: whole(-2) });
    assert_eq!(a * b, Complex { re: whole(-5), im: whole(10) });
    assert_eq!(a * b, a.product(&b));
    assert_eq!(Complex { re: whole(4), im: whole(8) } / Complex { re: whole(0), im: whole(2) }, Complex { re: whole(4), im: whole(-2) });
    assert_eq!(a * whole(2), Complex { re: whole(2), im: whole(4) });
    assert_eq!(whole(2) * a, Complex { re: whole(2), im: whole(4) });
    assert_eq!(Complex { re: whole(2), im: whole(4) } / whole(2), a);
    assert_eq!(a + whole(1), Complex { re: whole(2), im: whole(2) });
    assert_eq!(whole(1) + a, Complex { re: whole(2), im: whole(2) });
    assert_eq!(a - whole(1), Complex { re: whole(0), im: whole(2) });
    assert_eq!(whole(1) - a, Complex { re: whole(0), im: whole(-2) });
    assert_eq!(whole(4) / Complex { re: whole(0), im: whole(2) }, Complex { re: whole(0), im: whole(-2) });
}

#[test]
fn operators_on_dual_numbers() {
    let a = DualNumber { re: whole(2), du: whole(3) };
    let b = DualNumber { re: whole(4), du: whole(5) };
    assert_eq!(a + b, DualNumber { re: whole(6), du: whole(8) });
    assert_eq!(a - b, DualNumber { re: whole(-2), du: whole(-2) });
    assert_eq!(-a, DualNumber { re: whole(-2), du: whole(-3) });
    assert_eq!(a * b, DualNumber { re: whole(8), du: whole(22) });
    assert_eq!(DualNumber { re: whole(8), du: whole(22) } / DualNumber { re: whole(2), du: whole(0) }, DualNumber { re: whole(4), du: whole(11) });
    assert_eq!(a * whole(2), DualNumber { re: whole(4), du: whole(6) });
    assert_eq!(whole(2) * a, DualNumber { re: whole(4), du: whole(6) });
    assert_eq!(DualNumber { re: whole(4), du: whole(6) } / whole(2), a);
    assert_eq!(a + whole(1), DualNumber { re: whole(3), du: whole(3) });
    assert_eq!(whole(1) + a, DualNumber { re: whole(3), du: whole(3) });
    assert_eq!(a - whole(1), DualNumber { re: whole(1), du: whole(3) });
    assert_eq!(whole(1) - a, DualNumber { re: whole(-1), du: whole(-3) });
    assert_eq!(whole(1) / DualNumber { re: whole(2), du: whole(4) }, DualNumber { re: whole(2), du: whole(4) }.recip());
}

#[test]
fn operators_on_quaternions() {
    let a = quat(1, 2, 3, 4);
    let b = quat(5, 6, 7, 8);
    assert_eq!(a + b, quat(6, 8, 10, 12));
    assert_eq!(b - a, quat(4, 4, 4, 4));
    assert_eq!(-a, quat(-1, -2, -3, -4));
    assert_eq!(a * b, quat(-60, 12, 30, 24));
    assert_eq!(a * b, a.product(&b));
    assert_eq!(a * whole(2), quat(2, 4, 6, 8));
    assert_eq!(whole(2) * a, quat(2, 4, 6, 8));
    assert_eq!(quat(2, 4, 6, 8) / whole(2), a);
    assert_eq!(a / quat(0, 2, 0, 0), a.div(quat(0, 2, 0, 0)));
    assert_eq!(whole(2) / quat(0, 2, 0, 0), quat(0, -1, 0, 0));
    let c = Complex { re: whole(5), im: whole(6) };
    assert_eq!(a + c, quat(6, 8, 3, 4));
    assert_eq!(c + a, quat(6, 8, 3, 4));
    assert_eq!(a - c, quat(-4, -4, 3, 4));
    assert_eq!(c - a, quat(4, 4, -3, -4));
    assert_eq!(a * c, quat(-7, 16, 39, 2));
    assert_eq!(c * a, quat(-7, 16, -9, 38));
    assert_eq!(a / Complex { re: whole(0), im: whole(2) }, a.div_complex(&Complex { re: whole(0), im: whole(2) }));
    assert_eq!(Complex { re: whole(0), im: whole(2) } / quat(0, 2, 0, 0), quat(1, 0, 0, 0));
}

#[test]
fn operators_on_dual_quaternions() {
    let a = dq(1, 2, 3, 4, 5, 6, 7, 8);
    let b = dq(2, 0, 1, 0, 1, 1, 0, 3);
    assert_eq!(a + b, dq(3, 2, 4, 4, 6, 7, 7, 11));
    assert_eq!(a - b, dq(-1, 2, 2, 4, 4, 5, 7, 5));
    assert_eq!(-a, dq(-1, -2, -3, -4, -5, -6, -7, -8));
    assert_eq!(a * b, dq(-1, 0, 7, 10, 6, 34, 30, 8));
    assert_eq!(a * b, a.product(&b));
    assert_eq!(a * whole(2), dq(2, 4, 6, 8, 10, 12, 14, 16));
    assert_eq!(whole(2) * a, dq(2, 4, 6, 8, 10, 12, 14, 16));
    let q = quat(0, 0, 1, 0);
    // both parts are multiplied by the quaternion
    assert_eq!(a * q, dq(-3, -4, 1, 2, -7, 8, 5, -6));
    assert_eq!(q * a, dq(-3, 4, 1, -2, 7, 8, -5, -6));
    assert_eq!(DualQuaternion::from_quaternion(&q), dq(0, 0, 1, 0, 0, 0, 0, 0));
}
