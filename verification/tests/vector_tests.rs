use blanko_quaternions::direction::Direction;
use blanko_quaternions::point::Point;
use blanko_quaternions::scalar::{Scalar, NAN_RAW, ONE_RAW};
use blanko_quaternions::vector3::Vector3;

fn raw(n: i64) -> Scalar {
    Scalar { raw: n }
}

fn whole(n: i64) -> Scalar {
    Scalar { raw: n * ONE_RAW }
}

fn vec(x: i64, y: i64, z: i64) -> Vector3 {
    Vector3 { x: whole(x), y: whole(y), z: whole(z) }
}

fn nan_vec() -> Vector3 {
    Vector3 { x: raw(NAN_RAW), y: raw(NAN_RAW), z: raw(NAN_RAW) }
}

#[test]
fn cross_of_unit_axes() {
    assert_eq!(vec(1, 0, 0).cross(&vec(0, 1, 0)), vec(0, 0, 1));
    assert_eq!(vec(0, 1, 0).cross(&vec(0, 0, 1)), vec(1, 0, 0));
    assert_eq!(vec(0, 0, 1).cross(&vec(1, 0, 0)), vec(0, 1, 0));
    assert_eq!(vec(0, 1, 0).cross(&vec(1, 0, 0)), vec(0, 0, -1));
}

#[test]
fn cross_product_formula() {
    // (1, 2, 3) x (4, 5, 6) = (2*6 - 5*3, 3*4 - 6*1, 1*5 - 4*2)
    assert_eq!(vec(1, 2, 3).cross(&vec(4, 5, 6)), vec(-3, 6, -3));
    assert_eq!(vec(1, 2, 3).cross(&vec(1, 2, 3)), vec(0, 0, 0));
}

#[test]
fn cross_product_is_rounded_once_per_component() {
    // x: (3 * 1 - 2 * 0) units^2 / 2^24 rounds to zero
    let a = Vector3 { x: raw(0), y: raw(3), z: raw(0) };
    let b = Vector3 { x: raw(0), y: raw(2), z: raw(ONE_RAW / 2) };
    assert_eq!(a.cross(&b), Vector3 { x: raw(1), y: raw(0), z: raw(0) });
}

#[test]
fn cross_product_with_a_non_finite_component_is_not_finite() {
    let bad = Vector3 { x: whole(1), y: raw(NAN_RAW), z: whole(0) };
    assert_eq!(bad.cross(&vec(1, 0, 0)), nan_vec());
    assert_eq!(vec(1, 0, 0).cross(&bad), nan_vec());
    // a product beyond the range
    assert_eq!(
        vec(300, 0, 0).cross(&vec(0, 300, 0)),
        Vector3 { x: whole(0), y: whole(0), z: raw(NAN_RAW) }
    );
}

#[test]
fn norm_of_three_four_twelve() {
    assert_eq!(vec(3, 4, 0).norm(), whole(5));
    assert_eq!(vec(3, -4, 12).norm(), whole(13));
    assert_eq!(vec(0, 0, 0).norm(), whole(0));
    assert_eq!(vec(1, 1, 1).norm(), raw(29058990));
}

#[test]
fn norm_is_rounded_down() {
    // sqrt(2) units is 1 unit
    assert_eq!(Vector3 { x: raw(1), y: raw(1), z: raw(0) }.norm(), raw(1));
    assert_eq!(Vector3 { x: raw(2), y: raw(2), z: raw(1) }.norm(), raw(3));
}

#[test]
fn norm_beyond_the_range_is_not_finite() {
    assert_eq!(vec(65536, 65536, 0).norm(), raw(NAN_RAW));
    assert_eq!(vec(65536, 0, 0).norm(), whole(65536));
    assert_eq!(nan_vec().norm(), raw(NAN_RAW));
}

#[test]
fn normalize_divides_by_the_norm() {
    assert_eq!(vec(0, 5, 0).normalize(), vec(0, 1, 0));
    assert_eq!(
        vec(3, 4, 0).normalize(),
        Vector3 { x: raw(3 * ONE_RAW / 5), y: raw(4 * ONE_RAW / 5), z: raw(0) }
    );
    assert_eq!(
        vec(-3, 0, 4).normalize(),
        Vector3 { x: raw(-3 * ONE_RAW / 5), y: raw(0), z: raw(4 * ONE_RAW / 5) }
    );
}

#[test]
fn normalize_of_the_zero_vector_is_not_finite() {
    assert_eq!(vec(0, 0, 0).normalize(), nan_vec());
}

#[test]
fn vector_sum_difference_scale_and_dot() {
    assert_eq!(vec(1, 2, 3).add(vec(10, 20, 30)), vec(11, 22, 33));
    assert_eq!(vec(1, 2, 3).sub(vec(10, 20, 30)), vec(-9, -18, -27));
    assert_eq!(vec(1, 2, 3).neg(), vec(-1, -2, -3));
    assert_eq!(vec(1, 2, 3).scale(&whole(-2)), vec(-2, -4, -6));
    assert_eq!(vec(1, 2, 3).dot(&vec(4, -5, 6)), whole(12));
    assert_eq!(vec(1, 2, 3).dot(&nan_vec()), raw(NAN_RAW));
    assert!(vec(1, 2, 3).finite());
    assert!(!nan_vec().finite());
}

#[test]
fn direction_operations_are_those_of_vectors() {
    let a = Direction { x: whole(1), y: whole(2), z: whole(3) };
    let b = Direction { x: whole(4), y: whole(5), z: whole(6) };
    assert_eq!(a.cross(&b), Direction { x: whole(-3), y: whole(6), z: whole(-3) });
    assert_eq!(Direction { x: whole(3), y: whole(4), z: whole(0) }.norm(), whole(5));
    assert_eq!(
        Direction { x: whole(0), y: whole(0), z: whole(-2) }.normalize(),
        Direction { x: whole(0), y: whole(0), z: whole(-1) }
    );
    assert_eq!(a.add(b), Direction { x: whole(5), y: whole(7), z: whole(9) });
    assert_eq!(a.sub(b), Direction { x: whole(-3), y: whole(-3), z: whole(-3) });
    assert_eq!(a.neg(), Direction { x: whole(-1), y: whole(-2), z: whole(-3) });
    assert_eq!(a.scale(&whole(2)), Direction { x: whole(2), y: whole(4), z: whole(6) });
    assert_eq!(a.to_vector(), vec(1, 2, 3));
    assert_eq!(Direction::from_vector(&vec(1, 2, 3)), a);
}

#[test]
fn point_operations() {
    let p = Point { x: whole(3), y: whole(4), z: whole(0) };
    assert_eq!(p.norm(), whole(5));
    assert_eq!(
        p.normalize(),
        Point { x: raw(3 * ONE_RAW / 5), y: raw(4 * ONE_RAW / 5), z: raw(0) }
    );
    assert_eq!(p.neg(), Point { x: whole(-3), y: whole(-4), z: whole(0) });
    assert_eq!(p.scale(&whole(3)), Point { x: whole(9), y: whole(12), z: whole(0) });
    let q = Point { x: whole(1), y: whole(1), z: whole(1) };
    assert_eq!(p.displacement_from(&q), Direction { x: whole(2), y: whole(3), z: whole(-1) });
    assert_eq!(p.to_vector(), vec(3, 4, 0));
    assert_eq!(Point::from_vector(&vec(3, 4, 0)), p);
}

#[test]
fn points_and_directions_convert_into_each_other() {
    let p = Point { x: whole(1), y: whole(2), z: whole(3) };
    let d: Direction = p.into();
    assert_eq!(d, Direction { x: whole(1), y: whole(2), z: whole(3) });
    let back: Point = Point::from(d);
    assert_eq!(back, p);
}
