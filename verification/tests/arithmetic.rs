//! The fixed-point scalars, points, vectors and colors.

use rustic_ray::Color;
use rustic_ray::Fx;
use rustic_ray::Point;
use rustic_ray::Vector;
use rustic_ray::SCALE;

fn fx(i: i64) -> Fx {
    Fx::from_int(i)
}

fn fr(raw: i64) -> Fx {
    Fx { raw }
}

fn point(x: i64, y: i64, z: i64) -> Point {
    Point::new(fx(x), fx(y), fx(z))
}

fn vector(x: i64, y: i64, z: i64) -> Vector {
    Vector::new(fx(x), fx(y), fx(z))
}

#[test]
fn scalar_arithmetic_is_exact_on_whole_units() {
    assert_eq!(fx(2).add(fx(3)).raw, 5 * SCALE);
    assert_eq!(fx(2).sub(fx(3)).raw, -SCALE);
    assert_eq!(fx(2).mul(fx(3)).raw, 6 * SCALE);
    assert_eq!(fx(6).div(fx(3)).raw, 2 * SCALE);
    assert_eq!(fx(-7).abs().raw, 7 * SCALE);
}

#[test]
fn scalar_square_root() {
    assert_eq!(fx(4).sqrt().raw, 2 * SCALE);
    assert_eq!(fx(9).sqrt().raw, 3 * SCALE);
    // The square root of 2 truncates to five decimal places.
    assert_eq!(fx(2).sqrt().raw, 141421);
}

#[test]
fn scalar_power() {
    assert_eq!(fr(50000).powi(2).raw, 25000);
    assert_eq!(fx(2).powi(10).raw, 1024 * SCALE);
    assert_eq!(fx(3).powi(0).raw, SCALE);
}

#[test]
fn create_point() {
    let p = point(1, 2, 3);
    assert_eq!(p.x.raw, SCALE);
    assert_eq!(p.y.raw, 2 * SCALE);
    assert_eq!(p.z.raw, 3 * SCALE);
}

#[test]
fn adding_vector_to_point_returns_a_point() {
    let p = point(3, -2, 5);
    let v = vector(-2, 3, 1);
    assert!(p.add(v).approx_eq(point(1, 1, 6)));
}

#[test]
fn subtracting_two_points() {
    let p1 = point(3, 2, 1);
    let p2 = point(5, 6, 7);
    assert!(p1.sub(p2).approx_eq(vector(-2, -4, -6)));
}

#[test]
fn subtracting_a_vector_from_point() {
    let p = point(3, 2, 1);
    let v = vector(5, 6, 7);
    assert!(p.sub_vec(v).approx_eq(point(-2, -4, -6)));
}

#[test]
fn negating_vector() {
    assert!(vector(1, -2, 3).neg().approx_eq(vector(-1, 2, -3)));
}

#[test]
fn magnitude_of_vector() {
    assert_eq!(vector(1, 0, 0).magnitude().raw, SCALE);
    assert_eq!(vector(0, 1, 0).magnitude().raw, SCALE);
    // The length of (1, 2, 3) is the square root of 14.
    let m = vector(1, 2, 3).magnitude();
    assert!(m.approx_eq(fr(374165)));
}

#[test]
fn normalizing_vector() {
    let v = vector(4, 0, 0);
    assert!(v.normalize().approx_eq(vector(1, 0, 0)));
    let n = vector(1, 2, 3).normalize();
    // 1/sqrt(14), 2/sqrt(14), 3/sqrt(14)
    assert!(n.approx_eq(Vector::new(fr(26726), fr(53452), fr(80178))));
}

#[test]
fn dot_product_of_two_vectors() {
    let a = vector(1, 2, 3);
    let b = vector(2, 3, 4);
    assert_eq!(a.dot(b).raw, 20 * SCALE);
}

#[test]
fn cross_product_of_two_vectors() {
    let a = vector(1, 2, 3);
    let b = vector(2, 3, 4);
    assert!(a.cross(b).approx_eq(vector(-1, 2, -1)));
    assert!(b.cross(a).approx_eq(vector(1, -2, 1)));
}

#[test]
fn reflecting_vector_approaching_at_45_degrees() {
    let v = Vector::new(fx(1), fx(-1), fx(0));
    let n = vector(0, 1, 0);
    assert!(v.reflect(n).approx_eq(vector(1, 1, 0)));
}

#[test]
fn reflecting_vector_off_slanted_surface() {
    let v = vector(0, -1, 0);
    let s = fx(2).sqrt().div(fx(2));
    let n = Vector::new(s, s, Fx::zero());
    assert!(v.reflect(n).approx_eq(vector(1, 0, 0)));
}

#[test]
fn adding_colors() {
    let c1 = Color::new(fr(90000), fr(60000), fr(75000));
    let c2 = Color::new(fr(70000), fr(10000), fr(25000));
    assert!(c1.add(c2).approx_eq(Color::new(fr(160000), fr(70000), fr(100000))));
}

#[test]
fn multiplying_colors() {
    let c1 = Color::new(fx(1), fr(20000), fr(40000));
    let c2 = Color::new(fr(90000), fx(1), fr(10000));
    assert!(c1.mul(c2).approx_eq(Color::new(fr(90000), fr(20000), fr(4000))));
}

#[test]
fn multiplying_color_by_scalar() {
    let c = Color::new(fr(20000), fr(30000), fr(40000));
    assert!(c.mul_s(fx(2)).approx_eq(Color::new(fr(40000), fr(60000), fr(80000))));
}
