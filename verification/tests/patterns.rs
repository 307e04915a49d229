//! The space-mapped color rules.

use rustic_ray::patterns::Checkers;
use rustic_ray::patterns::Gradient;
use rustic_ray::patterns::Ring;
use rustic_ray::patterns::Stripe;
use rustic_ray::patterns::Pattern;
use rustic_ray::Color;
use rustic_ray::Colors;
use rustic_ray::Fx;
use rustic_ray::Material;
use rustic_ray::Matrix;
use rustic_ray::Point;
use rustic_ray::PointLight;
use rustic_ray::Vector;

fn fx(i: i64) -> Fx {
    Fx::from_int(i)
}

fn fr(raw: i64) -> Fx {
    Fx { raw }
}

fn point(x: i64, y: i64, z: i64) -> Point {
    Point::new(fx(x), fx(y), fx(z))
}

#[test]
fn a_stripe_pattern_is_constant_in_y_and_z() {
    let p = Stripe::new(Colors::white(), Colors::black());
    assert!(p.pattern_at(point(0, 0, 0)).approx_eq(Colors::white()));
    assert!(p.pattern_at(point(0, 1, 0)).approx_eq(Colors::white()));
    assert!(p.pattern_at(point(0, 0, 2)).approx_eq(Colors::white()));
}

#[test]
fn a_gradient_linearly_interpolates_between_colors() {
    let p = Gradient::new(Colors::white(), Colors::black());
    assert!(p.pattern_at(point(0, 0, 0)).approx_eq(Colors::white()));
    let quarter = p.pattern_at(Point::new(fr(25000), Fx::zero(), Fx::zero()));
    assert!(quarter.approx_eq(Color::new(fr(75000), fr(75000), fr(75000))));
    let half = p.pattern_at(Point::new(fr(50000), Fx::zero(), Fx::zero()));
    assert!(half.approx_eq(Color::new(fr(50000), fr(50000), fr(50000))));
    let three_quarters = p.pattern_at(Point::new(fr(75000), Fx::zero(), Fx::zero()));
    assert!(three_quarters.approx_eq(Color::new(fr(25000), fr(25000), fr(25000))));
}

#[test]
fn a_ring_extends_in_both_x_and_z() {
    let p = Ring::new(Colors::white(), Colors::black());
    assert!(p.pattern_at(point(0, 0, 0)).approx_eq(Colors::white()));
    assert!(p.pattern_at(point(1, 0, 0)).approx_eq(Colors::black()));
    assert!(p.pattern_at(point(0, 0, 1)).approx_eq(Colors::black()));
    let both = p.pattern_at(Point::new(fr(70800), Fx::zero(), fr(70800)));
    assert!(both.approx_eq(Colors::black()));
}

#[test]
fn checkers_repeat_in_each_dimension() {
    let p = Checkers::new(Colors::white(), Colors::black());
    assert!(p.pattern_at(point(0, 0, 0)).approx_eq(Colors::white()));
    assert!(p.pattern_at(Point::new(fr(99000), Fx::zero(), Fx::zero())).approx_eq(Colors::white()));
    assert!(p.pattern_at(Point::new(fr(101000), Fx::zero(), Fx::zero())).approx_eq(Colors::black()));
    assert!(p.pattern_at(Point::new(Fx::zero(), fr(101000), Fx::zero())).approx_eq(Colors::black()));
    assert!(p.pattern_at(Point::new(Fx::zero(), Fx::zero(), fr(101000))).approx_eq(Colors::black()));
}

#[test]
fn lighting_uses_the_pattern_when_one_is_set() {
    let mut m = Material::new();
    m.pattern = Some(Pattern::Stripe(Stripe::new(Colors::white(), Colors::black())));
    m.ambient = Fx::one();
    m.diffuse = Fx::zero();
    m.specular = Fx::zero();
    let ot = Matrix::identity();
    let light = PointLight::new(point(0, 0, -10), Colors::white());
    let eyev = Vector::new(Fx::zero(), Fx::zero(), Fx::one().neg());
    let normalv = Vector::new(Fx::zero(), Fx::zero(), Fx::one().neg());
    let c1 = m.lighting(&ot, light, Point::new(fr(90000), Fx::zero(), Fx::zero()), eyev, normalv, false);
    let c2 = m.lighting(&ot, light, Point::new(fr(110000), Fx::zero(), Fx::zero()), eyev, normalv, false);
    assert!(c1.approx_eq(Colors::white()));
    assert!(c2.approx_eq(Colors::black()));
}
