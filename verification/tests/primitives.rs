//! Rays against the primitive shapes, each in its own object space.

use rustic_ray::shapes::Cone;
use rustic_ray::shapes::Cube;
use rustic_ray::shapes::Cylinder;
use rustic_ray::shapes::Plane;
use rustic_ray::shapes::Shape;
use rustic_ray::shapes::Sphere;
use rustic_ray::shapes::Triangle;
use rustic_ray::Fx;
use rustic_ray::Point;
use rustic_ray::Ray;
use rustic_ray::Transformation;
use rustic_ray::Vector;
use rustic_ray::SCALE;

fn fx(i: i64) -> Fx {
    Fx::from_int(i)
}

fn point(x: i64, y: i64, z: i64) -> Point {
    Point::new(fx(x), fx(y), fx(z))
}

fn vector(x: i64, y: i64, z: i64) -> Vector {
    Vector::new(fx(x), fx(y), fx(z))
}

#[test]
fn a_ray_intersects_a_sphere_at_two_points() {
    let r = Ray::new(point(0, 0, -5), vector(0, 0, 1));
    let s = Shape::Sphere(Sphere::new());
    let xs = s.intersect(&r).expect("two meetings expected");
    assert_eq!(xs.len(), 2);
    assert_eq!(xs[0].t.raw, 4 * SCALE);
    assert_eq!(xs[1].t.raw, 6 * SCALE);
}

#[test]
fn a_ray_intersects_a_sphere_at_a_tangent() {
    let r = Ray::new(point(0, 1, -5), vector(0, 0, 1));
    let s = Shape::Sphere(Sphere::new());
    let xs = s.intersect(&r).expect("a tangent meeting expected");
    assert_eq!(xs.len(), 2);
    assert_eq!(xs[0].t.raw, 5 * SCALE);
    assert_eq!(xs[1].t.raw, 5 * SCALE);
}

#[test]
fn a_ray_misses_a_sphere() {
    let r = Ray::new(point(0, 2, -5), vector(0, 0, 1));
    let s = Shape::Sphere(Sphere::new());
    assert!(s.intersect(&r).is_none());
}

#[test]
fn a_ray_originates_inside_a_sphere() {
    let r = Ray::new(point(0, 0, 0), vector(0, 0, 1));
    let s = Shape::Sphere(Sphere::new());
    let xs = s.intersect(&r).expect("meetings expected");
    assert_eq!(xs[0].t.raw, -SCALE);
    assert_eq!(xs[1].t.raw, SCALE);
}

#[test]
fn intersecting_a_scaled_sphere_with_a_ray() {
    let r = Ray::new(point(0, 0, -5), vector(0, 0, 1));
    let mut s = Shape::Sphere(Sphere::new());
    s.set_transform(Transformation::new().scale(fx(2), fx(2), fx(2)).build());
    let xs = s.intersect(&r).expect("meetings expected");
    assert_eq!(xs.len(), 2);
    assert_eq!(xs[0].t.raw, 3 * SCALE);
    assert_eq!(xs[1].t.raw, 7 * SCALE);
}

#[test]
fn intersecting_a_translated_sphere_with_a_ray() {
    let r = Ray::new(point(0, 0, -5), vector(0, 0, 1));
    let mut s = Shape::Sphere(Sphere::new());
    s.set_transform(Transformation::new().translate(fx(5), fx(0), fx(0)).build());
    assert!(s.intersect(&r).is_none());
}

#[test]
fn the_normal_on_a_sphere_at_a_point_on_an_axis() {
    let s = Shape::Sphere(Sphere::new());
    let n = s.normal_at(point(1, 0, 0), None, None);
    assert!(n.approx_eq(vector(1, 0, 0)));
    let n2 = s.normal_at(point(0, 1, 0), None, None);
    assert!(n2.approx_eq(vector(0, 1, 0)));
}

#[test]
fn the_normal_on_a_translated_sphere() {
    let mut s = Shape::Sphere(Sphere::new());
    s.set_transform(Transformation::new().translate(fx(0), fx(1), fx(0)).build());
    let n = s.normal_at(Point::new(Fx::zero(), Fx { raw: 170711 }, Fx { raw: -70711 }), None, None);
    assert!(n.approx_eq(Vector::new(Fx::zero(), Fx { raw: 70711 }, Fx { raw: -70711 })));
}

#[test]
fn intersect_with_a_ray_parallel_to_the_plane() {
    let p = Shape::Plane(Plane::new());
    let r = Ray::new(point(0, 10, 0), vector(0, 0, 1));
    assert!(p.intersect(&r).is_none());
}

#[test]
fn a_ray_intersecting_a_plane_from_above() {
    let p = Shape::Plane(Plane::new());
    let r = Ray::new(point(0, 1, 0), vector(0, -1, 0));
    let xs = p.intersect(&r).expect("one meeting expected");
    assert_eq!(xs.len(), 1);
    assert_eq!(xs[0].t.raw, SCALE);
}

#[test]
fn the_normal_of_a_plane_is_constant_everywhere() {
    let p = Shape::Plane(Plane::new());
    assert!(p.normal_at(point(0, 0, 0), None, None).approx_eq(vector(0, 1, 0)));
    assert!(p.normal_at(point(10, 0, -10), None, None).approx_eq(vector(0, 1, 0)));
}

#[test]
fn a_ray_intersects_a_cube() {
    let c = Shape::Cube(Cube::new());
    let r = Ray::new(point(5, 0, 0), vector(-1, 0, 0));
    let xs = c.intersect(&r).expect("meetings expected");
    assert_eq!(xs[0].t.raw, 4 * SCALE);
    assert_eq!(xs[1].t.raw, 6 * SCALE);
    let r2 = Ray::new(point(0, 0, 0), vector(0, 0, 1));
    let xs2 = c.intersect(&r2).expect("meetings expected");
    assert_eq!(xs2[0].t.raw, -SCALE);
    assert_eq!(xs2[1].t.raw, SCALE);
}

#[test]
fn a_ray_misses_a_cube() {
    let c = Shape::Cube(Cube::new());
    let r = Ray::new(point(2, 2, 0), vector(0, -1, 0));
    assert!(c.intersect(&r).is_none());
}

#[test]
fn the_normal_on_the_surface_of_a_cube() {
    let c = Shape::Cube(Cube::new());
    let n = c.normal_at(Point::new(Fx::one(), Fx { raw: 50000 }, Fx { raw: -80000 }), None, None);
    assert!(n.approx_eq(vector(1, 0, 0)));
    let n2 = c.normal_at(Point::new(Fx { raw: -100000 }, Fx { raw: -20000 }, Fx { raw: 90000 }), None, None);
    assert!(n2.approx_eq(vector(-1, 0, 0)));
}

#[test]
fn a_ray_misses_a_cylinder() {
    let c = Shape::Cylinder(Cylinder::new());
    let r = Ray::new(point(1, 0, 0), vector(0, 1, 0));
    assert!(c.intersect(&r).is_none());
}

#[test]
fn a_ray_strikes_a_cylinder() {
    let c = Shape::Cylinder(Cylinder::new());
    let r = Ray::new(point(0, 0, -5), vector(0, 0, 1));
    let xs = c.intersect(&r).expect("meetings expected");
    assert_eq!(xs.len(), 2);
    assert_eq!(xs[0].t.raw, 4 * SCALE);
    assert_eq!(xs[1].t.raw, 6 * SCALE);
}

#[test]
fn the_normal_on_the_wall_of_a_cylinder() {
    let c = Shape::Cylinder(Cylinder::new());
    assert!(c.normal_at(point(1, 0, 0), None, None).approx_eq(vector(1, 0, 0)));
    assert!(c.normal_at(point(0, 5, -1), None, None).approx_eq(vector(0, 0, -1)));
}

#[test]
fn intersecting_a_constrained_cylinder() {
    let mut cy = Cylinder::new();
    cy.minimum = fx(1);
    cy.maximum = fx(2);
    let c = Shape::Cylinder(cy);
    let d = Vector::new(Fx { raw: 10000 }, Fx::one(), Fx::zero()).normalize();
    let r = Ray::new(Point::new(Fx::zero(), Fx { raw: 150000 }, Fx::zero()), d);
    assert!(c.intersect(&r).is_none());
    let r2 = Ray::new(point(0, 3, -5), vector(0, 0, 1));
    assert!(c.intersect(&r2).is_none());
}

#[test]
fn the_caps_of_a_closed_cylinder_are_intersected() {
    let mut cy = Cylinder::new();
    cy.minimum = fx(1);
    cy.maximum = fx(2);
    cy.closed = true;
    let c = Shape::Cylinder(cy);
    let r = Ray::new(point(0, 3, 0), vector(0, -1, 0));
    let xs = c.intersect(&r).expect("cap meetings expected");
    assert_eq!(xs.len(), 2);
}

#[test]
fn intersecting_a_cone_with_a_ray_through_the_tip_axis() {
    let c = Shape::Cone(Cone::new());
    let r = Ray::new(point(0, 0, -5), vector(0, 0, 1));
    let xs = c.intersect(&r).expect("meetings expected");
    assert_eq!(xs.len(), 2);
    assert_eq!(xs[0].t.raw, 5 * SCALE);
    assert_eq!(xs[1].t.raw, 5 * SCALE);
}

#[test]
fn intersecting_a_cone_with_a_ray_parallel_to_one_half() {
    let c = Shape::Cone(Cone::new());
    let d = vector(0, 1, 1).normalize();
    let r = Ray::new(point(0, 0, -1), d);
    let xs = c.intersect(&r).expect("one wall meeting expected");
    assert_eq!(xs.len(), 1);
    // The single linear-equation root lies at about 0.35355.
    assert!(xs[0].t.approx_eq(Fx { raw: 35355 }));
}

#[test]
fn a_ray_strikes_a_triangle() {
    let t = Triangle::new(point(0, 1, 0), point(-1, 0, 0), point(1, 0, 0));
    let s = Shape::Triangle(t);
    let r = Ray::new(Point::new(Fx::zero(), Fx { raw: 50000 }, fx(-2)), vector(0, 0, 1));
    let xs = s.intersect(&r).expect("one meeting expected");
    assert_eq!(xs.len(), 1);
    assert_eq!(xs[0].t.raw, 2 * SCALE);
}

#[test]
fn a_ray_misses_a_triangle_beyond_its_edges() {
    let t = Triangle::new(point(0, 1, 0), point(-1, 0, 0), point(1, 0, 0));
    let s = Shape::Triangle(t);
    let r = Ray::new(point(1, 1, -2), vector(0, 0, 1));
    assert!(s.intersect(&r).is_none());
    let r2 = Ray::new(point(0, -1, -2), vector(0, 0, 1));
    assert!(s.intersect(&r2).is_none());
}

#[test]
fn a_ray_parallel_to_the_triangle_misses() {
    let t = Triangle::new(point(0, 1, 0), point(-1, 0, 0), point(1, 0, 0));
    let s = Shape::Triangle(t);
    let r = Ray::new(point(0, -1, -2), vector(0, 1, 0));
    assert!(s.intersect(&r).is_none());
}

#[test]
fn an_intersection_with_a_smooth_triangle_stores_uv() {
    let t = Triangle::smooth_triangle(
        point(0, 1, 0),
        point(-1, 0, 0),
        point(1, 0, 0),
        vector(0, 1, 0),
        vector(-1, 0, 0),
        vector(1, 0, 0),
    );
    let s = Shape::Triangle(t);
    let r = Ray::new(Point::new(Fx { raw: -20000 }, Fx { raw: 30000 }, fx(-2)), vector(0, 0, 1));
    let xs = s.intersect(&r).expect("one meeting expected");
    let u = xs[0].u.expect("u stored");
    let v = xs[0].v.expect("v stored");
    assert!(u.approx_eq(Fx { raw: 45000 }));
    assert!(v.approx_eq(Fx { raw: 25000 }));
}

#[test]
fn a_smooth_triangle_interpolates_its_normal_from_uv() {
    let t = Triangle::smooth_triangle(
        point(0, 1, 0),
        point(-1, 0, 0),
        point(1, 0, 0),
        vector(0, 1, 0),
        vector(-1, 0, 0),
        vector(1, 0, 0),
    );
    let s = Shape::Triangle(t);
    let r = Ray::new(Point::new(Fx { raw: -20000 }, Fx { raw: 30000 }, fx(-2)), vector(0, 0, 1));
    let xs = s.intersect(&r).expect("one meeting expected");
    let n = s.normal_at(point(0, 0, 0), Some(&xs[0]), None);
    assert!(n.approx_eq(Vector::new(Fx { raw: -55470 }, Fx { raw: 83205 }, Fx::zero())));
}
