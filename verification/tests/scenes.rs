//! Intersections, hit selection, groups, set combinations and the shader.

use rustic_ray::patterns::Stripe;
use rustic_ray::patterns::Pattern;
use rustic_ray::shapes::CsgOperation;
use rustic_ray::shapes::Group;
use rustic_ray::shapes::Plane;
use rustic_ray::shapes::Shape;
use rustic_ray::shapes::Sphere;
use rustic_ray::shapes::CSG;
use rustic_ray::Color;
use rustic_ray::Colors;
use rustic_ray::Fx;
use rustic_ray::Intersection;
use rustic_ray::Material;
use rustic_ray::Point;
use rustic_ray::PointLight;
use rustic_ray::Ray;
use rustic_ray::Transformation;
use rustic_ray::Vector;
use rustic_ray::World;
use rustic_ray::SCALE;

fn fx(i: i64) -> Fx {
    Fx::from_int(i)
}

fn point(x: i64, y: i64, z: i64) -> Point {
    Point::new(fx(x), fx(y), fx(z))
}

fn vector(x: i64, y: i64, z: i64) -> Vector {
    Vector::new(fx(x), fx(y), fx(z))
}

fn glass_sphere() -> Sphere {
    let mut s = Sphere::new();
    s.material.transparency = Fx::one();
    s.material.refractive_index = Fx { raw: 150000 };
    s
}

#[test]
fn the_hit_when_all_intersections_have_positive_t() {
    let s = Shape::Sphere(Sphere::new());
    let xs = vec![Intersection::new(fx(2), &s), Intersection::new(fx(1), &s)];
    let i = Intersection::hit(&xs).expect("a visible meeting expected");
    assert_eq!(i.t.raw, SCALE);
}

#[test]
fn the_hit_when_some_intersections_have_negative_t() {
    let s = Shape::Sphere(Sphere::new());
    let xs = vec![Intersection::new(fx(1), &s), Intersection::new(fx(-1), &s)];
    let i = Intersection::hit(&xs).expect("a visible meeting expected");
    assert_eq!(i.t.raw, SCALE);
}

#[test]
fn the_hit_when_all_intersections_have_negative_t() {
    let s = Shape::Sphere(Sphere::new());
    let xs = vec![Intersection::new(fx(-2), &s), Intersection::new(fx(-1), &s)];
    assert!(Intersection::hit(&xs).is_none());
}

#[test]
fn the_hit_is_the_lowest_nonnegative_intersection() {
    let s = Shape::Sphere(Sphere::new());
    let xs = vec![
        Intersection::new(fx(5), &s),
        Intersection::new(fx(7), &s),
        Intersection::new(fx(-3), &s),
        Intersection::new(fx(2), &s),
    ];
    let i = Intersection::hit(&xs).expect("a visible meeting expected");
    assert_eq!(i.t.raw, 2 * SCALE);
}

#[test]
fn precomputing_the_state_of_an_intersection() {
    let r = Ray::new(point(0, 0, -5), vector(0, 0, 1));
    let s = Shape::Sphere(Sphere::new());
    let xs = s.intersect(&r).expect("meetings expected");
    let comps = xs[0].prepare_computations(&r, &xs, None);
    assert_eq!(comps.t.raw, 4 * SCALE);
    assert!(comps.point.approx_eq(point(0, 0, -1)));
    assert!(comps.eyev.approx_eq(vector(0, 0, -1)));
    assert!(comps.normalv.approx_eq(vector(0, 0, -1)));
    assert!(!comps.inside);
}

#[test]
fn the_hit_when_an_intersection_occurs_on_the_inside() {
    let r = Ray::new(point(0, 0, 0), vector(0, 0, 1));
    let s = Shape::Sphere(Sphere::new());
    let xs = s.intersect(&r).expect("meetings expected");
    let comps = xs[1].prepare_computations(&r, &xs, None);
    assert!(comps.inside);
    assert!(comps.normalv.approx_eq(vector(0, 0, -1)));
}

#[test]
fn the_over_point_lies_above_the_surface() {
    let r = Ray::new(point(0, 0, -5), vector(0, 0, 1));
    let mut s = Shape::Sphere(Sphere::new());
    s.set_transform(Transformation::new().translate(fx(0), fx(0), fx(1)).build());
    let xs = s.intersect(&r).expect("meetings expected");
    let comps = xs[0].prepare_computations(&r, &xs, None);
    assert!(comps.over_point.z.raw < comps.point.z.raw);
    assert!(comps.under_point.z.raw > comps.point.z.raw);
}

#[test]
fn intersecting_a_ray_with_a_nonempty_group() {
    let mut g = Group::new();
    let s1 = Sphere::new();
    let mut s2 = Sphere::new();
    s2.transform = Transformation::new().translate(fx(0), fx(0), fx(-3)).build();
    let mut s3 = Sphere::new();
    s3.transform = Transformation::new().translate(fx(5), fx(0), fx(0)).build();
    let id1 = s1.id;
    let id2 = s2.id;
    g.add_object(Shape::Sphere(s1));
    g.add_object(Shape::Sphere(s2));
    g.add_object(Shape::Sphere(s3));
    let gs = Shape::Group(g);
    let r = Ray::new(point(0, 0, -5), vector(0, 0, 1));
    let xs = gs.intersect(&r).expect("meetings expected");
    assert_eq!(xs.len(), 4);
    assert!(uuid_eq(xs[0].object.id(), id2));
    assert!(uuid_eq(xs[1].object.id(), id2));
    assert!(uuid_eq(xs[2].object.id(), id1));
    assert!(uuid_eq(xs[3].object.id(), id1));
}

fn uuid_eq(a: uuid::Uuid, b: uuid::Uuid) -> bool {
    a == b
}

#[test]
fn intersecting_a_transformed_group() {
    let mut g = Group::new();
    g.transform = Transformation::new().scale(fx(2), fx(2), fx(2)).build();
    let mut s = Sphere::new();
    s.transform = Transformation::new().translate(fx(5), fx(0), fx(0)).build();
    g.add_object(Shape::Sphere(s));
    let gs = Shape::Group(g);
    let r = Ray::new(point(10, 0, -10), vector(0, 0, 1));
    let xs = gs.intersect(&r).expect("meetings expected");
    assert_eq!(xs.len(), 2);
}

#[test]
fn converting_a_point_from_world_to_object_space() {
    let mut g1 = Group::new();
    g1.transform = Transformation::new().rotate_y(Fx::one(), Fx::zero()).build();
    let mut g2 = Group::new();
    g2.transform = Transformation::new().scale(fx(2), fx(2), fx(2)).build();
    let mut s = Sphere::new();
    s.transform = Transformation::new().translate(fx(5), fx(0), fx(0)).build();
    let s_id = s.id;
    g2.add_object(Shape::Sphere(s));
    g1.add_object(Shape::Group(g2));
    let mut w = World::new();
    w.add_object(Shape::Group(g1));
    let found = w.get_object_by_id(s_id).expect("the sphere is in the scene");
    let p = found.world_to_object(point(-2, 0, -10), &w);
    assert!(p.approx_eq(point(0, 0, -1)));
}

#[test]
fn finding_the_normal_on_a_child_object() {
    let mut g1 = Group::new();
    g1.transform = Transformation::new().rotate_y(Fx::one(), Fx::zero()).build();
    let mut g2 = Group::new();
    g2.transform = Transformation::new().scale(fx(1), fx(2), fx(3)).build();
    let mut s = Sphere::new();
    s.transform = Transformation::new().translate(fx(5), fx(0), fx(0)).build();
    let s_id = s.id;
    g2.add_object(Shape::Sphere(s));
    g1.add_object(Shape::Group(g2));
    let mut w = World::new();
    w.add_object(Shape::Group(g1));
    let found = w.get_object_by_id(s_id).expect("the sphere is in the scene");
    let n = found.normal_at(
        Point::new(Fx { raw: 173210 }, Fx { raw: 115470 }, Fx { raw: -557740 }),
        None,
        Some(&w),
    );
    assert!(n.approx_eq(Vector::new(Fx { raw: 28570 }, Fx { raw: 42860 }, Fx { raw: -85710 })));
}

#[test]
fn evaluating_the_rule_for_a_union_operation() {
    let rows: [(bool, bool, bool, bool); 8] = [
        (true, true, true, false),
        (true, true, false, true),
        (true, false, true, false),
        (true, false, false, true),
        (false, true, true, false),
        (false, true, false, false),
        (false, false, true, true),
        (false, false, false, true),
    ];
    for (lhit, inl, inr, expected) in rows {
        assert_eq!(CSG::intersection_allowed(CsgOperation::Union, lhit, inl, inr), expected);
    }
}

#[test]
fn evaluating_the_rule_for_an_intersection_operation() {
    let rows: [(bool, bool, bool, bool); 8] = [
        (true, true, true, true),
        (true, true, false, false),
        (true, false, true, true),
        (true, false, false, false),
        (false, true, true, true),
        (false, true, false, true),
        (false, false, true, false),
        (false, false, false, false),
    ];
    for (lhit, inl, inr, expected) in rows {
        assert_eq!(
            CSG::intersection_allowed(CsgOperation::Intersection, lhit, inl, inr),
            expected,
        );
    }
}

#[test]
fn evaluating_the_rule_for_a_difference_operation() {
    let rows: [(bool, bool, bool, bool); 8] = [
        (true, true, true, false),
        (true, true, false, true),
        (true, false, true, false),
        (true, false, false, true),
        (false, true, true, true),
        (false, true, false, true),
        (false, false, true, false),
        (false, false, false, false),
    ];
    for (lhit, inl, inr, expected) in rows {
        assert_eq!(CSG::intersection_allowed(CsgOperation::Difference, lhit, inl, inr), expected);
    }
}

#[test]
fn filtering_a_list_of_intersections() {
    let s1 = Shape::Sphere(Sphere::new());
    let s2 = Shape::Cube(rustic_ray::shapes::Cube::new());
    let cases: [(CsgOperation, usize, usize); 3] = [
        (CsgOperation::Union, 0, 3),
        (CsgOperation::Intersection, 1, 2),
        (CsgOperation::Difference, 0, 1),
    ];
    for (op, x0, x1) in cases {
        let c = CSG::new(op, Box::new(copy_primitive(&s1)), Box::new(copy_primitive(&s2)));
        let left = c.left.as_ref();
        let right = c.right.as_ref();
        let xs = vec![
            Intersection::new(fx(1), left),
            Intersection::new(fx(2), right),
            Intersection::new(fx(3), left),
            Intersection::new(fx(4), right),
        ];
        let result = c.filter_intersections(&xs);
        assert_eq!(result.len(), 2);
        assert_eq!(result[0].t.raw, xs[x0].t.raw);
        assert_eq!(result[1].t.raw, xs[x1].t.raw);
    }
}

fn copy_primitive(s: &Shape) -> Shape {
    match s {
        Shape::Sphere(sp) => Shape::Sphere(sp.clone()),
        Shape::Cube(c) => Shape::Cube(c.clone()),
        _ => panic!("only primitives are copied here"),
    }
}

#[test]
fn a_csg_union_keeps_the_outer_surfaces() {
    let s1 = Shape::Sphere(Sphere::new());
    let mut s2 = Sphere::new();
    s2.transform = Transformation::new().translate(fx(0), fx(0), Fx { raw: 50000 }).build();
    let c = Shape::Csg(CSG::new(CsgOperation::Union, Box::new(s1), Box::new(Shape::Sphere(s2))));
    let r = Ray::new(point(0, 0, -5), vector(0, 0, 1));
    let xs = c.intersect(&r).expect("meetings expected");
    assert_eq!(xs.len(), 2);
    assert_eq!(xs[0].t.raw, 4 * SCALE);
    assert_eq!(xs[1].t.raw, 650000);
}

#[test]
fn finding_the_refractive_indices_through_nested_glass_spheres() {
    let mut a = glass_sphere();
    a.transform = Transformation::new().scale(fx(2), fx(2), fx(2)).build();
    let mut b = glass_sphere();
    b.transform = Transformation::new().translate(fx(0), fx(0), Fx { raw: -25000 }).build();
    b.material.refractive_index = fx(2);
    let mut c = glass_sphere();
    c.transform = Transformation::new().translate(fx(0), fx(0), Fx { raw: 25000 }).build();
    c.material.refractive_index = Fx { raw: 250000 };
    let mut w = World::new();
    w.light = Some(PointLight::new(point(-10, 10, -10), Colors::white()));
    w.add_object(Shape::Sphere(a));
    w.add_object(Shape::Sphere(b));
    w.add_object(Shape::Sphere(c));
    let r = Ray::new(point(0, 0, -4), vector(0, 0, 1));
    let xs = w.intersect_world(&r).expect("six meetings expected");
    assert_eq!(xs.len(), 6);
    let expected: [(i64, i64); 6] = [
        (100000, 150000),
        (150000, 200000),
        (200000, 250000),
        (250000, 250000),
        (250000, 150000),
        (150000, 100000),
    ];
    let mut k = 0;
    while k < 6 {
        let comps = xs[k].prepare_computations(&r, &xs, Some(&w));
        assert_eq!(comps.n1.raw, expected[k].0);
        assert_eq!(comps.n2.raw, expected[k].1);
        k += 1;
    }
}

#[test]
fn schlick_under_total_internal_reflection_is_one() {
    let s = Shape::Sphere(glass_sphere());
    let h = fx(2).sqrt().div(fx(2));
    let r = Ray::new(Point::new(Fx::zero(), Fx::zero(), h), vector(0, 1, 0));
    let xs = s.intersect(&r).expect("meetings expected");
    let comps = xs[1].prepare_computations(&r, &xs, None);
    let reflectance = comps.schlick();
    assert_eq!(reflectance.raw, SCALE);
}

#[test]
fn schlick_for_a_perpendicular_ray_is_small() {
    let s = Shape::Sphere(glass_sphere());
    let r = Ray::new(point(0, 0, 0), vector(0, 1, 0));
    let xs = s.intersect(&r).expect("meetings expected");
    let comps = xs[1].prepare_computations(&r, &xs, None);
    let reflectance = comps.schlick();
    assert!(reflectance.approx_eq(Fx { raw: 4000 }));
}

#[test]
fn lighting_with_the_eye_between_light_and_surface() {
    let m = Material::new();
    let ot = rustic_ray::Matrix::identity();
    let light = PointLight::new(point(0, 0, -10), Colors::white());
    let result = m.lighting(&ot, light, point(0, 0, 0), vector(0, 0, -1), vector(0, 0, -1), false);
    assert!(result.approx_eq(Color::new(Fx { raw: 190000 }, Fx { raw: 190000 }, Fx { raw: 190000 })));
}

#[test]
fn lighting_with_the_surface_in_shadow() {
    let m = Material::new();
    let ot = rustic_ray::Matrix::identity();
    let light = PointLight::new(point(0, 0, -10), Colors::white());
    let result = m.lighting(&ot, light, point(0, 0, 0), vector(0, 0, -1), vector(0, 0, -1), true);
    assert!(result.approx_eq(Color::new(Fx { raw: 10000 }, Fx { raw: 10000 }, Fx { raw: 10000 })));
}

#[test]
fn a_stripe_pattern_alternates_in_x() {
    let p = Stripe::new(Colors::white(), Colors::black());
    assert!(p.pattern_at(point(0, 0, 0)).approx_eq(Colors::white()));
    assert!(p.pattern_at(Point::new(Fx { raw: 90000 }, Fx::zero(), Fx::zero())).approx_eq(Colors::white()));
    assert!(p.pattern_at(point(1, 0, 0)).approx_eq(Colors::black()));
    assert!(p.pattern_at(point(-1, 0, 0)).approx_eq(Colors::black()));
    assert!(p.pattern_at(point(-2, 0, 0)).approx_eq(Colors::white()));
}

#[test]
fn a_pattern_respects_the_object_transformation() {
    let mut object = Sphere::new();
    object.transform = Transformation::new().scale(fx(2), fx(2), fx(2)).build();
    let p = Pattern::Stripe(Stripe::new(Colors::white(), Colors::black()));
    let c = p.pattern_at_shape(&object.transform, Point::new(Fx { raw: 150000 }, Fx::zero(), Fx::zero()));
    assert!(c.approx_eq(Colors::white()));
}

#[test]
fn shading_an_intersection_in_the_default_world() {
    let w = World::default_world();
    let r = Ray::new(point(0, 0, -5), vector(0, 0, 1));
    let xs = w.intersect_world(&r).expect("meetings expected");
    let i = Intersection::hit(&xs).expect("a visible meeting expected");
    let comps = i.prepare_computations(&r, &xs, Some(&w));
    let c = w.shade_hit(&comps, 5);
    assert!(c.approx_eq(Color::new(Fx { raw: 38066 }, Fx { raw: 47583 }, Fx { raw: 28550 })));
}

#[test]
fn the_color_when_a_ray_misses() {
    let w = World::default_world();
    let r = Ray::new(point(0, 0, -5), vector(0, 1, 0));
    let c = w.color_at(&r, 5);
    assert!(c.approx_eq(Colors::black()));
}

#[test]
fn the_color_when_a_ray_hits() {
    let w = World::default_world();
    let r = Ray::new(point(0, 0, -5), vector(0, 0, 1));
    let c = w.color_at(&r, 5);
    assert!(c.approx_eq(Color::new(Fx { raw: 38066 }, Fx { raw: 47583 }, Fx { raw: 28550 })));
}

#[test]
fn there_is_no_shadow_when_nothing_blocks_the_light() {
    let w = World::default_world();
    assert!(!w.is_shadow(point(0, 10, 0)));
}

#[test]
fn there_is_a_shadow_when_an_object_is_between_point_and_light() {
    let w = World::default_world();
    assert!(w.is_shadow(point(10, -10, 10)));
}

#[test]
fn there_is_no_shadow_when_the_object_is_behind_the_light() {
    let w = World::default_world();
    assert!(!w.is_shadow(point(-20, 20, -20)));
}

#[test]
fn the_reflected_color_at_the_recursion_limit_is_black() {
    let mut w = World::default_world();
    let mut shape = Plane::new();
    shape.material.reflective = Fx { raw: 50000 };
    shape.transform = Transformation::new().translate(fx(0), fx(-1), fx(0)).build();
    w.add_object(Shape::Plane(shape));
    let h = fx(2).sqrt().div(fx(2));
    let r = Ray::new(point(0, 0, -3), Vector::new(Fx::zero(), h.neg(), h));
    let xs = w.intersect_world(&r).expect("meetings expected");
    let i = Intersection::hit(&xs).expect("a visible meeting expected");
    let comps = i.prepare_computations(&r, &xs, Some(&w));
    let c = w.reflected_color(&comps, 0);
    assert!(c.approx_eq(Colors::black()));
    assert_eq!(c.red.raw, 0);
    assert_eq!(c.green.raw, 0);
    assert_eq!(c.blue.raw, 0);
}

#[test]
fn the_reflected_color_for_a_nonreflective_material_is_black() {
    let w = World::default_world();
    let r = Ray::new(point(0, 0, 0), vector(0, 0, 1));
    let xs = w.intersect_world(&r).expect("meetings expected");
    let mut k = 0;
    let mut inner = None;
    while k < xs.len() {
        if xs[k].t.raw > 0 {
            inner = Some(k);
            break;
        }
        k += 1;
    }
    let i = inner.expect("a meeting in front of the origin");
    let comps = xs[i].prepare_computations(&r, &xs, Some(&w));
    let c = w.reflected_color(&comps, 5);
    assert_eq!(c.red.raw, 0);
    assert_eq!(c.green.raw, 0);
    assert_eq!(c.blue.raw, 0);
}

#[test]
fn the_refracted_color_at_the_recursion_limit_is_black() {
    let mut w = World::default_world();
    let mut m = *w.get_object(0).expect("the outer sphere").material();
    m.transparency = Fx::one();
    m.refractive_index = Fx { raw: 150000 };
    w.objects[0].set_material(m);
    let r = Ray::new(point(0, 0, -5), vector(0, 0, 1));
    let xs = w.intersect_world(&r).expect("meetings expected");
    let i = Intersection::hit(&xs).expect("a visible meeting expected");
    let comps = i.prepare_computations(&r, &xs, Some(&w));
    let c = w.refracted_color(&comps, 0);
    assert_eq!(c.red.raw, 0);
    assert_eq!(c.green.raw, 0);
    assert_eq!(c.blue.raw, 0);
}

#[test]
fn the_refracted_color_of_an_opaque_surface_is_black() {
    let w = World::default_world();
    let r = Ray::new(point(0, 0, -5), vector(0, 0, 1));
    let xs = w.intersect_world(&r).expect("meetings expected");
    let comps = xs[0].prepare_computations(&r, &xs, Some(&w));
    let c = w.refracted_color(&comps, 5);
    assert_eq!(c.red.raw, 0);
    assert_eq!(c.green.raw, 0);
    assert_eq!(c.blue.raw, 0);
}

#[test]
fn a_group_child_inherits_the_group_material_when_asked() {
    let mut g = Group::new();
    g.material.color = Colors::red();
    let mut t = rustic_ray::shapes::Triangle::new(point(0, 1, 0), point(-1, 0, 0), point(1, 0, 0));
    let t_id = t.id;
    t.material.color = Colors::white();
    g.add_object(Shape::Triangle(t));
    let mut w = World::new();
    w.add_object(Shape::Group(g));
    let found = w.get_object_by_id(t_id).expect("the triangle is in the scene");
    let m = w.get_object_material(found);
    assert!(m.color.approx_eq(Colors::red()));
}

#[test]
fn the_refracted_color_under_total_internal_reflection() {
    let mut w = World::default_world();
    let mut m = *w.get_object(0).expect("the outer sphere").material();
    m.transparency = Fx::one();
    m.refractive_index = Fx { raw: 150000 };
    w.objects[0].set_material(m);
    let h = fx(2).sqrt().div(fx(2));
    let r = Ray::new(Point::new(Fx::zero(), Fx::zero(), h), vector(0, 1, 0));
    let xs = w.intersect_world(&r).expect("meetings expected");
    assert_eq!(xs.len(), 2);
    let comps = xs[1].prepare_computations(&r, &xs, Some(&w));
    let c = w.refracted_color(&comps, 5);
    assert_eq!(c.red.raw, 0);
    assert_eq!(c.green.raw, 0);
    assert_eq!(c.blue.raw, 0);
}

#[test]
fn shade_hit_blends_with_the_schlick_reflectance() {
    let mut w = World::default_world();
    let mut floor = Plane::new();
    floor.transform = Transformation::new().translate(fx(0), fx(-1), fx(0)).build();
    floor.material.reflective = Fx { raw: 50000 };
    floor.material.transparency = Fx { raw: 50000 };
    floor.material.refractive_index = Fx { raw: 150000 };
    let floor_id = floor.id;
    w.add_object(Shape::Plane(floor));
    let mut ball = Sphere::new();
    ball.material.color = Colors::red();
    ball.material.ambient = Fx { raw: 50000 };
    ball.transform = Transformation::new()
        .translate(fx(0), Fx { raw: -350000 }, Fx { raw: -50000 })
        .build();
    w.add_object(Shape::Sphere(ball));
    let h = fx(2).sqrt().div(fx(2));
    let r = Ray::new(point(0, 0, -3), Vector::new(Fx::zero(), h.neg(), h));
    let xs = w.intersect_world(&r).expect("meetings expected");
    let i = Intersection::hit(&xs).expect("the floor is hit");
    assert!(uuid_eq(i.object.id(), floor_id));
    let comps = i.prepare_computations(&r, &xs, Some(&w));
    let c = w.shade_hit(&comps, 5);
    assert!(c.approx_eq(Color::new(Fx { raw: 93391 }, Fx { raw: 69643 }, Fx { raw: 69243 })));
}
