//! The closed set of shape variants and the behavior they share.
//!
//! Each variant answers geometric questions in its own object space; the
//! shared `intersect` first carries the world-space ray into object space
//! through the shape's inverse transformation, exactly as the contract
//! states, so the two views can be held against each other.

use vstd::prelude::*;
use crate::fx::Fx;
use crate::fx::SCALE;
use crate::fx::clampi;
use crate::fx::fsub;
use crate::fx::fadd;
use crate::fx::fmul;
use crate::fx::absi;
use crate::fx::sqrt_i;
use crate::intersection::Intersection;
use crate::intersection::IxView;
use crate::intersection::ixv;
use crate::intersection::views;
use crate::intersection::sort_t;
use crate::intersection::sort_intersections;
use crate::material::Material;
use crate::matrix::Matrix;
use crate::matrix::grid;
use crate::point::Point;
use crate::point::psub;
use crate::ray::Ray;
use crate::ray::ray_through;
use crate::shapes::cone::Cone;
use crate::shapes::cone::cone_ts;
use crate::shapes::csg::CSG;
use crate::shapes::csg::csg_filter;
use crate::shapes::cube::Cube;
use crate::shapes::cube::cube_ts;
use crate::shapes::cylinder::Cylinder;
use crate::shapes::cylinder::cyl_ts;
use crate::shapes::group::Group;
use crate::shapes::plane::Plane;
use crate::shapes::plane::plane_t;
use crate::shapes::sphere::Sphere;
use crate::shapes::sphere::origin0;
use crate::shapes::sphere::sphere_ts;
use crate::shapes::triangle::Triangle;
use crate::shapes::triangle::tri_hit;
use crate::vector::Vector;
use crate::vector::add_v;
use crate::vector::mul_v;
use crate::vector::vec_raw;

verus! {

/// Any of the shape variants: a primitive with a surface of its own, or a
/// group or set combination built from other shapes.
#[derive(Debug)]
pub enum Shape {
    /// The unit sphere.
    Sphere(Sphere),
    /// The flat plane through the origin.
    Plane(Plane),
    /// The axis-aligned unit cube.
    Cube(Cube),
    /// The cylinder of radius one around the y axis.
    Cylinder(Cylinder),
    /// The double-napped cone around the y axis.
    Cone(Cone),
    /// A flat or smooth triangle.
    Triangle(Triangle),
    /// An ordered collection of child shapes.
    Group(Group),
    /// Two shapes joined by a set operation.
    Csg(CSG),
}

impl Shape {
    /// The identity token of the shape.
    pub open spec fn spec_id(self) -> uuid::Uuid {
        match self {
            Shape::Sphere(s) => s.id,
            Shape::Plane(s) => s.id,
            Shape::Cube(s) => s.id,
            Shape::Cylinder(s) => s.id,
            Shape::Cone(s) => s.id,
            Shape::Triangle(s) => s.id,
            Shape::Group(s) => s.id,
            Shape::Csg(s) => s.id,
        }
    }

    /// The identity of the shape's parent, if it has been adopted.
    pub open spec fn spec_parent_id(self) -> Option<uuid::Uuid> {
        match self {
            Shape::Sphere(s) => s.parent_id,
            Shape::Plane(s) => s.parent_id,
            Shape::Cube(s) => s.parent_id,
            Shape::Cylinder(s) => s.parent_id,
            Shape::Cone(s) => s.parent_id,
            Shape::Triangle(s) => s.parent_id,
            Shape::Group(s) => s.parent_id,
            Shape::Csg(s) => s.parent_id,
        }
    }

    /// The shape's object-to-parent-space transformation.
    pub open spec fn spec_transform(self) -> Matrix {
        match self {
            Shape::Sphere(s) => s.transform,
            Shape::Plane(s) => s.transform,
            Shape::Cube(s) => s.transform,
            Shape::Cylinder(s) => s.transform,
            Shape::Cone(s) => s.transform,
            Shape::Triangle(s) => s.transform,
            Shape::Group(s) => s.transform,
            Shape::Csg(s) => s.transform,
        }
    }

    /// The shape's own material.
    pub open spec fn spec_material(self) -> Material {
        match self {
            Shape::Sphere(s) => s.material,
            Shape::Plane(s) => s.material,
            Shape::Cube(s) => s.material,
            Shape::Cylinder(s) => s.material,
            Shape::Cone(s) => s.material,
            Shape::Triangle(s) => s.material,
            Shape::Group(s) => s.material,
            Shape::Csg(s) => s.material,
        }
    }

    /// Whether the shape takes its material from the nearest ancestor that
    /// has one of its own.
    pub open spec fn spec_inherit_material(self) -> bool {
        match self {
            Shape::Triangle(_) => true,
            Shape::Group(s) => s.inherit_material,
            _ => false,
        }
    }

    /// The same shape adopted by the parent with the given identity.
    pub open spec fn with_parent_v(self, id: uuid::Uuid) -> Shape {
        match self {
            Shape::Sphere(s) => Shape::Sphere(Sphere { parent_id: Some(id), ..s }),
            Shape::Plane(s) => Shape::Plane(Plane { parent_id: Some(id), ..s }),
            Shape::Cube(s) => Shape::Cube(Cube { parent_id: Some(id), ..s }),
            Shape::Cylinder(s) => Shape::Cylinder(Cylinder { parent_id: Some(id), ..s }),
            Shape::Cone(s) => Shape::Cone(Cone { parent_id: Some(id), ..s }),
            Shape::Triangle(s) => Shape::Triangle(Triangle { parent_id: Some(id), ..s }),
            Shape::Group(s) => Shape::Group(Group { parent_id: Some(id), ..s }),
            Shape::Csg(s) => Shape::Csg(CSG { parent_id: Some(id), ..s }),
        }
    }

    /// The shape's transformation, material and every shape below it are
    /// representable.
    pub open spec fn wf(self) -> bool
        decreases self,
    {
        &&& self.spec_transform().wf()
        &&& self.spec_material().wf()
        &&& match self {
            Shape::Triangle(t) => t.wf(),
            Shape::Group(g) => forall|i: int|
                0 <= i < g.objects@.len() ==> (#[trigger] g.objects@[i]).wf(),
            Shape::Csg(c) => (*c.left).wf() && (*c.right).wf(),
            _ => true,
        }
    }

    /// Whether a shape with the given identity stands somewhere below this
    /// one: among a group's children or a combination's two operands, at
    /// any depth.
    pub open spec fn contains_id_v(self, id: uuid::Uuid) -> bool
        decreases self,
    {
        match self {
            Shape::Group(g) => exists|i: int|
                0 <= i < g.objects@.len() && ((#[trigger] g.objects@[i]).spec_id() == id
                    || g.objects@[i].contains_id_v(id)),
            Shape::Csg(c) => (*c.left).spec_id() == id || (*c.right).spec_id() == id
                || (*c.left).contains_id_v(id) || (*c.right).contains_id_v(id),
            _ => false,
        }
    }

    /// Whether `x` is this shape itself or stands somewhere below it.
    pub open spec fn subshape(self, x: Shape) -> bool
        decreases self,
    {
        x == self || match self {
            Shape::Group(g) => exists|i: int|
                0 <= i < g.objects@.len() && (#[trigger] g.objects@[i]).subshape(x),
            Shape::Csg(c) => (*c.left).subshape(x) || (*c.right).subshape(x),
            _ => false,
        }
    }

    /// The plain values of the meetings a ray produces on this shape, the
    /// ray taken as already in object space.
    pub open spec fn local_xs(self, r: Ray) -> Seq<IxView>
        decreases self, 1int,
    {
        match self {
            Shape::Sphere(_) => match sphere_ts(r) {
                Some((t1, t2)) => seq![
                    (t1, self, None, None),
                    (t2, self, None, None),
                ],
                None => Seq::empty(),
            },
            Shape::Plane(_) => match plane_t(r) {
                Some(t) => seq![(t, self, None, None)],
                None => Seq::empty(),
            },
            Shape::Cube(_) => match cube_ts(r) {
                Some((t1, t2)) => seq![
                    (t1, self, None, None),
                    (t2, self, None, None),
                ],
                None => Seq::empty(),
            },
            Shape::Cylinder(c) => Seq::new(cyl_ts(c, r).len(), |k: int| (cyl_ts(c, r)[k], self, None, None)),
            Shape::Cone(c) => Seq::new(cone_ts(c, r).len(), |k: int| (cone_ts(c, r)[k], self, None, None)),
            Shape::Triangle(t) => match tri_hit(t, r) {
                Some((tt, u, v)) => seq![
                    (tt, self, Some(Fx { raw: u as i64 }), Some(Fx { raw: v as i64 })),
                ],
                None => Seq::empty(),
            },
            Shape::Group(g) => sort_t(Shape::kids_xs(g.objects@, g.objects@.len() as int, r)),
            Shape::Csg(c) => {
                let comb = sort_t((*c.left).shape_xs(r) + (*c.right).shape_xs(r));
                csg_filter(c.operation, *c.left, comb, 0, false, false)
            },
        }
    }

    /// The meetings of the children up to a position, in child order.
    pub open spec fn kids_xs(children: Seq<Shape>, upto: int, r: Ray) -> Seq<IxView>
        decreases children, 0int, upto,
    {
        if upto <= 0 || upto > children.len() {
            Seq::empty()
        } else {
            Shape::kids_xs(children, upto - 1, r) + children[upto - 1].shape_xs(r)
        }
    }

    /// The plain values of the meetings a world-space ray produces on this
    /// shape: the ray is first carried into object space through the
    /// shape's inverse transformation.
    pub open spec fn shape_xs(self, ray: Ray) -> Seq<IxView>
        decreases self, 2int,
    {
        self.local_xs(ray_through(grid(self.spec_transform().inverse), ray))
    }

    /// The surface normal in object space at a point of the shape, with the
    /// barycentric coordinates of the meeting for smooth triangles.
    pub open spec fn local_normal_v(self, p: Point, uv: Option<(Fx, Fx)>) -> Vector {
        match self {
            Shape::Sphere(_) => psub(p, origin0()),
            Shape::Plane(_) => vec_raw(0, SCALE as int, 0),
            Shape::Cube(_) => {
                let ax = clampi(absi(p.x.raw as int));
                let ay = clampi(absi(p.y.raw as int));
                let az = clampi(absi(p.z.raw as int));
                let maxc = if ax >= ay && ax >= az {
                    ax
                } else if ay >= az {
                    ay
                } else {
                    az
                };
                if maxc == ax {
                    vec_raw(p.x.raw as int, 0, 0)
                } else if maxc == ay {
                    vec_raw(0, p.y.raw as int, 0)
                } else {
                    vec_raw(0, 0, p.z.raw as int)
                }
            },
            Shape::Cylinder(c) => {
                let dist = fadd(
                    fmul(p.x.raw as int, p.x.raw as int),
                    fmul(p.z.raw as int, p.z.raw as int),
                );
                if dist < SCALE as int && p.y.raw >= c.maximum.raw - crate::fx::EPSILON {
                    vec_raw(0, SCALE as int, 0)
                } else if dist < SCALE as int && p.y.raw <= c.minimum.raw + crate::fx::EPSILON {
                    vec_raw(0, -(SCALE as int), 0)
                } else {
                    vec_raw(p.x.raw as int, 0, p.z.raw as int)
                }
            },
            Shape::Cone(c) => {
                let dist = fadd(
                    fmul(p.x.raw as int, p.x.raw as int),
                    fmul(p.z.raw as int, p.z.raw as int),
                );
                if dist < SCALE as int && p.y.raw >= c.maximum.raw - crate::fx::EPSILON {
                    vec_raw(0, SCALE as int, 0)
                } else if dist < SCALE as int && p.y.raw <= c.minimum.raw + crate::fx::EPSILON {
                    vec_raw(0, -(SCALE as int), 0)
                } else {
                    let y = clampi(sqrt_i(dist * (SCALE as int)));
                    if p.y.raw > 0 {
                        vec_raw(p.x.raw as int, clampi(-y), p.z.raw as int)
                    } else {
                        vec_raw(p.x.raw as int, y, p.z.raw as int)
                    }
                }
            },
            Shape::Triangle(t) => {
                if t.smooth && uv is Some {
                    let pair = uv->0;
                    let u = pair.0;
                    let v = pair.1;
                    let w = fsub(fsub(SCALE as int, u.raw as int), v.raw as int);
                    add_v(
                        add_v(mul_v(t.n2->0, u.raw as int), mul_v(t.n3->0, v.raw as int)),
                        mul_v(t.n1->0, w),
                    )
                } else {
                    t.normal
                }
            },
            Shape::Group(_) => vec_raw(0, 0, 0),
            Shape::Csg(_) => vec_raw(p.x.raw as int, p.y.raw as int, p.z.raw as int),
        }
    }

    /// The identity token of the shape.
    pub fn id(&self) -> (r: uuid::Uuid)
        ensures
            r == self.spec_id(),
    {
        match self {
            Shape::Sphere(s) => s.id,
            Shape::Plane(s) => s.id,
            Shape::Cube(s) => s.id,
            Shape::Cylinder(s) => s.id,
            Shape::Cone(s) => s.id,
            Shape::Triangle(s) => s.id,
            Shape::Group(s) => s.id,
            Shape::Csg(s) => s.id,
        }
    }

    /// The identity of the shape's parent, if it has been adopted.
    pub fn parent_id(&self) -> (r: Option<uuid::Uuid>)
        ensures
            r == self.spec_parent_id(),
    {
        match self {
            Shape::Sphere(s) => s.parent_id,
            Shape::Plane(s) => s.parent_id,
            Shape::Cube(s) => s.parent_id,
            Shape::Cylinder(s) => s.parent_id,
            Shape::Cone(s) => s.parent_id,
            Shape::Triangle(s) => s.parent_id,
            Shape::Group(s) => s.parent_id,
            Shape::Csg(s) => s.parent_id,
        }
    }

    /// The shape, adopted by the parent with the given identity.
    pub fn with_parent(self, id: uuid::Uuid) -> (r: Shape)
        ensures
            r == self.with_parent_v(id),
    {
        match self {
            Shape::Sphere(mut s) => {
                s.parent_id = Some(id);
                Shape::Sphere(s)
            },
            Shape::Plane(mut s) => {
                s.parent_id = Some(id);
                Shape::Plane(s)
            },
            Shape::Cube(mut s) => {
                s.parent_id = Some(id);
                Shape::Cube(s)
            },
            Shape::Cylinder(mut s) => {
                s.parent_id = Some(id);
                Shape::Cylinder(s)
            },
            Shape::Cone(mut s) => {
                s.parent_id = Some(id);
                Shape::Cone(s)
            },
            Shape::Triangle(mut s) => {
                s.parent_id = Some(id);
                Shape::Triangle(s)
            },
            Shape::Group(mut s) => {
                s.parent_id = Some(id);
                Shape::Group(s)
            },
            Shape::Csg(mut s) => {
                s.parent_id = Some(id);
                Shape::Csg(s)
            },
        }
    }

    /// Whether two shapes are the same one, compared by identity.
    pub fn shape_eq(&self, other: &Shape) -> (r: bool)
        ensures
            r == (self.spec_id() == other.spec_id()),
    {
        crate::identity::id_eq(self.id(), other.id())
    }

    /// The shape's object-to-parent-space transformation.
    pub fn transform(&self) -> (r: Matrix)
        ensures
            r == self.spec_transform(),
    {
        match self {
            Shape::Sphere(s) => s.transform,
            Shape::Plane(s) => s.transform,
            Shape::Cube(s) => s.transform,
            Shape::Cylinder(s) => s.transform,
            Shape::Cone(s) => s.transform,
            Shape::Triangle(s) => s.transform,
            Shape::Group(s) => s.transform,
            Shape::Csg(s) => s.transform,
        }
    }

    /// Replace the shape's transformation.
    pub fn set_transform(&mut self, transform: Matrix)
        ensures
            final(self).spec_transform() == transform,
            final(self).spec_id() == old(self).spec_id(),
            final(self).spec_material() == old(self).spec_material(),
            final(self).spec_parent_id() == old(self).spec_parent_id(),
    {
        match self {
            Shape::Sphere(s) => s.transform = transform,
            Shape::Plane(s) => s.transform = transform,
            Shape::Cube(s) => s.transform = transform,
            Shape::Cylinder(s) => s.transform = transform,
            Shape::Cone(s) => s.transform = transform,
            Shape::Triangle(s) => s.transform = transform,
            Shape::Group(s) => s.transform = transform,
            Shape::Csg(s) => s.transform = transform,
        }
    }

    /// The shape's own material.
    pub fn material(&self) -> (r: &Material)
        ensures
            *r == self.spec_material(),
    {
        match self {
            Shape::Sphere(s) => &s.material,
            Shape::Plane(s) => &s.material,
            Shape::Cube(s) => &s.material,
            Shape::Cylinder(s) => &s.material,
            Shape::Cone(s) => &s.material,
            Shape::Triangle(s) => &s.material,
            Shape::Group(s) => &s.material,
            Shape::Csg(s) => &s.material,
        }
    }

    /// Replace the shape's own material.
    pub fn set_material(&mut self, material: Material)
        ensures
            final(self).spec_material() == material,
            final(self).spec_id() == old(self).spec_id(),
            final(self).spec_transform() == old(self).spec_transform(),
            final(self).spec_parent_id() == old(self).spec_parent_id(),
    {
        match self {
            Shape::Sphere(s) => s.material = material,
            Shape::Plane(s) => s.material = material,
            Shape::Cube(s) => s.material = material,
            Shape::Cylinder(s) => s.material = material,
            Shape::Cone(s) => s.material = material,
            Shape::Triangle(s) => s.material = material,
            Shape::Group(s) => s.material = material,
            Shape::Csg(s) => s.material = material,
        }
    }

    /// Whether the shape takes its material from the nearest ancestor with
    /// one of its own.
    pub fn inherit_material(&self) -> (r: bool)
        ensures
            r == self.spec_inherit_material(),
    {
        match self {
            Shape::Triangle(_) => true,
            Shape::Group(g) => g.inherit_material,
            _ => false,
        }
    }

    /// Whether a shape with the given identity stands below this one.
    pub fn contains_object_by_id(&self, id: uuid::Uuid) -> (r: bool)
        ensures
            r == self.contains_id_v(id),
        decreases *self,
    {
        match self {
            Shape::Group(g) => {
                let mut k: usize = 0;
                while k < g.objects.len()
                    invariant
                        k <= g.objects@.len(),
                        *self == Shape::Group(*g),
                        forall|i: int|
                            0 <= i < k ==> !((#[trigger] g.objects@[i]).spec_id() == id
                                || g.objects@[i].contains_id_v(id)),
                    decreases g.objects@.len() - k,
                {
                    let child = &g.objects[k];
                    proof {
                        assert(decreases_to!(*self => (*self)->Group_0));
                        assert(decreases_to!(*g => g.objects));
                        assert(decreases_to!(g.objects => g.objects@));
                        assert(decreases_to!(g.objects@ => g.objects@[k as int]));
                    }
                    if crate::identity::id_eq(child.id(), id) || child.contains_object_by_id(id) {
                        proof {
                            assert(g.objects@[k as int].spec_id() == id || g.objects@[k
                                as int].contains_id_v(id));
                            assert(self.contains_id_v(id));
                        }
                        return true;
                    }
                    k = k + 1;
                }
                false
            },
            Shape::Csg(c) => {
                proof {
                    assert(decreases_to!(*self => (*self)->Csg_0));
                    assert(decreases_to!(*c => c.left));
                    assert(decreases_to!(*c => c.right));
                }
                crate::identity::id_eq(c.left.id(), id) || crate::identity::id_eq(c.right.id(), id)
                    || c.left.contains_object_by_id(id) || c.right.contains_object_by_id(id)
            },
            _ => false,
        }
    }

    /// The shape below this one carrying the given identity, if any.
    pub fn get_object_by_id(&self, id: uuid::Uuid) -> (r: Option<&Shape>)
        ensures
            match r {
                Some(s) => s.spec_id() == id && self.subshape(*s) && self.contains_id_v(id),
                None => !self.contains_id_v(id),
            },
        decreases *self,
    {
        match self {
            Shape::Group(g) => {
                let mut k: usize = 0;
                while k < g.objects.len()
                    invariant
                        k <= g.objects@.len(),
                        *self == Shape::Group(*g),
                        forall|i: int|
                            0 <= i < k ==> !((#[trigger] g.objects@[i]).spec_id() == id
                                || g.objects@[i].contains_id_v(id)),
                    decreases g.objects@.len() - k,
                {
                    let child = &g.objects[k];
                    proof {
                        assert(decreases_to!(*self => (*self)->Group_0));
                        assert(decreases_to!(*g => g.objects));
                        assert(decreases_to!(g.objects => g.objects@));
                        assert(decreases_to!(g.objects@ => g.objects@[k as int]));
                    }
                    if crate::identity::id_eq(child.id(), id) {
                        proof {
                            assert(g.objects@[k as int].subshape(*child));
                            assert(g.objects@[k as int].spec_id() == id || g.objects@[k
                                as int].contains_id_v(id));
                            assert(self.subshape(*child));
                            assert(self.contains_id_v(id));
                        }
                        return Some(child);
                    }
                    if let Some(found) = child.get_object_by_id(id) {
                        proof {
                            assert(g.objects@[k as int].subshape(*found));
                            assert(g.objects@[k as int].spec_id() == id || g.objects@[k
                                as int].contains_id_v(id));
                            assert(self.subshape(*found));
                            assert(self.contains_id_v(id));
                        }
                        return Some(found);
                    }
                    k = k + 1;
                }
                None
            },
            Shape::Csg(c) => {
                proof {
                    assert(decreases_to!(*self => (*self)->Csg_0));
                    assert(decreases_to!(*c => c.left));
                    assert(decreases_to!(*c => c.right));
                }
                if crate::identity::id_eq(c.left.id(), id) {
                    proof {
                        assert((*c.left).subshape(*c.left));
                    }
                    return Some(&c.left);
                }
                if crate::identity::id_eq(c.right.id(), id) {
                    proof {
                        assert((*c.right).subshape(*c.right));
                    }
                    return Some(&c.right);
                }
                if let Some(found) = c.left.get_object_by_id(id) {
                    proof {
                        assert((*c.left).subshape(*found));
                    }
                    return Some(found);
                }
                if let Some(found) = c.right.get_object_by_id(id) {
                    proof {
                        assert((*c.right).subshape(*found));
                    }
                    return Some(found);
                }
                None
            },
            _ => None,
        }
    }

    /// The surface normal in object space at a point of the shape.  Groups
    /// have no surface of their own, so they must never be asked; a smooth
    /// triangle needs the barycentric coordinates of the meeting.
    pub fn local_normal_at<'a>(&self, point: Point, hit: Option<&Intersection<'a>>) -> (r: Vector)
        requires
            !(self matches Shape::Group(_)),
            self.wf(),
            point.wf(),
        ensures
            r == self.local_normal_v(
                point,
                match hit {
                    Some(h) => match (h.u, h.v) {
                        (Some(u), Some(v)) => Some((u, v)),
                        _ => None,
                    },
                    None => None,
                },
            ),
    {
        match self {
            Shape::Sphere(_) => point.sub(Point::new(Fx::zero(), Fx::zero(), Fx::zero())),
            Shape::Plane(_) => Vector::new(Fx::zero(), Fx::one(), Fx::zero()),
            Shape::Cube(_) => {
                let ax = point.x.abs();
                let ay = point.y.abs();
                let az = point.z.abs();
                let maxc = if ax.raw >= ay.raw && ax.raw >= az.raw {
                    ax
                } else if ay.raw >= az.raw {
                    ay
                } else {
                    az
                };
                if maxc.raw == ax.raw {
                    Vector::new(point.x, Fx::zero(), Fx::zero())
                } else if maxc.raw == ay.raw {
                    Vector::new(Fx::zero(), point.y, Fx::zero())
                } else {
                    Vector::new(Fx::zero(), Fx::zero(), point.z)
                }
            },
            Shape::Cylinder(c) => {
                let dist = point.x.mul(point.x).add(point.z.mul(point.z));
                if dist.raw < SCALE && point.y.raw as i128 >= c.maximum.raw as i128 - crate::fx::EPSILON as i128 {
                    Vector::new(Fx::zero(), Fx::one(), Fx::zero())
                } else if dist.raw < SCALE && point.y.raw as i128 <= c.minimum.raw as i128 + crate::fx::EPSILON as i128 {
                    Vector::new(Fx::zero(), Fx::one().neg(), Fx::zero())
                } else {
                    Vector::new(point.x, Fx::zero(), point.z)
                }
            },
            Shape::Cone(c) => {
                let dist = point.x.mul(point.x).add(point.z.mul(point.z));
                if dist.raw < SCALE && point.y.raw as i128 >= c.maximum.raw as i128 - crate::fx::EPSILON as i128 {
                    Vector::new(Fx::zero(), Fx::one(), Fx::zero())
                } else if dist.raw < SCALE && point.y.raw as i128 <= c.minimum.raw as i128 + crate::fx::EPSILON as i128 {
                    Vector::new(Fx::zero(), Fx::one().neg(), Fx::zero())
                } else {
                    proof {
                        crate::fx::lemma_square_nonneg(point.x.raw as int);
                        crate::fx::lemma_square_nonneg(point.z.raw as int);
                        broadcast use vstd::arithmetic::div_mod::lemma_div_pos_is_pos;

                    }
                    let y = dist.sqrt();
                    if point.y.raw > 0 {
                        Vector::new(point.x, y.neg(), point.z)
                    } else {
                        Vector::new(point.x, y, point.z)
                    }
                }
            },
            Shape::Triangle(t) => {
                if t.smooth {
                    match (hit, t.n1, t.n2, t.n3) {
                        (Some(h), Some(n1), Some(n2), Some(n3)) => match (h.u, h.v) {
                            (Some(u), Some(v)) => {
                                let w = Fx::one().sub(u).sub(v);
                                n2.mul(u).add(n3.mul(v)).add(n1.mul(w))
                            },
                            _ => t.normal,
                        },
                        _ => t.normal,
                    }
                } else {
                    t.normal
                }
            },
            Shape::Group(_) => Vector::new(Fx::zero(), Fx::zero(), Fx::zero()),
            Shape::Csg(_) => Vector::new(point.x, point.y, point.z),
        }
    }

    /// The meetings of a ray already in object space with this shape, the
    /// listed distances exactly those `local_xs` gives, or nothing at all
    /// when there are none.
    pub fn local_intersect<'a>(&'a self, r: &Ray) -> (res: Option<Vec<Intersection<'a>>>)
        requires
            self.wf(),
            r.wf(),
        ensures
            match res {
                Some(v) => {
                    &&& views(v@) == self.local_xs(*r)
                    &&& forall|k: int| 0 <= k < v@.len() ==> (#[trigger] v@[k]).t.wf()
                    &&& forall|k: int| 0 <= k < v@.len() ==> self.subshape(*(#[trigger] v@[k]).object)
                    &&& forall|k: int|
                        0 <= k < v@.len() ==> !(*(#[trigger] v@[k]).object matches Shape::Group(_))
                },
                None => self.local_xs(*r) == Seq::<IxView>::empty(),
            },
        decreases *self, 1int,
    {
        match self {
            Shape::Sphere(s) => match s.ts(r) {
                Some((t1, t2)) => {
                    let mut v: Vec<Intersection<'a>> = Vec::new();
                    v.push(Intersection::new(t1, self));
                    v.push(Intersection::new(t2, self));
                    proof {
                        assert(views(v@) =~= self.local_xs(*r));
                    }
                    Some(v)
                },
                None => None,
            },
            Shape::Plane(p) => match p.ts(r) {
                Some(t) => {
                    let mut v: Vec<Intersection<'a>> = Vec::new();
                    v.push(Intersection::new(t, self));
                    proof {
                        assert(views(v@) =~= self.local_xs(*r));
                    }
                    Some(v)
                },
                None => None,
            },
            Shape::Cube(cu) => match cu.ts(r) {
                Some((t1, t2)) => {
                    let mut v: Vec<Intersection<'a>> = Vec::new();
                    v.push(Intersection::new(t1, self));
                    v.push(Intersection::new(t2, self));
                    proof {
                        assert(views(v@) =~= self.local_xs(*r));
                    }
                    Some(v)
                },
                None => None,
            },
            Shape::Cylinder(c) => {
                let ts = c.ts(r);
                if ts.len() == 0 {
                    proof {
                        assert(self.local_xs(*r) =~= Seq::<IxView>::empty());
                    }
                    None
                } else {
                    let mut v: Vec<Intersection<'a>> = Vec::new();
                    let mut k: usize = 0;
                    while k < ts.len()
                        invariant
                            k <= ts@.len(),
                            ts@.map_values(|t: Fx| t.raw as int) == cyl_ts(*c, *r),
                            forall|j: int| 0 <= j < ts@.len() ==> (#[trigger] ts@[j]).wf(),
                            v@.len() == k,
                            forall|j: int|
                                0 <= j < k ==> #[trigger] v@[j] == (Intersection {
                                    t: ts@[j],
                                    object: self,
                                    u: None,
                                    v: None,
                                }),
                            self.wf(),
                            self matches Shape::Cylinder(cc) && cc == *c,
                        decreases ts@.len() - k,
                    {
                        v.push(Intersection::new(ts[k], self));
                        k = k + 1;
                    }
                    proof {
                        assert(views(v@) =~= self.local_xs(*r));
                        assert forall|k2: int| 0 <= k2 < v@.len() implies (#[trigger] v@[k2]).t.wf()
                            && self.subshape(*v@[k2].object) by {
                            assert(ts@[k2].wf());
                        }
                    }
                    Some(v)
                }
            },
            Shape::Cone(c) => {
                let ts = c.ts(r);
                if ts.len() == 0 {
                    proof {
                        assert(self.local_xs(*r) =~= Seq::<IxView>::empty());
                    }
                    None
                } else {
                    let mut v: Vec<Intersection<'a>> = Vec::new();
                    let mut k: usize = 0;
                    while k < ts.len()
                        invariant
                            k <= ts@.len(),
                            ts@.map_values(|t: Fx| t.raw as int) == cone_ts(*c, *r),
                            forall|j: int| 0 <= j < ts@.len() ==> (#[trigger] ts@[j]).wf(),
                            v@.len() == k,
                            forall|j: int|
                                0 <= j < k ==> #[trigger] v@[j] == (Intersection {
                                    t: ts@[j],
                                    object: self,
                                    u: None,
                                    v: None,
                                }),
                            self.wf(),
                            self matches Shape::Cone(cc) && cc == *c,
                        decreases ts@.len() - k,
                    {
                        v.push(Intersection::new(ts[k], self));
                        k = k + 1;
                    }
                    proof {
                        assert(views(v@) =~= self.local_xs(*r));
                        assert forall|k2: int| 0 <= k2 < v@.len() implies (#[trigger] v@[k2]).t.wf()
                            && self.subshape(*v@[k2].object) by {
                            assert(ts@[k2].wf());
                        }
                    }
                    Some(v)
                }
            },
            Shape::Triangle(t) => match t.ts(r) {
                Some((tt, u, vv)) => {
                    let mut v: Vec<Intersection<'a>> = Vec::new();
                    v.push(Intersection::intersection_with_uv(tt, self, u, vv));
                    proof {
                        assert(views(v@) =~= self.local_xs(*r));
                    }
                    Some(v)
                },
                None => None,
            },
            Shape::Group(g) => self.group_local_intersect(g, r),
            Shape::Csg(c) => self.csg_local_intersect(c, r),
        }
    }

    /// The meetings of a ray with a group: every child is asked with the
    /// same object-space ray, and the answers are merged in order of
    /// distance.
    fn group_local_intersect<'a>(&'a self, g: &'a Group, r: &Ray) -> (res: Option<
        Vec<Intersection<'a>>,
    >)
        requires
            self.wf(),
            r.wf(),
            *self == Shape::Group(*g),
        ensures
            match res {
                Some(v) => {
                    &&& views(v@) == self.local_xs(*r)
                    &&& forall|k: int| 0 <= k < v@.len() ==> (#[trigger] v@[k]).t.wf()
                    &&& forall|k: int| 0 <= k < v@.len() ==> self.subshape(*(#[trigger] v@[k]).object)
                    &&& forall|k: int|
                        0 <= k < v@.len() ==> !(*(#[trigger] v@[k]).object matches Shape::Group(_))
                },
                None => self.local_xs(*r) == Seq::<IxView>::empty(),
            },
        decreases *self, 0int,
    {
        let mut xs: Vec<Intersection<'a>> = Vec::new();
        let mut k: usize = 0;
        proof {
            assert(views(xs@) =~= Shape::kids_xs(g.objects@, 0, *r));
        }
        while k < g.objects.len()
            invariant
                k <= g.objects@.len(),
                r.wf(),
                views(xs@) == Shape::kids_xs(g.objects@, k as int, *r),
                forall|j: int| 0 <= j < xs@.len() ==> (#[trigger] xs@[j]).t.wf(),
                forall|j: int| 0 <= j < xs@.len() ==> self.subshape(*(#[trigger] xs@[j]).object),
                forall|j: int|
                    0 <= j < xs@.len() ==> !(*(#[trigger] xs@[j]).object matches Shape::Group(_)),
                self.wf(),
                *self == Shape::Group(*g),
            decreases g.objects@.len() - k,
        {
            let child = &g.objects[k];
            proof {
                assert(decreases_to!(*self => (*self)->Group_0));
                assert(decreases_to!(*g => g.objects));
                assert(decreases_to!(g.objects => g.objects@));
                assert(decreases_to!(g.objects@ => g.objects@[k as int]));
            }
            let ghost pre = xs@;
            match child.intersect(r) {
                Some(mut oxs) => {
                    let ghost ov = oxs@;
                    xs.append(&mut oxs);
                    proof {
                        assert(xs@ =~= pre + ov);
                        crate::intersection::lemma_views_concat(pre, ov);
                        assert forall|j: int| 0 <= j < xs@.len() implies self.subshape(
                            *(#[trigger] xs@[j]).object,
                        ) && !(*xs@[j].object matches Shape::Group(_)) by {
                            if j >= pre.len() {
                                assert(child.subshape(*ov[j - pre.len()].object));
                                lemma_subshape_child(*self, k as int, *ov[j - pre.len()].object);
                                assert(!(*ov[j - pre.len()].object matches Shape::Group(_)));
                            }
                        }
                    }
                },
                None => {
                    proof {
                        assert(views(xs@) =~= views(pre) + child.shape_xs(*r));
                    }
                },
            }
            k = k + 1;
        }
        if xs.len() == 0 {
            proof {
                crate::intersection::lemma_sort_t_sorted(views(xs@));
                assert(self.local_xs(*r) =~= Seq::<IxView>::empty());
            }
            None
        } else {
            let ghost pre_sort = xs@;
            let sorted = sort_intersections(xs);
            proof {
                assert forall|j: int| 0 <= j < sorted@.len() implies (#[trigger] sorted@[j]).t.wf()
                    && self.subshape(*sorted@[j].object) && !(*sorted@[j].object
                    matches Shape::Group(_)) by {
                    crate::intersection::lemma_sorted_source(pre_sort, sorted@, j);
                    let j0 = choose|j0: int|
                        0 <= j0 < pre_sort.len() && ixv(#[trigger] pre_sort[j0]) == ixv(sorted@[j]);
                    assert(pre_sort[j0].t.wf());
                    assert(self.subshape(*pre_sort[j0].object));
                    assert(!(*pre_sort[j0].object matches Shape::Group(_)));
                }
            }
            Some(sorted)
        }
    }

    /// The meetings of a ray with a set combination: the two children's
    /// meetings are merged in order of distance and filtered by the
    /// operation's rule.
    #[verifier::rlimit(100)]
    #[verifier::spinoff_prover]
    fn csg_local_intersect<'a>(&'a self, c: &'a CSG, r: &Ray) -> (res: Option<
        Vec<Intersection<'a>>,
    >)
        requires
            self.wf(),
            r.wf(),
            *self == Shape::Csg(*c),
        ensures
            match res {
                Some(v) => {
                    &&& views(v@) == self.local_xs(*r)
                    &&& forall|k: int| 0 <= k < v@.len() ==> (#[trigger] v@[k]).t.wf()
                    &&& forall|k: int| 0 <= k < v@.len() ==> self.subshape(*(#[trigger] v@[k]).object)
                    &&& forall|k: int|
                        0 <= k < v@.len() ==> !(*(#[trigger] v@[k]).object matches Shape::Group(_))
                },
                None => self.local_xs(*r) == Seq::<IxView>::empty(),
            },
        decreases *self, 0int,
    {
        let mut xs: Vec<Intersection<'a>> = Vec::new();
        proof {
            assert(decreases_to!(*self => (*self)->Csg_0));
            assert(decreases_to!(*c => c.left));
            assert(decreases_to!(*c => c.right));
        }
        match c.left.intersect(r) {
            Some(mut l) => {
                let ghost lv = l@;
                xs.append(&mut l);
                proof {
                    assert(xs@ =~= lv);
                }
            },
            None => {},
        }
        let ghost after_left = xs@;
        proof {
            assert(views(after_left) =~= (*c.left).shape_xs(*r));
        }
        match c.right.intersect(r) {
            Some(mut rr) => {
                let ghost rv = rr@;
                xs.append(&mut rr);
                proof {
                    assert(xs@ =~= after_left + rv);
                    crate::intersection::lemma_views_concat(after_left, rv);
                }
            },
            None => {
                proof {
                    assert(views(xs@) =~= views(after_left) + (*c.right).shape_xs(*r));
                }
            },
        }
        proof {
            assert(views(xs@) == (*c.left).shape_xs(*r) + (*c.right).shape_xs(*r));
        }
        if xs.len() == 0 {
            proof {
                crate::intersection::lemma_sort_t_sorted(views(xs@));
                lemma_csg_filter_empty(c.operation, *c.left, sort_t(views(xs@)));
                assert(self.local_xs(*r) =~= Seq::<IxView>::empty());
            }
            None
        } else {
            let ghost pre_sort = xs@;
            let comb = sort_intersections(xs);
            let out = c.filter_intersections(comb.as_slice());
            proof {
                lemma_csg_filter_members(c.operation, *c.left, views(comb@), 0, false, false);
                assert forall|j: int| 0 <= j < out@.len() implies (#[trigger] out@[j]).t.wf()
                    && self.subshape(*out@[j].object) && !(*out@[j].object
                    matches Shape::Group(_)) by {
                    let ov = views(out@)[j];
                    assert(ov == ixv(out@[j]));
                    let k0 = choose|k0: int|
                        0 <= k0 < views(comb@).len() && (views(comb@)[k0].0 == ov.0 && views(
                            comb@,
                        )[k0].1 == ov.1);
                    assert(views(comb@)[k0] == ixv(comb@[k0]));
                    crate::intersection::lemma_sorted_source(pre_sort, comb@, k0);
                    let j0 = choose|j0: int|
                        0 <= j0 < pre_sort.len() && ixv(#[trigger] pre_sort[j0]) == ixv(comb@[k0]);
                    assert(pre_sort[j0].t.wf());
                    assert(self.subshape(*pre_sort[j0].object));
                    assert(!(*pre_sort[j0].object matches Shape::Group(_)));
                }
            }
            Some(out)
        }
    }

    /// The meetings of a world-space ray with this shape: the ray is first
    /// carried into object space through the shape's inverse
    /// transformation, and the meetings are exactly those of the carried
    /// ray.
    pub fn intersect<'a>(&'a self, ray: &Ray) -> (res: Option<Vec<Intersection<'a>>>)
        requires
            self.wf(),
            ray.wf(),
        ensures
            match res {
                Some(v) => {
                    &&& views(v@) == self.shape_xs(*ray)
                    &&& forall|k: int| 0 <= k < v@.len() ==> (#[trigger] v@[k]).t.wf()
                    &&& forall|k: int| 0 <= k < v@.len() ==> self.subshape(*(#[trigger] v@[k]).object)
                    &&& forall|k: int|
                        0 <= k < v@.len() ==> !(*(#[trigger] v@[k]).object matches Shape::Group(_))
                },
                None => self.shape_xs(*ray) == Seq::<IxView>::empty(),
            },
        decreases *self, 2int,
    {
        let inv = self.transform().inverse();
        let local_ray = ray.transform(&inv);
        self.local_intersect(&local_ray)
    }
}

/// Every shape below a representable shape is representable.
pub proof fn lemma_subshape_wf(root: Shape, x: Shape)
    requires
        root.wf(),
        root.subshape(x),
    ensures
        x.wf(),
    decreases root,
{
    if x == root {
    } else {
        match root {
            Shape::Group(g) => {
                let i = choose|i: int|
                    0 <= i < g.objects@.len() && (#[trigger] g.objects@[i]).subshape(x);
                lemma_subshape_wf(g.objects@[i], x);
            },
            Shape::Csg(c) => {
                if (*c.left).subshape(x) {
                    lemma_subshape_wf(*c.left, x);
                } else {
                    lemma_subshape_wf(*c.right, x);
                }
            },
            _ => {},
        }
    }
}

/// A child's descendants are the group's descendants.
proof fn lemma_subshape_child(s: Shape, k: int, x: Shape)
    requires
        s matches Shape::Group(g) && 0 <= k < g.objects@.len() && g.objects@[k].subshape(x),
    ensures
        s.subshape(x),
{
}

/// Filtering an empty list keeps nothing.
proof fn lemma_csg_filter_empty(op: crate::shapes::csg::CsgOperation, left: Shape, s: Seq<IxView>)
    requires
        s.len() == 0,
    ensures
        csg_filter(op, left, s, 0, false, false) == Seq::<IxView>::empty(),
{
}

/// Every meeting the filter keeps appears, by distance and shape, in the
/// combined list it scanned.
proof fn lemma_csg_filter_members(
    op: crate::shapes::csg::CsgOperation,
    left: Shape,
    s: Seq<IxView>,
    i: int,
    inl: bool,
    inr: bool,
)
    ensures
        forall|j: int|
            0 <= j < csg_filter(op, left, s, i, inl, inr).len() ==> exists|k0: int|
                0 <= k0 < s.len() && (s[k0].0 == #[trigger] csg_filter(op, left, s, i, inl, inr)[j].0
                    && s[k0].1 == csg_filter(op, left, s, i, inl, inr)[j].1),
    decreases s.len() - i,
{
    if i < 0 || i >= s.len() {
    } else {
        let oid = s[i].1.spec_id();
        let lhit = left.spec_id() == oid || left.contains_id_v(oid);
        let inl2 = if lhit {
            !inl
        } else {
            inl
        };
        let inr2 = if lhit {
            inr
        } else {
            !inr
        };
        lemma_csg_filter_members(op, left, s, i + 1, inl2, inr2);
        let cur = csg_filter(op, left, s, i, inl, inr);
        let rest = csg_filter(op, left, s, i + 1, inl2, inr2);
        if crate::shapes::csg::allowed(op, lhit, inl, inr) {
            assert forall|j: int| 0 <= j < cur.len() implies exists|k0: int|
                0 <= k0 < s.len() && (s[k0].0 == #[trigger] cur[j].0 && s[k0].1 == cur[j].1) by {
                if j == 0 {
                    assert(s[i].0 == cur[0].0 && s[i].1 == cur[0].1);
                } else {
                    assert(cur[j] == rest[j - 1]);
                    let k0 = choose|k0: int|
                        0 <= k0 < s.len() && (s[k0].0 == rest[j - 1].0 && s[k0].1 == rest[j - 1].1);
                    assert(s[k0].0 == cur[j].0 && s[k0].1 == cur[j].1);
                }
            }
        } else {
            assert(cur == rest);
        }
    }
}

} // verus!
