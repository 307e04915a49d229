//! The scene: every shape in it, its one light, and the recursive shader.

use vstd::prelude::*;
use crate::color::Color;
use crate::color::black_c;
use crate::color::cadd;
use crate::color::cmul_s;
use crate::colors::Colors;
use crate::computations::Computations;
use crate::computations::HitState;
use crate::computations::prepare_v;
use crate::computations::schlick_v;
use crate::fx::Fx;
use crate::fx::SCALE;
use crate::fx::clampi;
use crate::fx::fdiv;
use crate::fx::fmul;
use crate::fx::fsub;
use crate::fx::sqrt_i;
use crate::intersection::Intersection;
use crate::intersection::hit_view;
use crate::intersection::lemma_hit_view_agrees;
use crate::intersection::opt_ixv;
use crate::intersection::IxView;
use crate::intersection::ixv;
use crate::intersection::views;
use crate::intersection::sort_t;
use crate::intersection::sort_intersections;
use crate::light::PointLight;
use crate::material::Material;
use crate::material::lighting_v;
use crate::matrix::grid;
use crate::matrix::Matrix;
use crate::patterns::point_through;
use crate::point::Point;
use crate::point::psub;
use crate::ray::Ray;
use crate::shapes::Shape;
use crate::shapes::Sphere;
use crate::transformation::Transformation;
use crate::vector::Vector;
use crate::vector::dot_raw;
use crate::vector::magnitude_raw;
use crate::vector::mul_v;
use crate::vector::sub_v;
use crate::vector::norm_v;
use crate::vector::vec_raw;

verus! {

/// A collection of all objects in a scene, with at most one point light.
/// The world is built up before rendering and is read-only while rays are
/// cast through it.
#[derive(Debug)]
pub struct World {
    /// The one light of the scene, if it has been placed.
    pub light: Option<PointLight>,
    /// The root shapes of the scene, in insertion order.
    pub objects: Vec<Shape>,
}

/// A grid flipped over its diagonal.
pub open spec fn transpose_g(g: Seq<Seq<int>>) -> Seq<Seq<int>> {
    Seq::new(4, |i: int| Seq::new(4, |j: int| g[j][i]))
}

/// The value of a vector carried through a grid.
pub open spec fn vector_through(g: Seq<Seq<int>>, v: Vector) -> Vector {
    vec_raw(
        crate::matrix::apply_g(g, 0, v.x.raw as int, v.y.raw as int, v.z.raw as int, 0),
        crate::matrix::apply_g(g, 1, v.x.raw as int, v.y.raw as int, v.z.raw as int, 0),
        crate::matrix::apply_g(g, 2, v.x.raw as int, v.y.raw as int, v.z.raw as int, 0),
    )
}

/// The point a world-space point becomes in the object space of the shape
/// carrying the given identity: each shape on the path from the root down
/// to it applies its own inverse, outermost first.
pub open spec fn wto_node(node: Shape, id: uuid::Uuid, p: Point) -> Option<Point>
    decreases node, 1int,
{
    let local = point_through(grid(node.spec_transform().inverse), p);
    if node.spec_id() == id {
        Some(local)
    } else {
        match node {
            Shape::Group(g) => wto_kids(g.objects@, 0, id, local),
            Shape::Csg(c) => match wto_node(*c.left, id, local) {
                Some(q) => Some(q),
                None => wto_node(*c.right, id, local),
            },
            _ => None,
        }
    }
}

/// The first child, in order, through which the target can be reached.
pub open spec fn wto_kids(children: Seq<Shape>, i: int, id: uuid::Uuid, p: Point) -> Option<Point>
    decreases children, 0int, children.len() - i,
{
    if i < 0 || i >= children.len() {
        None
    } else {
        match wto_node(children[i], id, p) {
            Some(q) => Some(q),
            None => wto_kids(children, i + 1, id, p),
        }
    }
}

/// One step of carrying a normal outward: the shape's inverse transpose is
/// applied and the result normalized.
pub open spec fn ntw_apply(node: Shape, v: Vector) -> Vector {
    norm_v(vector_through(transpose_g(grid(node.spec_transform().inverse)), v))
}

/// The world-space normal of an object-space normal on the shape carrying
/// the given identity: each shape from it up to the root applies its own
/// inverse transpose and normalizes, innermost first.
pub open spec fn ntw_node(node: Shape, id: uuid::Uuid, v: Vector) -> Option<Vector>
    decreases node, 1int,
{
    if node.spec_id() == id {
        Some(ntw_apply(node, v))
    } else {
        match node {
            Shape::Group(g) => match ntw_kids(g.objects@, 0, id, v) {
                Some(w) => Some(ntw_apply(node, w)),
                None => None,
            },
            Shape::Csg(c) => match ntw_node(*c.left, id, v) {
                Some(w) => Some(ntw_apply(node, w)),
                None => match ntw_node(*c.right, id, v) {
                    Some(w) => Some(ntw_apply(node, w)),
                    None => None,
                },
            },
            _ => None,
        }
    }
}

/// The first child, in order, through which the target can be reached.
pub open spec fn ntw_kids(children: Seq<Shape>, i: int, id: uuid::Uuid, v: Vector) -> Option<Vector>
    decreases children, 0int, children.len() - i,
{
    if i < 0 || i >= children.len() {
        None
    } else {
        match ntw_node(children[i], id, v) {
            Some(w) => Some(w),
            None => ntw_kids(children, i + 1, id, v),
        }
    }
}

/// The material of the nearest ancestor-or-self of the target that does
/// not inherit, carried down as the search descends.
pub open spec fn mat_node(node: Shape, id: uuid::Uuid, anchor: Material) -> Option<Material>
    decreases node, 1int,
{
    let here = if node.spec_inherit_material() {
        anchor
    } else {
        node.spec_material()
    };
    if node.spec_id() == id {
        Some(here)
    } else {
        match node {
            Shape::Group(g) => mat_kids(g.objects@, 0, id, here),
            Shape::Csg(c) => match mat_node(*c.left, id, here) {
                Some(m) => Some(m),
                None => mat_node(*c.right, id, here),
            },
            _ => None,
        }
    }
}

/// The first child, in order, through which the target can be reached.
pub open spec fn mat_kids(children: Seq<Shape>, i: int, id: uuid::Uuid, anchor: Material) -> Option<
    Material,
>
    decreases children, 0int, children.len() - i,
{
    if i < 0 || i >= children.len() {
        None
    } else {
        match mat_node(children[i], id, anchor) {
            Some(m) => Some(m),
            None => mat_kids(children, i + 1, id, anchor),
        }
    }
}

/// Whether a point lies in shadow: the scene holds a meeting of the shadow
/// ray at a nonnegative distance strictly short of the light.
pub open spec fn is_shadow_v(w: World, point: Point) -> bool {
    let lv = psub(w.light->0.position, point);
    let ray = Ray { origin: point, direction: norm_v(lv) };
    exists|k: int|
        0 <= k < w.world_xs(ray).len() && (0 <= #[trigger] w.world_xs(ray)[k].0 < magnitude_raw(
            lv,
        ))
}

/// The color a ray sees: the nearest visible meeting is prepared and
/// shaded, a miss is black.  The recursion is bounded by the remaining
/// depth alone.
pub open spec fn color_at_v(w: World, r: Ray, remaining: nat) -> Color
    decreases remaining, 3int,
{
    let xs = w.world_xs(r);
    match hit_view(xs, 0, None) {
        Some(h) => shade_hit_v(w, prepare_v(r, xs, w, h), remaining),
        None => black_c(),
    }
}

/// The shade of one meeting: the Phong surface term under the shadow test,
/// plus the reflected and refracted contributions, blended by the Schlick
/// reflectance where the material both reflects and transmits.
pub open spec fn shade_hit_v(w: World, c: HitState, remaining: nat) -> Color
    decreases remaining, 2int,
{
    let m = w.eff_material(c.object);
    let surface = lighting_v(
        m,
        c.object.spec_transform(),
        w.light->0,
        c.over_point,
        c.eyev,
        c.normalv,
        is_shadow_v(w, c.over_point),
    );
    let reflected = reflected_v(w, c, remaining);
    let refracted = refracted_v(w, c, remaining);
    if m.reflective.raw > 0 && m.transparency.raw > 0 {
        let reflectance = schlick_v(c.eyev, c.normalv, c.n1.raw as int, c.n2.raw as int);
        cadd(cadd(surface, cmul_s(reflected, reflectance)), cmul_s(refracted, fsub(SCALE as int, reflectance)))
    } else {
        cadd(cadd(surface, reflected), refracted)
    }
}

/// What a mirror adds: black when the material does not reflect or the
/// budget is spent, else the color of the bounced ray from the over point,
/// one level deeper, dimmed by the reflectivity.
pub open spec fn reflected_v(w: World, c: HitState, remaining: nat) -> Color
    decreases remaining, 1int,
{
    let m = w.eff_material(c.object);
    if m.reflective.raw == 0 || remaining == 0 {
        black_c()
    } else {
        cmul_s(
            color_at_v(w, Ray { origin: c.over_point, direction: c.reflectv }, (remaining - 1) as nat),
            m.reflective.raw as int,
        )
    }
}

/// What shines through: black when the material does not transmit, the
/// budget is spent, or the light reflects totally inside; else the color of
/// the Snell-bent ray from the under point, one level deeper, dimmed by the
/// transparency.
pub open spec fn refracted_v(w: World, c: HitState, remaining: nat) -> Color
    decreases remaining, 1int,
{
    let m = w.eff_material(c.object);
    if m.transparency.raw == 0 || remaining == 0 {
        black_c()
    } else if c.n2.raw == 0 {
        black_c()
    } else {
        let n_ratio = fdiv(c.n1.raw as int, c.n2.raw as int);
        let cos_i = dot_raw(c.eyev, c.normalv);
        let sin2_t = fmul(fmul(n_ratio, n_ratio), fsub(SCALE as int, fmul(cos_i, cos_i)));
        if sin2_t > SCALE as int {
            black_c()
        } else {
            let cos_t = clampi(sqrt_i(fsub(SCALE as int, sin2_t) * (SCALE as int)));
            let direction = sub_v(
                mul_v(c.normalv, fsub(fmul(n_ratio, cos_i), cos_t)),
                mul_v(c.eyev, n_ratio),
            );
            cmul_s(
                color_at_v(
                    w,
                    Ray { origin: c.under_point, direction },
                    (remaining - 1) as nat,
                ),
                m.transparency.raw as int,
            )
        }
    }
}

impl World {
    /// The light and every root shape are representable.
    pub open spec fn wf(self) -> bool {
        &&& match self.light {
            Some(l) => l.wf(),
            None => true,
        }
        &&& forall|i: int| 0 <= i < self.objects@.len() ==> (#[trigger] self.objects@[i]).wf()
    }

    /// The plain values of every meeting a ray produces in the scene, in
    /// order of distance.
    pub open spec fn world_xs(self, r: Ray) -> Seq<IxView> {
        sort_t(Shape::kids_xs(self.objects@, self.objects@.len() as int, r))
    }

    /// The world-space point of the first root through which the target
    /// can be reached.
    pub open spec fn wto(self, id: uuid::Uuid, p: Point) -> Option<Point> {
        wto_kids(self.objects@, 0, id, p)
    }

    /// The world-space normal of the first root through which the target
    /// can be reached.
    pub open spec fn ntw(self, id: uuid::Uuid, v: Vector) -> Option<Vector> {
        ntw_kids(self.objects@, 0, id, v)
    }

    /// The material the target shape shows, resolved through inheritance.
    pub open spec fn eff_material(self, object: Shape) -> Material {
        match mat_roots(self.objects@, 0, object.spec_id()) {
            Some(m) => m,
            None => object.spec_material(),
        }
    }

    /// Create a world with no objects and no light.
    pub fn new() -> (r: World)
        ensures
            r.light is None,
            r.objects@.len() == 0,
            r.wf(),
    {
        World { light: None, objects: Vec::new() }
    }

    /// Add a root shape to the world.
    pub fn add_object(&mut self, object: Shape)
        ensures
            final(self).objects@ == old(self).objects@.push(object),
            final(self).light == old(self).light,
    {
        self.objects.push(object);
    }

    /// The root shape at the given position, if there is one.
    pub fn get_object(&self, index: usize) -> (r: Option<&Shape>)
        ensures
            match r {
                Some(s) => index < self.objects@.len() && *s == self.objects@[index as int],
                None => index >= self.objects@.len(),
            },
    {
        if index < self.objects.len() {
            Some(&self.objects[index])
        } else {
            None
        }
    }

    /// Whether a shape with the given identity stands anywhere in the
    /// scene: as a root, or below one.
    pub open spec fn holds_shape_id(self, id: uuid::Uuid) -> bool {
        exists|i: int|
            0 <= i < self.objects@.len() && ((#[trigger] self.objects@[i]).spec_id() == id
                || self.objects@[i].contains_id_v(id))
    }

    /// The shape anywhere in the scene carrying the given identity.
    pub fn get_object_by_id(&self, id: uuid::Uuid) -> (r: Option<&Shape>)
        ensures
            match r {
                Some(s) => s.spec_id() == id && self.holds_shape_id(id) && exists|i: int|
                    0 <= i < self.objects@.len() && (#[trigger] self.objects@[i]).subshape(*s),
                None => !self.holds_shape_id(id),
            },
    {
        let mut k: usize = 0;
        while k < self.objects.len()
            invariant
                k <= self.objects@.len(),
                forall|i: int|
                    0 <= i < k ==> !((#[trigger] self.objects@[i]).spec_id() == id
                        || self.objects@[i].contains_id_v(id)),
            decreases self.objects@.len() - k,
        {
            let root = &self.objects[k];
            if crate::identity::id_eq(root.id(), id) {
                proof {
                    assert(self.objects@[k as int].spec_id() == id || self.objects@[k
                        as int].contains_id_v(id));
                    assert(self.objects@[k as int].subshape(*root));
                }
                return Some(root);
            }
            if let Some(found) = root.get_object_by_id(id) {
                proof {
                    assert(self.objects@[k as int].spec_id() == id || self.objects@[k
                        as int].contains_id_v(id));
                    assert(self.objects@[k as int].subshape(*found));
                }
                return Some(found);
            }
            k = k + 1;
        }
        None
    }

    /// Ask every root shape where the ray meets it and merge the answers
    /// in order of distance.
    pub fn intersect_world<'a>(&'a self, r: &Ray) -> (res: Option<Vec<Intersection<'a>>>)
        requires
            self.wf(),
            r.wf(),
        ensures
            match res {
                Some(v) => {
                    &&& views(v@) == self.world_xs(*r)
                    &&& v@.len() > 0
                    &&& forall|k: int| 0 <= k < v@.len() ==> (#[trigger] v@[k]).t.wf()
                    &&& forall|k: int| 0 <= k < v@.len() ==> (*(#[trigger] v@[k]).object).wf()
                    &&& forall|k: int|
                        0 <= k < v@.len() ==> !(*(#[trigger] v@[k]).object matches Shape::Group(_))
                },
                None => self.world_xs(*r) == Seq::<IxView>::empty(),
            },
    {
        let mut xs: Vec<Intersection<'a>> = Vec::new();
        let mut k: usize = 0;
        proof {
            assert(views(xs@) =~= Shape::kids_xs(self.objects@, 0, *r));
        }
        while k < self.objects.len()
            invariant
                k <= self.objects@.len(),
                r.wf(),
                self.wf(),
                views(xs@) == Shape::kids_xs(self.objects@, k as int, *r),
                forall|j: int| 0 <= j < xs@.len() ==> (#[trigger] xs@[j]).t.wf(),
                forall|j: int| 0 <= j < xs@.len() ==> (*(#[trigger] xs@[j]).object).wf(),
                forall|j: int|
                    0 <= j < xs@.len() ==> !(*(#[trigger] xs@[j]).object matches Shape::Group(_)),
            decreases self.objects@.len() - k,
        {
            let root = &self.objects[k];
            let ghost pre = xs@;
            match root.intersect(r) {
                Some(mut oxs) => {
                    let ghost ov = oxs@;
                    xs.append(&mut oxs);
                    proof {
                        assert(xs@ =~= pre + ov);
                        crate::intersection::lemma_views_concat(pre, ov);
                        assert forall|j: int| 0 <= j < xs@.len() implies (*(#[trigger] xs@[j]).object).wf() by {
                            if j >= pre.len() {
                                assert(root.subshape(*ov[j - pre.len()].object));
                                crate::shapes::shape::lemma_subshape_wf(
                                    *root,
                                    *ov[j - pre.len()].object,
                                );
                            }
                        }
                    }
                },
                None => {
                    proof {
                        assert(views(xs@) =~= views(pre) + root.shape_xs(*r));
                    }
                },
            }
            k = k + 1;
        }
        if xs.len() == 0 {
            proof {
                crate::intersection::lemma_sort_t_sorted(views(xs@));
                assert(self.world_xs(*r) =~= Seq::<IxView>::empty());
            }
            None
        } else {
            let ghost pre_sort = xs@;
            let sorted = sort_intersections(xs);
            proof {
                assert forall|j: int| 0 <= j < sorted@.len() implies (#[trigger] sorted@[j]).t.wf()
                    && (*sorted@[j].object).wf() && !(*sorted@[j].object
                    matches Shape::Group(_)) by {
                    crate::intersection::lemma_sorted_source(pre_sort, sorted@, j);
                    let j0 = choose|j0: int|
                        0 <= j0 < pre_sort.len() && ixv(#[trigger] pre_sort[j0]) == ixv(sorted@[j]);
                    assert(pre_sort[j0].t.wf());
                    assert((*pre_sort[j0].object).wf());
                }
            }
            Some(sorted)
        }
    }

    /// Whether the point lies in shadow: something solid stands between it
    /// and the light, strictly closer than the light itself.
    pub fn is_shadow(&self, point: Point) -> (r: bool)
        requires
            self.wf(),
            self.light is Some,
            point.wf(),
        ensures
            r == is_shadow_v(*self, point),
    {
        let light = match self.light {
            Some(l) => l,
            None => {
                proof {
                    assert(false);
                }
                PointLight {
                    intensity: Colors::black(),
                    position: Point { x: Fx { raw: 0 }, y: Fx { raw: 0 }, z: Fx { raw: 0 } },
                }
            },
        };
        let v = light.position.sub(point);
        let distance = v.magnitude();
        let direction = v.normalize();
        let r = Ray::new(point, direction);
        let ghost gray = Ray { origin: point, direction: norm_v(psub(light.position, point)) };
        match self.intersect_world(&r) {
            Some(intersections) => {
                match Intersection::hit(intersections.as_slice()) {
                    Some(h) => {
                        let shadowed = h.t.raw < distance.raw;
                        proof {
                            let xs = self.world_xs(gray);
                            if shadowed {
                                let k0 = choose|k0: int|
                                    0 <= k0 < intersections@.len() && intersections@[k0] == *h;
                                assert(views(intersections@)[k0] == ixv(intersections@[k0]));
                                assert(0 <= xs[k0].0 < magnitude_raw(
                                    psub(light.position, point),
                                ));
                            } else {
                                assert forall|k: int|
                                    0 <= k < xs.len() implies !(0 <= #[trigger] xs[k].0
                                    < magnitude_raw(psub(light.position, point))) by {
                                    assert(xs[k] == ixv(intersections@[k]));
                                    if intersections@[k].t.raw >= 0 {
                                        assert(h.t.raw <= intersections@[k].t.raw);
                                    }
                                }
                            }
                        }
                        shadowed
                    },
                    None => {
                        proof {
                            let xs = self.world_xs(gray);
                            assert forall|k: int|
                                0 <= k < xs.len() implies !(0 <= #[trigger] xs[k].0
                                < magnitude_raw(psub(light.position, point))) by {
                                assert(xs[k] == ixv(intersections@[k]));
                                assert(intersections@[k].t.raw < 0);
                            }
                        }
                        false
                    },
                }
            },
            None => false,
        }
    }

    /// The material the shape shows: its own, or, when it inherits, the
    /// material of its nearest ancestor that does not.  A shape the world
    /// does not hold shows its own material.
    pub fn get_object_material<'a>(&'a self, object: &'a Shape) -> (r: &'a Material)
        requires
            self.wf(),
        ensures
            *r == self.eff_material(*object),
            object.wf() ==> r.wf(),
    {
        let id = object.id();
        let mut k: usize = 0;
        while k < self.objects.len()
            invariant
                k <= self.objects@.len(),
                self.wf(),
                id == object.spec_id(),
                mat_roots(self.objects@, 0, id) == mat_roots(self.objects@, k as int, id),
            decreases self.objects@.len() - k,
        {
            let root = &self.objects[k];
            let anchor = root.material();
            if let Some(m) = mat_walk(root, id, anchor) {
                return m;
            }
            k = k + 1;
        }
        object.material()
    }

    /// Shade the meeting a ray makes: the Phong surface color, darkened in
    /// shadow, plus what mirrors show and what shines through, the last
    /// two blended by the Schlick reflectance on surfaces that both
    /// reflect and transmit.
    pub fn shade_hit(&self, comps: &Computations, remaining: usize) -> (r: Color)
        requires
            self.wf(),
            self.light is Some,
            comps.wf(),
            comps.object.wf(),
        ensures
            r == shade_hit_v(*self, comps.state(), remaining as nat),
            r.wf(),
        decreases remaining, 2int,
    {
        let light = match self.light {
            Some(l) => l,
            None => {
                proof {
                    assert(false);
                }
                PointLight {
                    intensity: Colors::black(),
                    position: Point { x: Fx { raw: 0 }, y: Fx { raw: 0 }, z: Fx { raw: 0 } },
                }
            },
        };
        let shadowed = self.is_shadow(comps.over_point);
        let material = *self.get_object_material(comps.object);
        let ot = comps.object.transform();
        let surface = material.lighting(
            &ot,
            light,
            comps.over_point,
            comps.eyev,
            comps.normalv,
            shadowed,
        );
        let reflected = self.reflected_color(comps, remaining);
        let refracted = self.refracted_color(comps, remaining);
        if material.reflective.raw > 0 && material.transparency.raw > 0 {
            let reflectance = comps.schlick();
            surface.add(reflected.mul_s(reflectance)).add(
                refracted.mul_s(Fx::one().sub(reflectance)),
            )
        } else {
            surface.add(reflected).add(refracted)
        }
    }

    /// The color a ray sees: the shaded nearest visible meeting, or black
    /// where the ray meets nothing.
    pub fn color_at(&self, r: &Ray, remaining: usize) -> (c: Color)
        requires
            self.wf(),
            self.light is Some,
            r.wf(),
        ensures
            c == color_at_v(*self, *r, remaining as nat),
            c.wf(),
            self.world_xs(*r) == Seq::<IxView>::empty() ==> c == black_c(),
        decreases remaining, 3int,
    {
        match self.intersect_world(r) {
            Some(xs) => {
                proof {
                    assert(views(xs@).len() == xs@.len());
                    lemma_hit_view_agrees(xs@, 0, None);
                }
                match Intersection::hit(xs.as_slice()) {
                    Some(i) => {
                        let comps = i.prepare_computations(r, xs.as_slice(), Some(self));
                        proof {
                            assert(hit_view(self.world_xs(*r), 0, None) == Some(ixv(*i)));
                            assert(comps.state() == prepare_v(
                                *r,
                                self.world_xs(*r),
                                *self,
                                ixv(*i),
                            ));
                        }
                        self.shade_hit(&comps, remaining)
                    },
                    None => Colors::black(),
                }
            },
            None => {
                proof {
                    assert(hit_view(self.world_xs(*r), 0, None) is None);
                }
                Colors::black()
            },
        }
    }

    /// What a mirror-like surface adds: black when the material does not
    /// reflect or the recursion budget is spent, else the color of a
    /// bounced ray, dimmed by the reflectivity.
    pub fn reflected_color(&self, comps: &Computations, remaining: usize) -> (r: Color)
        requires
            self.wf(),
            self.light is Some,
            comps.wf(),
            comps.object.wf(),
        ensures
            r == reflected_v(*self, comps.state(), remaining as nat),
            r.wf(),
            remaining == 0 ==> r == black_c(),
            self.eff_material(*comps.object).reflective.raw == 0 ==> r == black_c(),
        decreases remaining, 1int,
    {
        let material = *self.get_object_material(comps.object);
        if material.reflective.raw == 0 || remaining < 1 {
            Colors::black()
        } else {
            let reflect_ray = Ray::new(comps.over_point, comps.reflectv);
            let color = self.color_at(&reflect_ray, remaining - 1);
            color.mul_s(material.reflective)
        }
    }

    /// What shines through a transparent surface: black when the material
    /// does not transmit, the recursion budget is spent, or the light
    /// reflects totally inside; else the color of the bent ray, dimmed by
    /// the transparency.
    pub fn refracted_color(&self, comps: &Computations, remaining: usize) -> (r: Color)
        requires
            self.wf(),
            self.light is Some,
            comps.wf(),
            comps.object.wf(),
        ensures
            r == refracted_v(*self, comps.state(), remaining as nat),
            r.wf(),
            remaining == 0 ==> r == black_c(),
            self.eff_material(*comps.object).transparency.raw == 0 ==> r == black_c(),
            ({
                let n_ratio = fdiv(comps.n1.raw as int, comps.n2.raw as int);
                let cos_i = dot_raw(comps.eyev, comps.normalv);
                comps.n2.raw != 0 && fmul(fmul(n_ratio, n_ratio), fsub(SCALE as int, fmul(cos_i, cos_i)))
                    > SCALE as int ==> r == black_c()
            }),
        decreases remaining, 1int,
    {
        let material = *self.get_object_material(comps.object);
        if material.transparency.raw == 0 || remaining == 0 {
            Colors::black()
        } else if comps.n2.raw == 0 {
            Colors::black()
        } else {
            let n_ratio = comps.n1.div(comps.n2);
            let cos_i = comps.eyev.dot(comps.normalv);
            let sin2_t = n_ratio.mul(n_ratio).mul(Fx::one().sub(cos_i.mul(cos_i)));
            if sin2_t.raw > SCALE {
                Colors::black()
            } else {
                proof {
                    assert(fsub(SCALE as int, sin2_t.raw as int) >= 0);
                }
                let cos_t = Fx::one().sub(sin2_t).sqrt();
                let direction = comps.normalv.mul(n_ratio.mul(cos_i).sub(cos_t)).sub(
                    comps.eyev.mul(n_ratio),
                );
                let refract_ray = Ray::new(comps.under_point, direction);
                self.color_at(&refract_ray, remaining - 1).mul_s(material.transparency)
            }
        }
    }

    /// The scene many examples start from: one light, an outer colored
    /// sphere and an inner half-size sphere.
    pub fn default_world() -> (r: World)
        ensures
            r.light is Some,
            r.objects@.len() == 2,
            r.wf(),
    {
        let mut w = World::new();
        w.light = Some(
            PointLight::new(
                Point::new(Fx::from_int(-10), Fx::from_int(10), Fx::from_int(-10)),
                Color::new(Fx::one(), Fx::one(), Fx::one()),
            ),
        );
        let mut s1 = Sphere::new();
        s1.material.color = Color::new(Fx { raw: 80000 }, Fx { raw: 100000 }, Fx { raw: 60000 });
        s1.material.diffuse = Fx { raw: 70000 };
        s1.material.specular = Fx { raw: 20000 };
        w.add_object(Shape::Sphere(s1));
        let mut s2 = Sphere::new();
        s2.transform = Transformation::new().scale(
            Fx { raw: 50000 },
            Fx { raw: 50000 },
            Fx { raw: 50000 },
        ).build();
        w.add_object(Shape::Sphere(s2));
        w
    }
}

/// The material the target shows, each root tried in turn with its own
/// material as the anchor.
pub open spec fn mat_roots(roots: Seq<Shape>, i: int, id: uuid::Uuid) -> Option<Material>
    decreases roots.len() - i,
{
    if i < 0 || i >= roots.len() {
        None
    } else {
        match mat_node(roots[i], id, roots[i].spec_material()) {
            Some(m) => Some(m),
            None => mat_roots(roots, i + 1, id),
        }
    }
}

/// The world-space normal of a shape, resolved through the scene when one
/// is supplied: the point walks down to the shape's object space, the
/// variant rule gives the local normal, and the normal walks back out.
/// Without a scene only the shape's own transformation applies.
pub open spec fn normal_at_v(
    s: Shape,
    w_opt: Option<World>,
    p: Point,
    uv: Option<(Fx, Fx)>,
) -> Vector {
    match w_opt {
        Some(w) => {
            let lp = match wto_kids(w.objects@, 0, s.spec_id(), p) {
                Some(q) => q,
                None => point_through(grid(s.spec_transform().inverse), p),
            };
            let ln = s.local_normal_v(lp, uv);
            match ntw_kids(w.objects@, 0, s.spec_id(), ln) {
                Some(n) => n,
                None => ntw_apply(s, ln),
            }
        },
        None => {
            let lp = point_through(grid(s.spec_transform().inverse), p);
            ntw_apply(s, s.local_normal_v(lp, uv))
        },
    }
}

impl Shape {
    /// Carry a world-space point into this shape's object space, applying
    /// the inverse of every shape on the path from the scene's roots down
    /// to this one, outermost first.  A shape the world does not hold
    /// applies only its own inverse.
    pub fn world_to_object(&self, point: Point, w: &World) -> (r: Point)
        requires
            self.wf(),
            point.wf(),
            w.wf(),
        ensures
            r == match w.wto(self.spec_id(), point) {
                Some(q) => q,
                None => point_through(grid(self.spec_transform().inverse), point),
            },
            r.wf(),
    {
        let id = self.id();
        let mut k: usize = 0;
        while k < w.objects.len()
            invariant
                k <= w.objects@.len(),
                w.wf(),
                point.wf(),
                id == self.spec_id(),
                wto_kids(w.objects@, 0, id, point) == wto_kids(w.objects@, k as int, id, point),
            decreases w.objects@.len() - k,
        {
            let root = &w.objects[k];
            if let Some(q) = wto_walk(root, id, point) {
                return q;
            }
            k = k + 1;
        }
        self.transform().inverse().mul_point(point)
    }

    /// Carry an object-space normal of this shape back to world space,
    /// applying the inverse transpose of every shape from this one up to
    /// the scene's root, innermost first, normalizing at each step.  A
    /// shape the world does not hold applies only its own step.
    pub fn normal_to_world(&self, normal: Vector, w: &World) -> (r: Vector)
        requires
            self.wf(),
            normal.wf(),
            w.wf(),
        ensures
            r == match w.ntw(self.spec_id(), normal) {
                Some(n) => n,
                None => ntw_apply(*self, normal),
            },
            r.wf(),
    {
        let id = self.id();
        let mut k: usize = 0;
        while k < w.objects.len()
            invariant
                k <= w.objects@.len(),
                w.wf(),
                normal.wf(),
                id == self.spec_id(),
                ntw_kids(w.objects@, 0, id, normal) == ntw_kids(w.objects@, k as int, id, normal),
            decreases w.objects@.len() - k,
        {
            let root = &w.objects[k];
            if let Some(n) = ntw_walk(root, id, normal) {
                return n;
            }
            k = k + 1;
        }
        ntw_step(self, normal)
    }

    /// The world-space surface normal of the shape at a point, resolved
    /// through the scene when one is supplied.
    pub fn normal_at<'i>(
        &self,
        point: Point,
        hit: Option<&Intersection<'i>>,
        w: Option<&World>,
    ) -> (r: Vector)
        requires
            !(self matches Shape::Group(_)),
            self.wf(),
            point.wf(),
            match w {
                Some(wr) => wr.wf(),
                None => true,
            },
        ensures
            r == normal_at_v(
                *self,
                match w {
                    Some(wr) => Some(*wr),
                    None => None,
                },
                point,
                match hit {
                    Some(h) => match (h.u, h.v) {
                        (Some(u), Some(v)) => Some((u, v)),
                        _ => None,
                    },
                    None => None,
                },
            ),
            r.wf(),
    {
        match w {
            Some(wr) => {
                let local_point = self.world_to_object(point, wr);
                let local_normal = self.local_normal_at(local_point, hit);
                self.normal_to_world(local_normal, wr)
            },
            None => {
                let local_point = self.transform().inverse().mul_point(point);
                let local_normal = self.local_normal_at(local_point, hit);
                ntw_step(self, local_normal)
            },
        }
    }
}

/// One outward step of the normal walk: the shape's inverse transpose is
/// applied and the result normalized.
fn ntw_step(node: &Shape, v: Vector) -> (r: Vector)
    requires
        node.wf(),
        v.wf(),
    ensures
        r == ntw_apply(*node, v),
        r.wf(),
{
    let inv = node.transform().inverse();
    let m = inv.transpose();
    proof {
        let tg = transpose_g(grid(node.spec_transform().inverse));
        assert forall|i: int, j: int| 0 <= i < 4 && 0 <= j < 4 implies grid(m.data)[i][j]
            == tg[i][j] by {
            assert(crate::matrix::ent(m.data, i, j) == crate::matrix::ent(inv.data, j, i));
        }
        assert(grid(m.data) =~~= tg);
    }
    let carried = m.mul_vector(v);
    proof {
        assert(carried == vector_through(transpose_g(grid(node.spec_transform().inverse)), v));
    }
    carried.normalize()
}

/// Walk down one shape looking for the target of a world-to-object
/// conversion.
fn wto_walk(node: &Shape, id: uuid::Uuid, p: Point) -> (r: Option<Point>)
    requires
        node.wf(),
        p.wf(),
    ensures
        match r {
            Some(q) => wto_node(*node, id, p) == Some(q) && q.wf(),
            None => wto_node(*node, id, p) is None,
        },
    decreases *node,
{
    let local = node.transform().inverse().mul_point(p);
    if crate::identity::id_eq(node.id(), id) {
        return Some(local);
    }
    match node {
        Shape::Group(g) => {
            let mut k: usize = 0;
            while k < g.objects.len()
                invariant
                    k <= g.objects@.len(),
                    *node == Shape::Group(*g),
                    node.wf(),
                    local.wf(),
                    node.spec_id() != id,
                    local == point_through(grid(node.spec_transform().inverse), p),
                    wto_kids(g.objects@, 0, id, local) == wto_kids(g.objects@, k as int, id, local),
                decreases g.objects@.len() - k,
            {
                let child = &g.objects[k];
                proof {
                    assert(decreases_to!(*node => (*node)->Group_0));
                    assert(decreases_to!(*g => g.objects));
                    assert(decreases_to!(g.objects => g.objects@));
                    assert(decreases_to!(g.objects@ => g.objects@[k as int]));
                }
                if let Some(q) = wto_walk(child, id, local) {
                    return Some(q);
                }
                k = k + 1;
            }
            None
        },
        Shape::Csg(c) => {
            proof {
                assert(decreases_to!(*node => (*node)->Csg_0));
                assert(decreases_to!(*c => c.left));
                assert(decreases_to!(*c => c.right));
            }
            if let Some(q) = wto_walk(&c.left, id, local) {
                return Some(q);
            }
            if let Some(q) = wto_walk(&c.right, id, local) {
                return Some(q);
            }
            None
        },
        _ => None,
    }
}

/// Walk down one shape looking for the target of an outward normal walk.
fn ntw_walk(node: &Shape, id: uuid::Uuid, v: Vector) -> (r: Option<Vector>)
    requires
        node.wf(),
        v.wf(),
    ensures
        match r {
            Some(n) => ntw_node(*node, id, v) == Some(n) && n.wf(),
            None => ntw_node(*node, id, v) is None,
        },
    decreases *node,
{
    if crate::identity::id_eq(node.id(), id) {
        return Some(ntw_step(node, v));
    }
    match node {
        Shape::Group(g) => {
            let mut k: usize = 0;
            while k < g.objects.len()
                invariant
                    k <= g.objects@.len(),
                    *node == Shape::Group(*g),
                    node.wf(),
                    v.wf(),
                    node.spec_id() != id,
                    ntw_kids(g.objects@, 0, id, v) == ntw_kids(g.objects@, k as int, id, v),
                decreases g.objects@.len() - k,
            {
                let child = &g.objects[k];
                proof {
                    assert(decreases_to!(*node => (*node)->Group_0));
                    assert(decreases_to!(*g => g.objects));
                    assert(decreases_to!(g.objects => g.objects@));
                    assert(decreases_to!(g.objects@ => g.objects@[k as int]));
                }
                if let Some(n) = ntw_walk(child, id, v) {
                    return Some(ntw_step(node, n));
                }
                k = k + 1;
            }
            None
        },
        Shape::Csg(c) => {
            proof {
                assert(decreases_to!(*node => (*node)->Csg_0));
                assert(decreases_to!(*c => c.left));
                assert(decreases_to!(*c => c.right));
            }
            if let Some(n) = ntw_walk(&c.left, id, v) {
                return Some(ntw_step(node, n));
            }
            if let Some(n) = ntw_walk(&c.right, id, v) {
                return Some(ntw_step(node, n));
            }
            None
        },
        _ => None,
    }
}

/// Walk down one shape looking for the target, carrying the anchor
/// material that would apply to an inheriting shape.
fn mat_walk<'a>(node: &'a Shape, id: uuid::Uuid, anchor: &'a Material) -> (r: Option<&'a Material>)
    requires
        node.wf(),
        anchor.wf(),
    ensures
        match r {
            Some(m) => mat_node(*node, id, *anchor) == Some(*m) && m.wf(),
            None => mat_node(*node, id, *anchor) is None,
        },
    decreases *node,
{
    let here: &Material = if node.inherit_material() {
        anchor
    } else {
        node.material()
    };
    if crate::identity::id_eq(node.id(), id) {
        return Some(here);
    }
    match node {
        Shape::Group(g) => {
            let mut k: usize = 0;
            while k < g.objects.len()
                invariant
                    k <= g.objects@.len(),
                    *node == Shape::Group(*g),
                    node.wf(),
                    here.wf(),
                    node.spec_id() != id,
                    *here == (if node.spec_inherit_material() {
                        *anchor
                    } else {
                        node.spec_material()
                    }),
                    mat_kids(g.objects@, 0, id, *here) == mat_kids(g.objects@, k as int, id, *here),
                decreases g.objects@.len() - k,
            {
                let child = &g.objects[k];
                proof {
                    assert(decreases_to!(*node => (*node)->Group_0));
                    assert(decreases_to!(*g => g.objects));
                    assert(decreases_to!(g.objects => g.objects@));
                    assert(decreases_to!(g.objects@ => g.objects@[k as int]));
                }
                if let Some(m) = mat_walk(child, id, here) {
                    return Some(m);
                }
                k = k + 1;
            }
            None
        },
        Shape::Csg(c) => {
            proof {
                assert(decreases_to!(*node => (*node)->Csg_0));
                assert(decreases_to!(*c => c.left));
                assert(decreases_to!(*c => c.right));
            }
            if let Some(m) = mat_walk(&c.left, id, here) {
                return Some(m);
            }
            if let Some(m) = mat_walk(&c.right, id, here) {
                return Some(m);
            }
            None
        },
        _ => None,
    }
}

} // verus!
