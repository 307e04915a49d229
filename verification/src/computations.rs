//! The per-hit state derived from one meeting of a ray and a shape.

use vstd::prelude::*;
use crate::fx::Fx;
use crate::fx::EPSILON;
use crate::intersection::Intersection;
use crate::intersection::IxView;
use crate::intersection::ixv;
use crate::intersection::views;
use crate::point::padd_v;
use crate::point::psubv_v;
use crate::ray::Ray;
use crate::ray::position_v;
use crate::vector::mul_v;
use crate::vector::neg_v;
use crate::vector::reflect_v;
use crate::world::World;
use crate::world::normal_at_v;
use crate::fx::SCALE;
use crate::fx::fadd;
use crate::fx::fsub;
use crate::fx::fmul;
use crate::fx::fdiv;
use crate::fx::fpow;
use crate::fx::clampi;
use crate::fx::sqrt_i;
use crate::point::Point;
use crate::shapes::Shape;
use crate::vector::Vector;
use crate::vector::dot_raw;

verus! {

/// Everything the shader needs to know about one meeting: where it is, how
/// the surface faces the eye, and the refractive indices on either side.
pub struct Computations<'a> {
    /// Distance from the ray's origin to the meeting.
    pub t: Fx,
    /// The shape met.
    pub object: &'a Shape,
    /// The meeting point in world space.
    pub point: Point,
    /// The point nudged along the normal, above the surface, so secondary
    /// rays do not meet the surface they start on.
    pub over_point: Point,
    /// The point nudged against the normal, below the surface, for the
    /// rays that pass through.
    pub under_point: Point,
    /// The direction back toward the eye.
    pub eyev: Vector,
    /// The surface normal, flipped toward the eye when the ray started
    /// inside the shape.
    pub normalv: Vector,
    /// Whether the ray started inside the shape.
    pub inside: bool,
    /// The direction of a mirrored ray.
    pub reflectv: Vector,
    /// The refractive index on the side the ray came from.
    pub n1: Fx,
    /// The refractive index on the side the ray enters.
    pub n2: Fx,
}

/// The Schlick approximation of the Fresnel reflectance: how much of the
/// light a partly transparent surface reflects rather than refracts.  Under
/// total internal reflection it is one whole unit.
pub open spec fn schlick_v(eyev: Vector, normalv: Vector, n1: int, n2: int) -> int {
    if n2 == 0 || n1 + n2 == 0 {
        SCALE as int
    } else {
        schlick_body(eyev, normalv, n1, n2)
    }
}

/// The Schlick formula on well-behaved refractive indices.
pub open spec fn schlick_body(eyev: Vector, normalv: Vector, n1: int, n2: int) -> int {
    let cos0 = dot_raw(eyev, normalv);
    let cos1 = if n1 > n2 {
        let n = fdiv(n1, n2);
        let sin2_t = fmul(fmul(n, n), fsub(SCALE as int, fmul(cos0, cos0)));
        if sin2_t > SCALE as int {
            cos0
        } else {
            clampi(sqrt_i(fsub(SCALE as int, sin2_t) * (SCALE as int)))
        }
    } else {
        cos0
    };
    let tir = n1 > n2 && fmul(fmul(fdiv(n1, n2), fdiv(n1, n2)), fsub(SCALE as int, fmul(cos0, cos0)))
        > SCALE as int;
    if tir {
        SCALE as int
    } else {
        let r0 = fmul(fdiv(fsub(n1, n2), fadd(n1, n2)), fdiv(fsub(n1, n2), fadd(n1, n2)));
        fadd(r0, fmul(fsub(SCALE as int, r0), fpow(fsub(SCALE as int, cos1), 5)))
    }
}

/// The plain shapes behind a list of shape references.
pub open spec fn shapes_of<'a>(s: Seq<&'a Shape>) -> Seq<Shape> {
    s.map_values(|o: &'a Shape| *o)
}

/// The raw refractive index a shape shows, resolved through the scene when
/// one is supplied.
pub open spec fn index_raw_of(o: Shape, w_opt: Option<World>) -> int {
    (match w_opt {
        Some(w) => w.eff_material(o),
        None => o.spec_material(),
    }).refractive_index.raw as int
}

/// Whether the record of entered shapes holds one with this identity.
pub open spec fn holds_id(cont: Seq<Shape>, id: uuid::Uuid) -> bool {
    exists|j: int| 0 <= j < cont.len() && (#[trigger] cont[j]).spec_id() == id
}

/// The record with every shape of the given identity removed, scanned from
/// position `i`.
pub open spec fn drop_id(cont: Seq<Shape>, id: uuid::Uuid, i: int) -> Seq<Shape>
    decreases cont.len() - i,
{
    if i < 0 || i >= cont.len() {
        Seq::empty()
    } else {
        let rest = drop_id(cont, id, i + 1);
        if cont[i].spec_id() == id {
            rest
        } else {
            seq![cont[i]] + rest
        }
    }
}

/// Crossing a shape's surface toggles it in the record: a shape already
/// present leaves, wherever it stands; a new one joins at the end.
pub open spec fn toggled(cont: Seq<Shape>, s: Shape) -> Seq<Shape> {
    if holds_id(cont, s.spec_id()) {
        drop_id(cont, s.spec_id(), 0)
    } else {
        cont.push(s)
    }
}

/// The refractive index at the top of the record: a vacuum when it is empty.
pub open spec fn top_index(cont: Seq<Shape>, w_opt: Option<World>) -> int {
    if cont.len() == 0 {
        SCALE as int
    } else {
        index_raw_of(cont.last(), w_opt)
    }
}

/// The refractive indices on either side of the sought meeting: the ordered
/// meetings are scanned while the record of entered shapes is kept; at the
/// sought meeting the index before the crossing and the index after it are
/// read off the record.  A meeting never found leaves both indices zero.
pub open spec fn refr_scan(
    xs: Seq<IxView>,
    t: int,
    oid: uuid::Uuid,
    w_opt: Option<World>,
    i: int,
    cont: Seq<Shape>,
) -> (int, int)
    decreases xs.len() - i,
{
    if i < 0 || i >= xs.len() {
        (0, 0)
    } else {
        let is_hit = xs[i].0 == t && xs[i].1.spec_id() == oid;
        let cont2 = toggled(cont, xs[i].1);
        if is_hit {
            (top_index(cont, w_opt), top_index(cont2, w_opt))
        } else {
            refr_scan(xs, t, oid, w_opt, i + 1, cont2)
        }
    }
}

/// The per-hit state with the shape held by value: what the specification
/// of the recursive shader speaks of, in place of the borrowed record the
/// executable code carries.
pub struct HitState {
    /// Distance from the ray's origin to the meeting.
    pub t: Fx,
    /// The shape met.
    pub object: Shape,
    /// The meeting point in world space.
    pub point: Point,
    /// The point nudged above the surface.
    pub over_point: Point,
    /// The point nudged below the surface.
    pub under_point: Point,
    /// The direction back toward the eye.
    pub eyev: Vector,
    /// The surface normal, flipped toward the eye when inside.
    pub normalv: Vector,
    /// Whether the ray started inside the shape.
    pub inside: bool,
    /// The direction of a mirrored ray.
    pub reflectv: Vector,
    /// The refractive index on the side the ray came from.
    pub n1: Fx,
    /// The refractive index on the side the ray enters.
    pub n2: Fx,
}

impl<'a> Computations<'a> {
    /// The per-hit state read off as plain values.
    pub open spec fn state(self) -> HitState {
        HitState {
            t: self.t,
            object: *self.object,
            point: self.point,
            over_point: self.over_point,
            under_point: self.under_point,
            eyev: self.eyev,
            normalv: self.normalv,
            inside: self.inside,
            reflectv: self.reflectv,
            n1: self.n1,
            n2: self.n2,
        }
    }
}

/// The per-hit state one meeting of a scanned list gives rise to, derived
/// entirely from plain values: the point along the ray, the world-space
/// normal resolved through the scene, the nudged points, the mirror
/// direction and the refractive pair of the container scan.
pub open spec fn prepare_v(r: Ray, xs: Seq<IxView>, w: World, h: IxView) -> HitState {
    let point = position_v(r, h.0);
    let n0 = normal_at_v(
        h.1,
        Some(w),
        point,
        match (h.2, h.3) {
            (Some(u), Some(v)) => Some((u, v)),
            _ => None,
        },
    );
    let inside = dot_raw(n0, neg_v(r.direction)) < 0;
    let normalv = if inside {
        neg_v(n0)
    } else {
        n0
    };
    let pair = refr_scan(xs, h.0, h.1.spec_id(), Some(w), 0, Seq::empty());
    HitState {
        t: Fx { raw: h.0 as i64 },
        object: h.1,
        point,
        over_point: padd_v(point, mul_v(normalv, EPSILON as int)),
        under_point: psubv_v(point, mul_v(normalv, EPSILON as int)),
        eyev: neg_v(r.direction),
        normalv,
        inside,
        reflectv: reflect_v(r.direction, normalv),
        n1: Fx { raw: pair.0 as i64 },
        n2: Fx { raw: pair.1 as i64 },
    }
}

impl<'a> Computations<'a> {
    /// The geometric parts all lie in the representable range.
    pub open spec fn wf(self) -> bool {
        &&& self.t.wf()
        &&& self.point.wf()
        &&& self.over_point.wf()
        &&& self.under_point.wf()
        &&& self.eyev.wf()
        &&& self.normalv.wf()
        &&& self.reflectv.wf()
        &&& self.n1.wf()
        &&& self.n2.wf()
    }

    /// The Schlick reflectance of this meeting: near one whole unit at a
    /// grazing or totally internally reflecting angle, small head-on.
    pub fn schlick(&self) -> (r: Fx)
        requires
            self.wf(),
        ensures
            r.raw as int == schlick_v(
                self.eyev,
                self.normalv,
                self.n1.raw as int,
                self.n2.raw as int,
            ),
            r.wf(),
    {
        if self.n2.raw == 0 || self.n1.raw as i128 + self.n2.raw as i128 == 0 {
            return Fx::one();
        }
        let mut cos = self.eyev.dot(self.normalv);
        let mut tir = false;
        if self.n1.raw > self.n2.raw {
            let n = self.n1.div(self.n2);
            let sin2_t = n.mul(n).mul(Fx::one().sub(cos.mul(cos)));
            if sin2_t.raw > SCALE {
                tir = true;
            } else {
                proof {
                    assert(fsub(SCALE as int, sin2_t.raw as int) >= 0);
                }
                cos = Fx::one().sub(sin2_t).sqrt();
            }
        }
        if tir {
            return Fx::one();
        }
        let d = self.n1.sub(self.n2).div(self.n1.add(self.n2));
        let r0 = d.mul(d);
        r0.add(Fx::one().sub(r0).mul(Fx::one().sub(cos).powi(5)))
    }
}

impl<'a> Intersection<'a> {
    /// Derive the full per-hit state from one meeting: the meeting point,
    /// the eye and surface vectors, the nudged points secondary rays start
    /// from, and the refractive indices on either side of the surface,
    /// found by scanning the ordered meetings while keeping a record of
    /// which shapes the ray is currently inside.
    pub fn prepare_computations(
        &self,
        r: &Ray,
        xs: &[Intersection<'a>],
        w: Option<&World>,
    ) -> (res: Computations<'a>)
        requires
            r.wf(),
            self.t.wf(),
            self.object.wf(),
            !(*self.object matches Shape::Group(_)),
            match w {
                Some(wr) => wr.wf(),
                None => true,
            },
            forall|k: int| 0 <= k < xs@.len() ==> (#[trigger] xs@[k]).object.wf(),
        ensures
            ({
                let point = position_v(*r, self.t.raw as int);
                let n0 = normal_at_v(
                    *self.object,
                    match w {
                        Some(wr) => Some(*wr),
                        None => None,
                    },
                    point,
                    match (self.u, self.v) {
                        (Some(u), Some(v)) => Some((u, v)),
                        _ => None,
                    },
                );
                let inside = dot_raw(n0, neg_v(r.direction)) < 0;
                let normalv = if inside {
                    neg_v(n0)
                } else {
                    n0
                };
                &&& res.t == self.t
                &&& res.object == self.object
                &&& res.point == point
                &&& res.eyev == neg_v(r.direction)
                &&& res.inside == inside
                &&& res.normalv == normalv
                &&& res.over_point == padd_v(point, mul_v(normalv, EPSILON as int))
                &&& res.under_point == psubv_v(point, mul_v(normalv, EPSILON as int))
                &&& res.reflectv == reflect_v(r.direction, normalv)
                &&& (res.n1.raw as int, res.n2.raw as int) == refr_scan(
                    views(xs@),
                    self.t.raw as int,
                    self.object.spec_id(),
                    match w {
                        Some(wr) => Some(*wr),
                        None => None,
                    },
                    0,
                    Seq::empty(),
                )
            }),
            res.wf(),
    {
        let point = r.position(self.t);
        let mut normalv = self.object.normal_at(point, Some(self), w);
        let mut inside = false;
        if normalv.dot(r.direction.neg()).raw < 0 {
            inside = true;
            normalv = normalv.neg();
        }
        let eps = Fx { raw: crate::fx::EPSILON };
        let over_point = point.add(normalv.mul(eps));
        let under_point = point.sub_vec(normalv.mul(eps));
        let reflectv = r.direction.reflect(normalv);
        let (n1, n2) = refractive_pair(xs, self.t, self.object.id(), w);
        Computations {
            t: self.t,
            object: self.object,
            point,
            over_point,
            under_point,
            eyev: r.direction.neg(),
            normalv,
            inside,
            reflectv,
            n1,
            n2,
        }
    }
}

/// The refractive index a shape shows, resolved through the scene when one
/// is supplied.
fn index_of<'a>(o: &'a Shape, w: Option<&World>) -> (r: Fx)
    requires
        o.wf(),
        match w {
            Some(wr) => wr.wf(),
            None => true,
        },
    ensures
        r.raw as int == index_raw_of(
            *o,
            match w {
                Some(wr) => Some(*wr),
                None => None,
            },
        ),
        r.wf(),
{
    match w {
        Some(wr) => wr.get_object_material(o).refractive_index,
        None => o.material().refractive_index,
    }
}

/// The refractive indices on either side of one meeting: the ordered
/// meetings are scanned once while a record of the shapes the ray is
/// currently inside is kept; at the sought meeting, the index before the
/// crossing and the index after it are read off the record's top, with a
/// vacuum where the record is empty.  Leaving a shape removes it from the
/// record even when it was entered twice, so overlapping volumes behave.
fn refractive_pair<'a>(xs: &[Intersection<'a>], t: Fx, oid: uuid::Uuid, w: Option<&World>) -> (r: (
    Fx,
    Fx,
))
    requires
        match w {
            Some(wr) => wr.wf(),
            None => true,
        },
        forall|k: int| 0 <= k < xs@.len() ==> (#[trigger] xs@[k]).object.wf(),
    ensures
        (r.0.raw as int, r.1.raw as int) == refr_scan(
            views(xs@),
            t.raw as int,
            oid,
            match w {
                Some(wr) => Some(*wr),
                None => None,
            },
            0,
            Seq::empty(),
        ),
        r.0.wf(),
        r.1.wf(),
{
    let ghost wv = match w {
        Some(wr) => Some(*wr),
        None => None,
    };
    let ghost s = views(xs@);
    let ghost goal = refr_scan(s, t.raw as int, oid, wv, 0, Seq::<Shape>::empty());
    let mut containers: Vec<&'a Shape> = Vec::new();
    let mut i: usize = 0;
    proof {
        assert(shapes_of(containers@) =~= Seq::<Shape>::empty());
    }
    while i < xs.len()
        invariant
            i <= xs@.len(),
            s == views(xs@),
            wv == (match w {
                Some(wr) => Some(*wr),
                None => None,
            }),
            goal == refr_scan(s, t.raw as int, oid, wv, 0, Seq::<Shape>::empty()),
            goal == refr_scan(s, t.raw as int, oid, wv, i as int, shapes_of(containers@)),
            match w {
                Some(wr) => wr.wf(),
                None => true,
            },
            forall|k: int| 0 <= k < xs@.len() ==> (#[trigger] xs@[k]).object.wf(),
            forall|j: int| 0 <= j < containers@.len() ==> (*(#[trigger] containers@[j])).wf(),
        decreases xs@.len() - i,
    {
        let ghost cont0 = shapes_of(containers@);
        let x = &xs[i];
        proof {
            assert(s[i as int] == ixv(xs@[i as int]));
        }
        let is_hit = x.t.raw == t.raw && crate::identity::id_eq(x.object.id(), oid);
        let mut n1 = Fx::zero();
        if is_hit {
            if containers.len() == 0 {
                n1 = Fx::one();
            } else {
                proof {
                    assert(cont0.last() == *containers@[containers@.len() - 1]);
                }
                n1 = index_of(containers[containers.len() - 1], w);
            }
            proof {
                assert(n1.raw as int == top_index(cont0, wv));
            }
        }
        let mut found = false;
        let mut j: usize = 0;
        while j < containers.len()
            invariant
                j <= containers@.len(),
                cont0 == shapes_of(containers@),
                found == exists|q: int|
                    0 <= q < j && (#[trigger] cont0[q]).spec_id() == xs@[i as int].object.spec_id(),
                i < xs@.len(),
            decreases containers@.len() - j,
        {
            if crate::identity::id_eq(containers[j].id(), xs[i].object.id()) {
                proof {
                    assert(cont0[j as int].spec_id() == xs@[i as int].object.spec_id());
                }
                found = true;
            }
            j = j + 1;
        }
        proof {
            assert(found == holds_id(cont0, xs@[i as int].object.spec_id()));
        }
        if found {
            let ghost xid = xs@[i as int].object.spec_id();
            let mut kept: Vec<&'a Shape> = Vec::new();
            let mut j2: usize = 0;
            while j2 < containers.len()
                invariant
                    j2 <= containers@.len(),
                    cont0 == shapes_of(containers@),
                    xid == xs@[i as int].object.spec_id(),
                    i < xs@.len(),
                    drop_id(cont0, xid, 0) == shapes_of(kept@) + drop_id(cont0, xid, j2 as int),
                    forall|q: int| 0 <= q < containers@.len() ==> (*(#[trigger] containers@[q])).wf(),
                    forall|q: int| 0 <= q < kept@.len() ==> (*(#[trigger] kept@[q])).wf(),
                decreases containers@.len() - j2,
            {
                let ghost pre = kept@;
                if !crate::identity::id_eq(containers[j2].id(), xs[i].object.id()) {
                    kept.push(containers[j2]);
                    proof {
                        assert(shapes_of(kept@) =~= shapes_of(pre).push(cont0[j2 as int]));
                        assert(shapes_of(pre) + (seq![cont0[j2 as int]] + drop_id(
                            cont0,
                            xid,
                            j2 as int + 1,
                        )) =~= shapes_of(kept@) + drop_id(cont0, xid, j2 as int + 1));
                    }
                }
                j2 = j2 + 1;
            }
            proof {
                assert(shapes_of(kept@) + drop_id(cont0, xid, containers@.len() as int)
                    =~= shapes_of(kept@));
            }
            containers = kept;
        } else {
            let ghost pre = containers@;
            containers.push(x.object);
            proof {
                assert(shapes_of(containers@) =~= shapes_of(pre).push(*xs@[i as int].object));
            }
        }
        proof {
            assert(shapes_of(containers@) == toggled(cont0, *xs@[i as int].object));
        }
        if is_hit {
            let n2: Fx;
            if containers.len() == 0 {
                n2 = Fx::one();
            } else {
                proof {
                    assert(shapes_of(containers@).last() == *containers@[containers@.len() - 1]);
                }
                n2 = index_of(containers[containers.len() - 1], w);
            }
            proof {
                assert(n2.raw as int == top_index(shapes_of(containers@), wv));
            }
            return (n1, n2);
        }
        i = i + 1;
    }
    (Fx::zero(), Fx::zero())
}

} // verus!
