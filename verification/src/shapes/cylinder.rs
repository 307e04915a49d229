//! A cylinder of radius one around the y axis, optionally bounded and capped.

use vstd::prelude::*;
use crate::fx::Fx;
use crate::fx::SCALE;
use crate::fx::clampi;
use crate::fx::fadd;
use crate::fx::fsub;
use crate::fx::fmul;
use crate::fx::fdiv;
use crate::fx::fx_eq;
use crate::fx::sqrt_i;
use crate::material::Material;
use crate::matrix::Matrix;
use crate::ray::Ray;

verus! {

/// An infinite tube of radius one around the y axis, optionally cut off at
/// a minimum and maximum height and closed by flat caps.
#[derive(Clone, Debug)]
pub struct Cylinder {
    /// The identity token of the shape.
    pub id: uuid::Uuid,
    /// The identity of the group or combination holding the shape, if any.
    pub parent_id: Option<uuid::Uuid>,
    /// The object-to-parent-space transformation.
    pub transform: Matrix,
    /// The look of the shape's surface.
    pub material: Material,
    /// The height below which the tube is cut away.
    pub minimum: Fx,
    /// The height above which the tube is cut away.
    pub maximum: Fx,
    /// Whether the cut ends are closed by flat caps.
    pub closed: bool,
}

/// Whether the ray at distance `t` lies within radius one of the y axis,
/// where a cap disk would catch it.
pub open spec fn cap_hit(r: Ray, t: int) -> bool {
    let x = fadd(r.origin.x.raw as int, fmul(t, r.direction.x.raw as int));
    let z = fadd(r.origin.z.raw as int, fmul(t, r.direction.z.raw as int));
    fadd(fmul(x, x), fmul(z, z)) <= SCALE as int
}

/// The distances at which a ray meets the cap disks of a closed cylinder,
/// in the order the caps are tried: the lower cap, then the upper.
pub open spec fn cyl_cap_ts(c: Cylinder, r: Ray) -> Seq<int> {
    if !c.closed || fx_eq(r.direction.y.raw as int, 0) {
        Seq::empty()
    } else {
        let tlo = fdiv(fsub(c.minimum.raw as int, r.origin.y.raw as int), r.direction.y.raw as int);
        let thi = fdiv(fsub(c.maximum.raw as int, r.origin.y.raw as int), r.direction.y.raw as int);
        let lo = if cap_hit(r, tlo) {
            seq![tlo]
        } else {
            Seq::empty()
        };
        if cap_hit(r, thi) {
            lo + seq![thi]
        } else {
            lo
        }
    }
}

/// The height of the ray at distance `t`.
pub open spec fn height_at(r: Ray, t: int) -> int {
    fadd(r.origin.y.raw as int, fmul(t, r.direction.y.raw as int))
}

/// The distances at which a ray meets the cylinder: the wall crossings that
/// fall strictly between the height bounds, in ascending order, followed by
/// any cap crossings.
pub open spec fn cyl_ts(c: Cylinder, r: Ray) -> Seq<int> {
    let dx = r.direction.x.raw as int;
    let dz = r.direction.z.raw as int;
    let ox = r.origin.x.raw as int;
    let oz = r.origin.z.raw as int;
    let a = fadd(fmul(dx, dx), fmul(dz, dz));
    if fx_eq(a, 0) {
        cyl_cap_ts(c, r)
    } else {
        let b = fadd(fmul(fmul(clampi(2 * SCALE), ox), dx), fmul(fmul(clampi(2 * SCALE), oz), dz));
        let cc = fsub(fadd(fmul(ox, ox), fmul(oz, oz)), SCALE as int);
        let disc = fsub(fmul(b, b), fmul(fmul(clampi(4 * SCALE), a), cc));
        let den = fmul(clampi(2 * SCALE), a);
        if disc < 0 || den == 0 {
            Seq::empty()
        } else {
            let sq = clampi(sqrt_i(disc * (SCALE as int)));
            let ta = fdiv(fsub(clampi(-b), sq), den);
            let tb = fdiv(fadd(clampi(-b), sq), den);
            let t0 = if ta > tb {
                tb
            } else {
                ta
            };
            let t1 = if ta > tb {
                ta
            } else {
                tb
            };
            let w0: Seq<int> = if c.minimum.raw < height_at(r, t0) < c.maximum.raw {
                seq![t0]
            } else {
                Seq::empty()
            };
            let w1: Seq<int> = if c.minimum.raw < height_at(r, t1) < c.maximum.raw {
                seq![t1]
            } else {
                Seq::empty()
            };
            w0 + w1 + cyl_cap_ts(c, r)
        }
    }
}

impl Cylinder {
    /// The shape's transformation and material are representable.
    pub open spec fn wf(self) -> bool {
        self.transform.wf() && self.material.wf()
    }

    /// Create an unbounded, open cylinder with a fresh identity, the
    /// identity transform and the default material.
    pub fn new() -> (r: Cylinder)
        ensures
            r.parent_id is None,
            r.transform.inverse == r.transform.data,
            crate::matrix::grid(r.transform.data) == crate::matrix::identity_g(),
            r.material == Material::new_v(),
            r.minimum.raw == i64::MIN,
            r.maximum.raw == i64::MAX,
            !r.closed,
            r.wf(),
    {
        Cylinder {
            id: crate::identity::fresh_id(),
            parent_id: None,
            transform: Matrix::identity(),
            material: Material::new(),
            minimum: Fx { raw: i64::MIN },
            maximum: Fx { raw: i64::MAX },
            closed: false,
        }
    }

    /// Whether the ray at distance `t` lands on a cap disk.
    fn check_cap(r: &Ray, t: Fx) -> (res: bool)
        ensures
            res == cap_hit(*r, t.raw as int),
    {
        let x = r.origin.x.add(t.mul(r.direction.x));
        let z = r.origin.z.add(t.mul(r.direction.z));
        x.mul(x).add(z.mul(z)).raw <= SCALE
    }

    /// The cap crossings for a ray already in object space.
    fn intersect_caps(&self, r: &Ray) -> (res: Vec<Fx>)
        ensures
            res@.map_values(|t: Fx| t.raw as int) == cyl_cap_ts(*self, *r),
            forall|k: int| 0 <= k < res@.len() ==> (#[trigger] res@[k]).wf(),
    {
        let mut xs: Vec<Fx> = Vec::new();
        if !self.closed || r.direction.y.approx_eq(Fx::zero()) {
            proof {
                assert(xs@.map_values(|t: Fx| t.raw as int) =~= cyl_cap_ts(*self, *r));
            }
            return xs;
        }
        let t = self.minimum.sub(r.origin.y).div(r.direction.y);
        if Cylinder::check_cap(r, t) {
            xs.push(t);
        }
        let t2 = self.maximum.sub(r.origin.y).div(r.direction.y);
        if Cylinder::check_cap(r, t2) {
            xs.push(t2);
        }
        proof {
            assert(xs@.map_values(|t: Fx| t.raw as int) =~= cyl_cap_ts(*self, *r));
        }
        xs
    }

    /// All crossings of a ray already in object space: walls within the
    /// height bounds, then caps.
    pub fn ts(&self, r: &Ray) -> (res: Vec<Fx>)
        requires
            r.wf(),
        ensures
            res@.map_values(|t: Fx| t.raw as int) == cyl_ts(*self, *r),
            forall|k: int| 0 <= k < res@.len() ==> (#[trigger] res@[k]).wf(),
    {
        let a = r.direction.x.mul(r.direction.x).add(r.direction.z.mul(r.direction.z));
        if a.approx_eq(Fx::zero()) {
            return self.intersect_caps(r);
        }
        let two = Fx::from_int(2);
        let b = two.mul(r.origin.x).mul(r.direction.x).add(two.mul(r.origin.z).mul(r.direction.z));
        let c = r.origin.x.mul(r.origin.x).add(r.origin.z.mul(r.origin.z)).sub(Fx::one());
        let disc = b.mul(b).sub(Fx::from_int(4).mul(a).mul(c));
        let den = two.mul(a);
        if disc.raw < 0 || den.raw == 0 {
            let xs: Vec<Fx> = Vec::new();
            proof {
                assert(xs@.map_values(|t: Fx| t.raw as int) =~= cyl_ts(*self, *r));
            }
            return xs;
        }
        let sq = disc.sqrt();
        let ta = b.neg().sub(sq).div(den);
        let tb = b.neg().add(sq).div(den);
        let (t0, t1) = if ta.raw > tb.raw {
            (tb, ta)
        } else {
            (ta, tb)
        };
        let mut xs: Vec<Fx> = Vec::new();
        let y0 = r.origin.y.add(t0.mul(r.direction.y));
        if self.minimum.raw < y0.raw && y0.raw < self.maximum.raw {
            xs.push(t0);
        }
        let y1 = r.origin.y.add(t1.mul(r.direction.y));
        if self.minimum.raw < y1.raw && y1.raw < self.maximum.raw {
            xs.push(t1);
        }
        let mut caps = self.intersect_caps(r);
        xs.append(&mut caps);
        proof {
            assert(xs@.map_values(|t: Fx| t.raw as int) =~= cyl_ts(*self, *r));
        }
        xs
    }
}

} // verus!
