//! Concentric rings of two colors around the y axis.

use vstd::prelude::*;
use crate::color::Color;
use crate::fx::Fx;
use crate::fx::SCALE;
use crate::fx::fadd;
use crate::fx::fmul;
use crate::fx::clampi;
use crate::fx::sqrt_i;
use crate::matrix::Matrix;
use crate::point::Point;

verus! {

/// Rings of two alternating colors, one unit wide, centered on the y axis.
#[derive(Clone, Copy, Debug)]
pub struct Ring {
    /// The identity token of the pattern.
    pub id: uuid::Uuid,
    /// The color of the even rings.
    pub a: Color,
    /// The color of the odd rings.
    pub b: Color,
    /// The pattern's own transformation.
    pub transform: Matrix,
}

/// A raw value rounded to the nearest hundredth of a unit, halves away from
/// zero, as the radial distance is steadied before the ring is picked.
pub open spec fn round_cents(v: int) -> int {
    if v >= 0 {
        ((v + 500) / 1000) * 1000
    } else {
        -((((-v) + 500) / 1000) * 1000)
    }
}

/// The raw radial distance of the steadied point from the y axis.
pub open spec fn ring_radius(p: Point) -> int {
    let x = round_cents(p.x.raw as int);
    let z = round_cents(p.z.raw as int);
    clampi(sqrt_i(fadd(fmul(x, x), fmul(z, z)) * (SCALE as int)))
}

/// The color a ring pattern shows at a point in pattern space.
pub open spec fn ring_color(a: Color, b: Color, p: Point) -> Color {
    if (ring_radius(p) / (SCALE as int)) % 2 == 0 {
        a
    } else {
        b
    }
}

impl Ring {
    /// The pattern's colors and transformation are representable.
    pub open spec fn wf(self) -> bool {
        self.a.wf() && self.b.wf() && self.transform.wf()
    }

    /// Create a ring pattern of two colors with the identity transform.
    pub fn new(a: Color, b: Color) -> (r: Ring)
        ensures
            r.a == a,
            r.b == b,
            r.transform.inverse == r.transform.data,
            a.wf() && b.wf() ==> r.wf(),
    {
        Ring { id: crate::identity::fresh_id(), a, b, transform: Matrix::identity() }
    }

    /// The pattern's own transformation.
    pub fn transform(&self) -> (r: Matrix)
        ensures
            r == self.transform,
    {
        self.transform
    }

    /// Replace the pattern's transformation.
    pub fn set_transform(&mut self, transform: Matrix)
        ensures
            final(self).transform == transform,
            final(self).a == old(self).a,
            final(self).b == old(self).b,
            final(self).id == old(self).id,
    {
        self.transform = transform;
    }

    /// Round a coordinate to the nearest hundredth of a unit.
    fn steady(v: Fx) -> (r: Fx)
        requires
            v.wf(),
        ensures
            r.raw as int == round_cents(v.raw as int),
    {
        broadcast use vstd::arithmetic::div_mod::lemma_fundamental_div_mod;
        broadcast use vstd::arithmetic::div_mod::lemma_div_pos_is_pos;

        if v.raw >= 0 {
            let w: i128 = (v.raw as i128 + 500) / 1000;
            proof {
                assert((v.raw as i128 + 500) as int / 1000 * 1000 <= v.raw + 500);
            }
            let q: i64 = w as i64;
            Fx { raw: q * 1000 }
        } else {
            let m: i128 = -(v.raw as i128);
            let w: i128 = (m + 500) / 1000;
            proof {
                assert((m + 500) as int / 1000 * 1000 <= m + 500);
            }
            let q: i64 = w as i64;
            Fx { raw: -(q * 1000) }
        }
    }

    /// The first color in even rings around the y axis, the second in odd
    /// ones.
    pub fn pattern_at(&self, point: Point) -> (r: Color)
        requires
            point.wf(),
        ensures
            r == ring_color(self.a, self.b, point),
    {
        let x = Ring::steady(point.x);
        let z = Ring::steady(point.z);
        let d = x.mul(x).add(z.mul(z));
        proof {
            crate::fx::lemma_square_nonneg(x.raw as int);
            crate::fx::lemma_square_nonneg(z.raw as int);
            broadcast use vstd::arithmetic::div_mod::lemma_div_pos_is_pos;

        }
        let t = d.sqrt();
        if t.floor_even() {
            self.a
        } else {
            self.b
        }
    }
}

} // verus!
