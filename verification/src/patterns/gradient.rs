//! A linear blend between two colors along the x axis.

use vstd::prelude::*;
use crate::color::Color;
use crate::fx::Fx;
use crate::fx::SCALE;
use crate::fx::fadd;
use crate::fx::fsub;
use crate::fx::fmul;
use crate::matrix::Matrix;
use crate::point::Point;

verus! {

/// A smooth blend from one color to another across each whole unit of x.
#[derive(Clone, Copy, Debug)]
pub struct Gradient {
    /// The identity token of the pattern.
    pub id: uuid::Uuid,
    /// The color at the start of each unit.
    pub a: Color,
    /// The color approached at the end of each unit.
    pub b: Color,
    /// The pattern's own transformation.
    pub transform: Matrix,
}

/// The color a gradient shows at a point in pattern space: the first color
/// plus the distance into the unit times the difference of the colors.
pub open spec fn gradient_color(a: Color, b: Color, p: Point) -> Color {
    let frac = (p.x.raw as int) % (SCALE as int);
    Color {
        red: Fx { raw: fadd(a.red.raw as int, fmul(fsub(b.red.raw as int, a.red.raw as int), frac)) as i64 },
        green: Fx {
            raw: fadd(a.green.raw as int, fmul(fsub(b.green.raw as int, a.green.raw as int), frac)) as i64,
        },
        blue: Fx {
            raw: fadd(a.blue.raw as int, fmul(fsub(b.blue.raw as int, a.blue.raw as int), frac)) as i64,
        },
    }
}

impl Gradient {
    /// The pattern's colors and transformation are representable.
    pub open spec fn wf(self) -> bool {
        self.a.wf() && self.b.wf() && self.transform.wf()
    }

    /// Create a gradient between two colors with the identity transform.
    pub fn new(a: Color, b: Color) -> (r: Gradient)
        ensures
            r.a == a,
            r.b == b,
            r.transform.inverse == r.transform.data,
            a.wf() && b.wf() ==> r.wf(),
    {
        Gradient { id: crate::identity::fresh_id(), a, b, transform: Matrix::identity() }
    }

    /// The pattern's own transformation.
    pub fn transform(&self) -> (r: Matrix)
        ensures
            r == self.transform,
    {
        self.transform
    }

    /// Replace the pattern's transformation.
    pub fn set_transform(&mut self, transform: Matrix)
        ensures
            final(self).transform == transform,
            final(self).a == old(self).a,
            final(self).b == old(self).b,
            final(self).id == old(self).id,
    {
        self.transform = transform;
    }

    /// Blend the two colors by the distance into the current unit of x.
    pub fn pattern_at(&self, point: Point) -> (r: Color)
        ensures
            r == gradient_color(self.a, self.b, point),
    {
        let frac = Fx { raw: point.x.frac_raw() };
        let d = self.b.sub(self.a);
        self.a.add(d.mul_s(frac))
    }
}

} // verus!
