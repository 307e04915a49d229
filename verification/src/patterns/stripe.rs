//! Stripes that alternate between two colors along the x axis.

use vstd::prelude::*;
use crate::color::Color;
use crate::fx::SCALE;
use crate::matrix::Matrix;
use crate::point::Point;

verus! {

/// Bands of two colors, one whole unit wide, alternating along the x axis.
#[derive(Clone, Copy, Debug)]
pub struct Stripe {
    /// The identity token of the pattern.
    pub id: uuid::Uuid,
    /// The color of the even bands.
    pub a: Color,
    /// The color of the odd bands.
    pub b: Color,
    /// The pattern's own transformation.
    pub transform: Matrix,
}

/// The color a stripe pattern shows at a point in pattern space.
pub open spec fn stripe_color(a: Color, b: Color, p: Point) -> Color {
    if ((p.x.raw as int) / (SCALE as int)) % 2 == 0 {
        a
    } else {
        b
    }
}

impl Stripe {
    /// The pattern's colors and transformation are representable.
    pub open spec fn wf(self) -> bool {
        self.a.wf() && self.b.wf() && self.transform.wf()
    }

    /// Create a stripe pattern of two colors with the identity transform.
    pub fn new(a: Color, b: Color) -> (r: Stripe)
        ensures
            r.a == a,
            r.b == b,
            r.transform.inverse == r.transform.data,
            a.wf() && b.wf() ==> r.wf(),
    {
        Stripe { id: crate::identity::fresh_id(), a, b, transform: Matrix::identity() }
    }

    /// The pattern's own transformation.
    pub fn transform(&self) -> (r: Matrix)
        ensures
            r == self.transform,
    {
        self.transform
    }

    /// Replace the pattern's transformation.
    pub fn set_transform(&mut self, transform: Matrix)
        ensures
            final(self).transform == transform,
            final(self).a == old(self).a,
            final(self).b == old(self).b,
            final(self).id == old(self).id,
    {
        self.transform = transform;
    }

    /// The first color in even bands of x, the second in odd ones.
    pub fn pattern_at(&self, point: Point) -> (r: Color)
        ensures
            r == stripe_color(self.a, self.b, point),
    {
        if point.x.floor_even() {
            self.a
        } else {
            self.b
        }
    }
}

} // verus!
