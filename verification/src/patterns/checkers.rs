//! A three-dimensional checkerboard of two colors.

use vstd::prelude::*;
use crate::color::Color;
use crate::fx::SCALE;
use crate::fx::even_i128;
use crate::matrix::Matrix;
use crate::point::Point;

verus! {

/// Unit cubes of two alternating colors, checkered in all three dimensions.
#[derive(Clone, Copy, Debug)]
pub struct Checkers {
    /// The identity token of the pattern.
    pub id: uuid::Uuid,
    /// The color of the even cells.
    pub a: Color,
    /// The color of the odd cells.
    pub b: Color,
    /// The pattern's own transformation.
    pub transform: Matrix,
}

/// The color a checkered pattern shows at a point in pattern space: the
/// whole units of the three coordinates decide the cell's parity.
pub open spec fn checkers_color(a: Color, b: Color, p: Point) -> Color {
    let s = (p.x.raw as int) / (SCALE as int) + (p.y.raw as int) / (SCALE as int) + (p.z.raw
        as int) / (SCALE as int);
    if s % 2 == 0 {
        a
    } else {
        b
    }
}

impl Checkers {
    /// The pattern's colors and transformation are representable.
    pub open spec fn wf(self) -> bool {
        self.a.wf() && self.b.wf() && self.transform.wf()
    }

    /// Create a checkered pattern of two colors with the identity transform.
    pub fn new(a: Color, b: Color) -> (r: Checkers)
        ensures
            r.a == a,
            r.b == b,
            r.transform.inverse == r.transform.data,
            a.wf() && b.wf() ==> r.wf(),
    {
        Checkers { id: crate::identity::fresh_id(), a, b, transform: Matrix::identity() }
    }

    /// The pattern's own transformation.
    pub fn transform(&self) -> (r: Matrix)
        ensures
            r == self.transform,
    {
        self.transform
    }

    /// Replace the pattern's transformation.
    pub fn set_transform(&mut self, transform: Matrix)
        ensures
            final(self).transform == transform,
            final(self).a == old(self).a,
            final(self).b == old(self).b,
            final(self).id == old(self).id,
    {
        self.transform = transform;
    }

    /// The first color in cells whose unit coordinates sum to an even
    /// number, the second elsewhere.
    pub fn pattern_at(&self, point: Point) -> (r: Color)
        ensures
            r == checkers_color(self.a, self.b, point),
    {
        let s: i128 = point.x.floor_units() as i128 + point.y.floor_units() as i128
            + point.z.floor_units() as i128;
        if even_i128(s) {
            self.a
        } else {
            self.b
        }
    }
}

} // verus!
