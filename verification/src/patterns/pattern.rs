//! The closed set of pattern variants, dispatched by matching.

use vstd::prelude::*;
use crate::color::Color;
use crate::matrix::Matrix;
use crate::matrix::grid;
use crate::matrix::apply_g;
use crate::fx::Fx;
use crate::fx::SCALE;
use crate::point::Point;
use crate::patterns::Checkers;
use crate::patterns::Gradient;
use crate::patterns::Ring;
use crate::patterns::Stripe;
use crate::patterns::checkers::checkers_color;
use crate::patterns::gradient::gradient_color;
use crate::patterns::ring::ring_color;
use crate::patterns::stripe::stripe_color;

verus! {

/// Any of the pattern variants: stripes, a gradient, rings or checkers.
#[derive(Clone, Copy, Debug)]
pub enum Pattern {
    /// Bands alternating along the x axis.
    Stripe(Stripe),
    /// A linear blend along the x axis.
    Gradient(Gradient),
    /// Concentric rings around the y axis.
    Ring(Ring),
    /// A three-dimensional checkerboard.
    Checkers(Checkers),
}

/// The value of a point carried through a grid.
pub open spec fn point_through(g: Seq<Seq<int>>, p: Point) -> Point {
    Point {
        x: Fx {
            raw: apply_g(g, 0, p.x.raw as int, p.y.raw as int, p.z.raw as int, SCALE as int) as i64,
        },
        y: Fx {
            raw: apply_g(g, 1, p.x.raw as int, p.y.raw as int, p.z.raw as int, SCALE as int) as i64,
        },
        z: Fx {
            raw: apply_g(g, 2, p.x.raw as int, p.y.raw as int, p.z.raw as int, SCALE as int) as i64,
        },
    }
}

/// The color a pattern shows at a point in pattern space.
pub open spec fn pattern_color(p: Pattern, point: Point) -> Color {
    match p {
        Pattern::Stripe(s) => stripe_color(s.a, s.b, point),
        Pattern::Gradient(g) => gradient_color(g.a, g.b, point),
        Pattern::Ring(r) => ring_color(r.a, r.b, point),
        Pattern::Checkers(c) => checkers_color(c.a, c.b, point),
    }
}

impl Pattern {
    /// The variant's colors and transformation are representable.
    pub open spec fn wf(self) -> bool {
        match self {
            Pattern::Stripe(s) => s.wf(),
            Pattern::Gradient(g) => g.wf(),
            Pattern::Ring(r) => r.wf(),
            Pattern::Checkers(c) => c.wf(),
        }
    }

    /// The identity token of the pattern.
    pub open spec fn spec_id(self) -> uuid::Uuid {
        match self {
            Pattern::Stripe(s) => s.id,
            Pattern::Gradient(g) => g.id,
            Pattern::Ring(r) => r.id,
            Pattern::Checkers(c) => c.id,
        }
    }

    /// The identity token of the pattern.
    pub fn id(&self) -> (r: uuid::Uuid)
        ensures
            r == self.spec_id(),
    {
        match self {
            Pattern::Stripe(s) => s.id,
            Pattern::Gradient(g) => g.id,
            Pattern::Ring(r) => r.id,
            Pattern::Checkers(c) => c.id,
        }
    }

    /// Whether two patterns are the same one, compared by identity.
    pub fn pattern_eq(&self, other: &Pattern) -> (r: bool)
        ensures
            r == (self.spec_id() == other.spec_id()),
    {
        crate::identity::id_eq(self.id(), other.id())
    }

    /// The pattern's own transformation.
    pub open spec fn spec_transform(self) -> Matrix {
        match self {
            Pattern::Stripe(s) => s.transform,
            Pattern::Gradient(g) => g.transform,
            Pattern::Ring(r) => r.transform,
            Pattern::Checkers(c) => c.transform,
        }
    }

    /// The pattern's own transformation.
    pub fn transform(&self) -> (r: Matrix)
        ensures
            r == self.spec_transform(),
    {
        match self {
            Pattern::Stripe(s) => s.transform,
            Pattern::Gradient(g) => g.transform,
            Pattern::Ring(r) => r.transform,
            Pattern::Checkers(c) => c.transform,
        }
    }

    /// The color of the pattern at a point already in pattern space.
    pub fn pattern_at(&self, point: Point) -> (r: Color)
        requires
            point.wf(),
        ensures
            r == pattern_color(*self, point),
    {
        match self {
            Pattern::Stripe(s) => s.pattern_at(point),
            Pattern::Gradient(g) => g.pattern_at(point),
            Pattern::Ring(r) => r.pattern_at(point),
            Pattern::Checkers(c) => c.pattern_at(point),
        }
    }

    /// The color of the pattern on a shape at a world-space point: the point
    /// is carried into the shape's object space, then into pattern space,
    /// before the variant rule is applied.
    pub fn pattern_at_shape(&self, object_transform: &Matrix, world_point: Point) -> (r: Color)
        requires
            object_transform.wf(),
            self.wf(),
            world_point.wf(),
        ensures
            r == pattern_color(
                *self,
                point_through(
                    grid(self.spec_transform().inverse),
                    point_through(grid(object_transform.inverse), world_point),
                ),
            ),
    {
        let object_point = object_transform.inverse().mul_point(world_point);
        let pattern_point = self.transform().inverse().mul_point(object_point);
        self.pattern_at(pattern_point)
    }
}

} // verus!
