//! A point light: a light source with no size, at a single point in space.

use vstd::prelude::*;
use crate::color::Color;
use crate::point::Point;

verus! {

/// A light source at a single point, with a brightness and color.
#[derive(Clone, Copy, Debug, PartialEq, Eq, Structural)]
pub struct PointLight {
    /// Brightness and color of the light.
    pub intensity: Color,
    /// Position of the light in space.
    pub position: Point,
}

impl PointLight {
    /// A light source is representable when its parts are.
    pub open spec fn wf(self) -> bool {
        self.intensity.wf() && self.position.wf()
    }

    /// Create a point light at a position with a given intensity.
    pub fn new(position: Point, intensity: Color) -> (r: PointLight)
        ensures
            r == (PointLight { intensity, position }),
    {
        PointLight { position, intensity }
    }
}

} // verus!
