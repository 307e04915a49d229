//! A palette of primary colors.

use vstd::prelude::*;
use crate::color::Color;
use crate::fx::Fx;
use crate::fx::SCALE;

verus! {

/// A palette of primary colors.
pub struct Colors;

impl Colors {
    /// The color black: every channel dark.
    pub fn black() -> (r: Color)
        ensures
            r.red.raw == 0,
            r.green.raw == 0,
            r.blue.raw == 0,
            r.wf(),
    {
        Color { red: Fx { raw: 0 }, green: Fx { raw: 0 }, blue: Fx { raw: 0 } }
    }

    /// The color white: every channel at full intensity.
    pub fn white() -> (r: Color)
        ensures
            r.red.raw == SCALE,
            r.green.raw == SCALE,
            r.blue.raw == SCALE,
            r.wf(),
    {
        Color { red: Fx { raw: SCALE }, green: Fx { raw: SCALE }, blue: Fx { raw: SCALE } }
    }

    /// The color red: only the red channel at full intensity.
    pub fn red() -> (r: Color)
        ensures
            r.red.raw == SCALE,
            r.green.raw == 0,
            r.blue.raw == 0,
            r.wf(),
    {
        Color { red: Fx { raw: SCALE }, green: Fx { raw: 0 }, blue: Fx { raw: 0 } }
    }
}

} // verus!
