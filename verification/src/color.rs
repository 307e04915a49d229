//! Colors as red, green and blue intensities.

use vstd::prelude::*;
use crate::fx::Fx;
use crate::fx::clampi;
use crate::fx::fadd;
use crate::fx::fsub;
use crate::fx::fmul;
use crate::fx::fx_eq;

verus! {

/// A color described by its red, green and blue intensities, where one unit
/// is full intensity of a channel.
#[derive(Clone, Copy, Debug, PartialEq, Eq, Structural)]
pub struct Color {
    /// Red intensity.
    pub red: Fx,
    /// Green intensity.
    pub green: Fx,
    /// Blue intensity.
    pub blue: Fx,
}

/// The value of a channel-wise sum of colors.
pub open spec fn cadd(a: Color, b: Color) -> Color {
    Color {
        red: Fx { raw: fadd(a.red.raw as int, b.red.raw as int) as i64 },
        green: Fx { raw: fadd(a.green.raw as int, b.green.raw as int) as i64 },
        blue: Fx { raw: fadd(a.blue.raw as int, b.blue.raw as int) as i64 },
    }
}

/// The value of a channel-wise product of colors.
pub open spec fn cmul(a: Color, b: Color) -> Color {
    Color {
        red: Fx { raw: fmul(a.red.raw as int, b.red.raw as int) as i64 },
        green: Fx { raw: fmul(a.green.raw as int, b.green.raw as int) as i64 },
        blue: Fx { raw: fmul(a.blue.raw as int, b.blue.raw as int) as i64 },
    }
}

/// The value of a color scaled by a scalar.
pub open spec fn cmul_s(a: Color, s: int) -> Color {
    Color {
        red: Fx { raw: fmul(a.red.raw as int, s) as i64 },
        green: Fx { raw: fmul(a.green.raw as int, s) as i64 },
        blue: Fx { raw: fmul(a.blue.raw as int, s) as i64 },
    }
}

/// The all-dark color.
pub open spec fn black_c() -> Color {
    Color { red: Fx { raw: 0 }, green: Fx { raw: 0 }, blue: Fx { raw: 0 } }
}

impl Color {
    /// All three channels lie in the representable range.
    pub open spec fn wf(self) -> bool {
        self.red.wf() && self.green.wf() && self.blue.wf()
    }

    /// Create a color from its three channels.
    pub fn new(red: Fx, green: Fx, blue: Fx) -> (r: Color)
        ensures
            r == (Color { red, green, blue }),
    {
        Color { red, green, blue }
    }

    /// Sum of two colors, channel by channel.
    pub fn add(self, o: Color) -> (r: Color)
        ensures
            r.red.raw as int == fadd(self.red.raw as int, o.red.raw as int),
            r.green.raw as int == fadd(self.green.raw as int, o.green.raw as int),
            r.blue.raw as int == fadd(self.blue.raw as int, o.blue.raw as int),
            r == cadd(self, o),
            r.wf(),
    {
        Color { red: self.red.add(o.red), green: self.green.add(o.green), blue: self.blue.add(o.blue) }
    }

    /// Difference of two colors, channel by channel.
    pub fn sub(self, o: Color) -> (r: Color)
        ensures
            r.red.raw as int == fsub(self.red.raw as int, o.red.raw as int),
            r.green.raw as int == fsub(self.green.raw as int, o.green.raw as int),
            r.blue.raw as int == fsub(self.blue.raw as int, o.blue.raw as int),
            r.wf(),
    {
        Color { red: self.red.sub(o.red), green: self.green.sub(o.green), blue: self.blue.sub(o.blue) }
    }

    /// Blend two colors by multiplying matching channels.
    pub fn mul(self, o: Color) -> (r: Color)
        ensures
            r.red.raw as int == fmul(self.red.raw as int, o.red.raw as int),
            r.green.raw as int == fmul(self.green.raw as int, o.green.raw as int),
            r.blue.raw as int == fmul(self.blue.raw as int, o.blue.raw as int),
            r == cmul(self, o),
            r.wf(),
    {
        Color { red: self.red.mul(o.red), green: self.green.mul(o.green), blue: self.blue.mul(o.blue) }
    }

    /// Scale every channel by a scalar.
    pub fn mul_s(self, s: Fx) -> (r: Color)
        ensures
            r.red.raw as int == fmul(self.red.raw as int, s.raw as int),
            r.green.raw as int == fmul(self.green.raw as int, s.raw as int),
            r.blue.raw as int == fmul(self.blue.raw as int, s.raw as int),
            r == cmul_s(self, s.raw as int),
            r.wf(),
    {
        Color { red: self.red.mul(s), green: self.green.mul(s), blue: self.blue.mul(s) }
    }

    /// The color with every channel negated.
    pub fn neg(self) -> (r: Color)
        ensures
            r.red.raw as int == clampi(-(self.red.raw as int)),
            r.green.raw as int == clampi(-(self.green.raw as int)),
            r.blue.raw as int == clampi(-(self.blue.raw as int)),
            r.wf(),
    {
        Color { red: self.red.neg(), green: self.green.neg(), blue: self.blue.neg() }
    }

    /// Channel-wise comparison within the fixed tolerance.
    pub fn approx_eq(self, o: Color) -> (r: bool)
        ensures
            r == (fx_eq(self.red.raw as int, o.red.raw as int) && fx_eq(
                self.green.raw as int,
                o.green.raw as int,
            ) && fx_eq(self.blue.raw as int, o.blue.raw as int)),
    {
        self.red.approx_eq(o.red) && self.green.approx_eq(o.green) && self.blue.approx_eq(o.blue)
    }
}

} // verus!
