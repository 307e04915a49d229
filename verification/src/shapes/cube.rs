//! The axis-aligned unit cube, from minus one to one along every axis.

use vstd::prelude::*;
use crate::fx::Fx;
use crate::fx::FX_LIM;
use crate::fx::SCALE;
use crate::fx::fsub;
use crate::fx::fdiv;
use crate::material::Material;
use crate::matrix::Matrix;
use crate::ray::Ray;

verus! {

/// A cube of side two centered on the origin, faces square to the axes.
#[derive(Clone, Debug)]
pub struct Cube {
    /// The identity token of the shape.
    pub id: uuid::Uuid,
    /// The identity of the group or combination holding the shape, if any.
    pub parent_id: Option<uuid::Uuid>,
    /// The object-to-parent-space transformation.
    pub transform: Matrix,
    /// The look of the shape's surface.
    pub material: Material,
}

/// The unbounded stand-in a slab test uses when the ray cannot cross a pair
/// of faces: the far end of the range on the numerator's side.
pub open spec fn slab_inf(n: int) -> int {
    if n > 0 {
        FX_LIM as int
    } else if n < 0 {
        -(FX_LIM as int)
    } else {
        0
    }
}

/// Where a ray enters and leaves the slab between one pair of parallel
/// faces, in ascending order.
pub open spec fn check_axis_s(o: int, d: int) -> (int, int) {
    let tminn = fsub(-(SCALE as int), o);
    let tmaxn = fsub(SCALE as int, o);
    let tmin = if d == 0 {
        slab_inf(tminn)
    } else {
        fdiv(tminn, d)
    };
    let tmax = if d == 0 {
        slab_inf(tmaxn)
    } else {
        fdiv(tmaxn, d)
    };
    if tmin > tmax {
        (tmax, tmin)
    } else {
        (tmin, tmax)
    }
}

/// The distances at which a ray enters and leaves the cube: the latest
/// slab entry against the earliest slab exit, or nothing when the entry
/// would come after the exit.
pub open spec fn cube_ts(r: Ray) -> Option<(int, int)> {
    let x = check_axis_s(r.origin.x.raw as int, r.direction.x.raw as int);
    let y = check_axis_s(r.origin.y.raw as int, r.direction.y.raw as int);
    let z = check_axis_s(r.origin.z.raw as int, r.direction.z.raw as int);
    let tmin = if x.0 >= y.0 && x.0 >= z.0 {
        x.0
    } else if y.0 >= z.0 {
        y.0
    } else {
        z.0
    };
    let tmax = if x.1 <= y.1 && x.1 <= z.1 {
        x.1
    } else if y.1 <= z.1 {
        y.1
    } else {
        z.1
    };
    if tmin > tmax {
        None
    } else {
        Some((tmin, tmax))
    }
}

impl Cube {
    /// The shape's transformation and material are representable.
    pub open spec fn wf(self) -> bool {
        self.transform.wf() && self.material.wf()
    }

    /// Create a unit cube with a fresh identity, the identity transform and
    /// the default material.
    pub fn new() -> (r: Cube)
        ensures
            r.parent_id is None,
            r.transform.inverse == r.transform.data,
            crate::matrix::grid(r.transform.data) == crate::matrix::identity_g(),
            r.material == Material::new_v(),
            r.wf(),
    {
        Cube {
            id: crate::identity::fresh_id(),
            parent_id: None,
            transform: Matrix::identity(),
            material: Material::new(),
        }
    }

    /// The slab range for one axis of a ray already in object space.
    fn check_axis(origin: Fx, direction: Fx) -> (res: (Fx, Fx))
        ensures
            (res.0.raw as int, res.1.raw as int) == check_axis_s(
                origin.raw as int,
                direction.raw as int,
            ),
            res.0.wf(),
            res.1.wf(),
    {
        let tmin_numerator = Fx::from_int(-1).sub(origin);
        let tmax_numerator = Fx::from_int(1).sub(origin);
        let tmin = if direction.raw == 0 {
            if tmin_numerator.raw > 0 {
                Fx { raw: FX_LIM }
            } else if tmin_numerator.raw < 0 {
                Fx { raw: -FX_LIM }
            } else {
                Fx { raw: 0 }
            }
        } else {
            tmin_numerator.div(direction)
        };
        let tmax = if direction.raw == 0 {
            if tmax_numerator.raw > 0 {
                Fx { raw: FX_LIM }
            } else if tmax_numerator.raw < 0 {
                Fx { raw: -FX_LIM }
            } else {
                Fx { raw: 0 }
            }
        } else {
            tmax_numerator.div(direction)
        };
        if tmin.raw > tmax.raw {
            (tmax, tmin)
        } else {
            (tmin, tmax)
        }
    }

    /// The entry and exit distances for a ray already in object space.
    pub fn ts(&self, r: &Ray) -> (res: Option<(Fx, Fx)>)
        ensures
            match res {
                Some((t1, t2)) => {
                    &&& cube_ts(*r) == Some((t1.raw as int, t2.raw as int))
                    &&& t1.wf()
                    &&& t2.wf()
                },
                None => cube_ts(*r) is None,
            },
    {
        let (xtmin, xtmax) = Cube::check_axis(r.origin.x, r.direction.x);
        let (ytmin, ytmax) = Cube::check_axis(r.origin.y, r.direction.y);
        let (ztmin, ztmax) = Cube::check_axis(r.origin.z, r.direction.z);
        let tmin = if xtmin.raw >= ytmin.raw && xtmin.raw >= ztmin.raw {
            xtmin
        } else if ytmin.raw >= ztmin.raw {
            ytmin
        } else {
            ztmin
        };
        let tmax = if xtmax.raw <= ytmax.raw && xtmax.raw <= ztmax.raw {
            xtmax
        } else if ytmax.raw <= ztmax.raw {
            ytmax
        } else {
            ztmax
        };
        if tmin.raw > tmax.raw {
            None
        } else {
            Some((tmin, tmax))
        }
    }
}

} // verus!
