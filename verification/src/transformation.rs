//! Builders for the transformation matrices that move and deform objects.
//!
//! A chain starts from [`Transformation::new`]; each call multiplies a fresh
//! elementary grid onto the accumulated one, so the textual order of calls is
//! the order in which the transformations apply.  [`Transformation::build`]
//! turns the accumulated grid into a [`Matrix`], computing its inverse once.
//!
//! Rotations take the sine and cosine of the turning angle as scalars, since
//! the library works in exact fixed-point arithmetic.

use vstd::prelude::*;
use crate::fx::Fx;
use crate::fx::SCALE;
use crate::fx::clampi;
use crate::matrix::Matrix;
use crate::matrix::ent;
use crate::matrix::identity_g;
use crate::matrix::grid;
use crate::matrix::grid_wf;
use crate::matrix::mul_ent_g;
use crate::matrix::inverse_of;
use crate::point::Point;
use crate::point::psub;
use crate::vector::Vector;
use crate::vector::cross_v;
use crate::vector::norm_v;

verus! {

/// An accumulated chain of transformations, kept as a plain grid until it is
/// built into a [`Matrix`].
#[derive(Clone, Copy, Debug)]
pub struct Transformation {
    /// The accumulated grid, row by row.
    pub data: [[Fx; 4]; 4],
}

/// The grid of a translation.
pub open spec fn translate_g(x: int, y: int, z: int) -> Seq<Seq<int>> {
    seq![
        seq![SCALE as int, 0int, 0int, x],
        seq![0int, SCALE as int, 0int, y],
        seq![0int, 0int, SCALE as int, z],
        seq![0int, 0int, 0int, SCALE as int],
    ]
}

/// The grid of a scaling.
pub open spec fn scale_g(x: int, y: int, z: int) -> Seq<Seq<int>> {
    seq![
        seq![x, 0int, 0int, 0int],
        seq![0int, y, 0int, 0int],
        seq![0int, 0int, z, 0int],
        seq![0int, 0int, 0int, SCALE as int],
    ]
}

/// The grid of a rotation around the x axis, from the angle's sine and cosine.
pub open spec fn rotate_x_g(sin: int, cos: int) -> Seq<Seq<int>> {
    seq![
        seq![SCALE as int, 0int, 0int, 0int],
        seq![0int, cos, clampi(-sin), 0int],
        seq![0int, sin, cos, 0int],
        seq![0int, 0int, 0int, SCALE as int],
    ]
}

/// The grid of a rotation around the y axis, from the angle's sine and cosine.
pub open spec fn rotate_y_g(sin: int, cos: int) -> Seq<Seq<int>> {
    seq![
        seq![cos, 0int, sin, 0int],
        seq![0int, SCALE as int, 0int, 0int],
        seq![clampi(-sin), 0int, cos, 0int],
        seq![0int, 0int, 0int, SCALE as int],
    ]
}

/// The grid of a rotation around the z axis, from the angle's sine and cosine.
pub open spec fn rotate_z_g(sin: int, cos: int) -> Seq<Seq<int>> {
    seq![
        seq![cos, clampi(-sin), 0int, 0int],
        seq![sin, cos, 0int, 0int],
        seq![0int, 0int, SCALE as int, 0int],
        seq![0int, 0int, 0int, SCALE as int],
    ]
}

/// The grid of a shearing, each component moved in proportion to the others.
pub open spec fn shear_g(xy: int, xz: int, yx: int, yz: int, zx: int, zy: int) -> Seq<Seq<int>> {
    seq![
        seq![SCALE as int, xy, xz, 0int],
        seq![yx, SCALE as int, yz, 0int],
        seq![zx, zy, SCALE as int, 0int],
        seq![0int, 0int, 0int, SCALE as int],
    ]
}

/// The orientation grid of a view transformation.
pub open spec fn orientation_g(left: Vector, true_up: Vector, forward: Vector) -> Seq<Seq<int>> {
    seq![
        seq![left.x.raw as int, left.y.raw as int, left.z.raw as int, 0int],
        seq![true_up.x.raw as int, true_up.y.raw as int, true_up.z.raw as int, 0int],
        seq![
            clampi(-(forward.x.raw as int)),
            clampi(-(forward.y.raw as int)),
            clampi(-(forward.z.raw as int)),
            0int,
        ],
        seq![0int, 0int, 0int, SCALE as int],
    ]
}

impl Transformation {
    /// Every entry of the accumulated grid is in the representable range.
    pub open spec fn wf(self) -> bool {
        grid_wf(self.data)
    }

    /// Start a chain of transformations from the identity.
    pub fn new() -> (r: Transformation)
        ensures
            grid(r.data) == identity_g(),
            r.wf(),
    {
        let o = Fx { raw: SCALE };
        let z = Fx { raw: 0 };
        let data = [[o, z, z, z], [z, o, z, z], [z, z, o, z], [z, z, z, o]];
        proof {
            assert(grid(data) =~~= identity_g());
        }
        Transformation { data }
    }

    /// Build the accumulated grid into a matrix, computing its inverse once.
    pub fn build(&self) -> (r: Matrix)
        requires
            self.wf(),
        ensures
            r.data == self.data,
            grid(r.inverse) == inverse_of(grid(self.data)),
            r.wf(),
    {
        Matrix::new(self.data)
    }

    /// Chain a translation, which moves points and leaves vectors alone.
    pub fn translate(self, x: Fx, y: Fx, z: Fx) -> (r: Transformation)
        requires
            self.wf(),
            x.wf(),
            y.wf(),
            z.wf(),
        ensures
            forall|i: int, j: int|
                0 <= i < 4 && 0 <= j < 4 ==> #[trigger] ent(r.data, i, j) == mul_ent_g(
                    translate_g(x.raw as int, y.raw as int, z.raw as int),
                    grid(self.data),
                    i,
                    j,
                ),
            r.wf(),
    {
        let o = Fx { raw: SCALE };
        let zo = Fx { raw: 0 };
        let m = [[o, zo, zo, x], [zo, o, zo, y], [zo, zo, o, z], [zo, zo, zo, o]];
        proof {
            assert(grid(m) =~~= translate_g(x.raw as int, y.raw as int, z.raw as int));
        }
        Transformation { data: Matrix::mul_grid(&m, &self.data) }
    }

    /// Chain a scaling along the three axes.
    pub fn scale(self, x: Fx, y: Fx, z: Fx) -> (r: Transformation)
        requires
            self.wf(),
            x.wf(),
            y.wf(),
            z.wf(),
        ensures
            forall|i: int, j: int|
                0 <= i < 4 && 0 <= j < 4 ==> #[trigger] ent(r.data, i, j) == mul_ent_g(
                    scale_g(x.raw as int, y.raw as int, z.raw as int),
                    grid(self.data),
                    i,
                    j,
                ),
            r.wf(),
    {
        let o = Fx { raw: SCALE };
        let zo = Fx { raw: 0 };
        let m = [[x, zo, zo, zo], [zo, y, zo, zo], [zo, zo, z, zo], [zo, zo, zo, o]];
        proof {
            assert(grid(m) =~~= scale_g(x.raw as int, y.raw as int, z.raw as int));
        }
        Transformation { data: Matrix::mul_grid(&m, &self.data) }
    }

    /// Chain a rotation around the x axis, given the angle's sine and cosine.
    pub fn rotate_x(self, sin: Fx, cos: Fx) -> (r: Transformation)
        requires
            self.wf(),
            sin.wf(),
            cos.wf(),
        ensures
            forall|i: int, j: int|
                0 <= i < 4 && 0 <= j < 4 ==> #[trigger] ent(r.data, i, j) == mul_ent_g(
                    rotate_x_g(sin.raw as int, cos.raw as int),
                    grid(self.data),
                    i,
                    j,
                ),
            r.wf(),
    {
        let o = Fx { raw: SCALE };
        let zo = Fx { raw: 0 };
        let m = [[o, zo, zo, zo], [zo, cos, sin.neg(), zo], [zo, sin, cos, zo], [zo, zo, zo, o]];
        proof {
            assert(grid(m) =~~= rotate_x_g(sin.raw as int, cos.raw as int));
        }
        Transformation { data: Matrix::mul_grid(&m, &self.data) }
    }

    /// Chain a rotation around the y axis, given the angle's sine and cosine.
    pub fn rotate_y(self, sin: Fx, cos: Fx) -> (r: Transformation)
        requires
            self.wf(),
            sin.wf(),
            cos.wf(),
        ensures
            forall|i: int, j: int|
                0 <= i < 4 && 0 <= j < 4 ==> #[trigger] ent(r.data, i, j) == mul_ent_g(
                    rotate_y_g(sin.raw as int, cos.raw as int),
                    grid(self.data),
                    i,
                    j,
                ),
            r.wf(),
    {
        let o = Fx { raw: SCALE };
        let zo = Fx { raw: 0 };
        let m = [[cos, zo, sin, zo], [zo, o, zo, zo], [sin.neg(), zo, cos, zo], [zo, zo, zo, o]];
        proof {
            assert(grid(m) =~~= rotate_y_g(sin.raw as int, cos.raw as int));
        }
        Transformation { data: Matrix::mul_grid(&m, &self.data) }
    }

    /// Chain a rotation around the z axis, given the angle's sine and cosine.
    pub fn rotate_z(self, sin: Fx, cos: Fx) -> (r: Transformation)
        requires
            self.wf(),
            sin.wf(),
            cos.wf(),
        ensures
            forall|i: int, j: int|
                0 <= i < 4 && 0 <= j < 4 ==> #[trigger] ent(r.data, i, j) == mul_ent_g(
                    rotate_z_g(sin.raw as int, cos.raw as int),
                    grid(self.data),
                    i,
                    j,
                ),
            r.wf(),
    {
        let o = Fx { raw: SCALE };
        let zo = Fx { raw: 0 };
        let m = [[cos, sin.neg(), zo, zo], [sin, cos, zo, zo], [zo, zo, o, zo], [zo, zo, zo, o]];
        proof {
            assert(grid(m) =~~= rotate_z_g(sin.raw as int, cos.raw as int));
        }
        Transformation { data: Matrix::mul_grid(&m, &self.data) }
    }

    /// Chain a shearing, moving each component in proportion to the others.
    pub fn shear(self, xy: Fx, xz: Fx, yx: Fx, yz: Fx, zx: Fx, zy: Fx) -> (r: Transformation)
        requires
            self.wf(),
            xy.wf(),
            xz.wf(),
            yx.wf(),
            yz.wf(),
            zx.wf(),
            zy.wf(),
        ensures
            forall|i: int, j: int|
                0 <= i < 4 && 0 <= j < 4 ==> #[trigger] ent(r.data, i, j) == mul_ent_g(
                    shear_g(
                        xy.raw as int,
                        xz.raw as int,
                        yx.raw as int,
                        yz.raw as int,
                        zx.raw as int,
                        zy.raw as int,
                    ),
                    grid(self.data),
                    i,
                    j,
                ),
            r.wf(),
    {
        let o = Fx { raw: SCALE };
        let zo = Fx { raw: 0 };
        let m = [[o, xy, xz, zo], [yx, o, yz, zo], [zx, zy, o, zo], [zo, zo, zo, o]];
        proof {
            assert(grid(m) =~~= shear_g(
                xy.raw as int,
                xz.raw as int,
                yx.raw as int,
                yz.raw as int,
                zx.raw as int,
                zy.raw as int,
            ));
        }
        Transformation { data: Matrix::mul_grid(&m, &self.data) }
    }

    /// The matrix that orients the world relative to an eye standing at
    /// `from`, looking toward `to`, with `up` pointing upward.
    pub fn view_transform(from: Point, to: Point, up: Vector) -> (r: Matrix)
        requires
            from.wf(),
            to.wf(),
            up.wf(),
        ensures
            ({
                let forward = norm_v(psub(to, from));
                let left = cross_v(forward, norm_v(up));
                let true_up = cross_v(left, forward);
                let tg = translate_g(
                    clampi(-(from.x.raw as int)),
                    clampi(-(from.y.raw as int)),
                    clampi(-(from.z.raw as int)),
                );
                &&& forall|i: int, j: int|
                    0 <= i < 4 && 0 <= j < 4 ==> #[trigger] ent(r.data, i, j) == mul_ent_g(
                        orientation_g(left, true_up, forward),
                        tg,
                        i,
                        j,
                    )
                &&& grid(r.inverse) == inverse_of(grid(r.data))
            }),
            r.wf(),
    {
        let forward = to.sub(from).normalize();
        let upn = up.normalize();
        let left = forward.cross(upn);
        let true_up = left.cross(forward);
        let o = Fx { raw: SCALE };
        let zo = Fx { raw: 0 };
        let orientation = [
            [left.x, left.y, left.z, zo],
            [true_up.x, true_up.y, true_up.z, zo],
            [forward.x.neg(), forward.y.neg(), forward.z.neg(), zo],
            [zo, zo, zo, o],
        ];
        let translation = [
            [o, zo, zo, from.x.neg()],
            [zo, o, zo, from.y.neg()],
            [zo, zo, o, from.z.neg()],
            [zo, zo, zo, o],
        ];
        proof {
            assert(grid(orientation) =~~= orientation_g(
                cross_v(norm_v(psub(to, from)), norm_v(up)),
                cross_v(cross_v(norm_v(psub(to, from)), norm_v(up)), norm_v(psub(to, from))),
                norm_v(psub(to, from)),
            ));
            assert(grid(translation) =~~= translate_g(
                clampi(-(from.x.raw as int)),
                clampi(-(from.y.raw as int)),
                clampi(-(from.z.raw as int)),
            ));
        }
        Matrix::new(Matrix::mul_grid(&orientation, &translation))
    }
}

impl Default for Transformation {
    /// The default chain is the identity.
    fn default() -> (r: Transformation)
        ensures
            grid(r.data) == identity_g(),
            r.wf(),
    {
        Transformation::new()
    }
}

} // verus!
