//! Square matrices in homogeneous coordinates.
//!
//! A [`Matrix`] carries its inverse beside its data: the inverse is computed
//! once, at construction, by cofactor expansion, and `inverse()` simply swaps
//! the two grids.  Inverting twice therefore returns exactly the original.

use vstd::prelude::*;
use crate::fx::Fx;
use crate::fx::SCALE;
use crate::fx::clampi;
use crate::fx::tdiv;
use crate::fx::fadd;
use crate::fx::fmul;
use crate::fx::fdiv;
use crate::fx::fx_eq;
use crate::fx::lemma_mul_lim_fits;
use crate::fx::rescale128;
use crate::point::Point;
use crate::vector::Vector;

verus! {

/// A 4 by 4 matrix of fixed-point entries together with its inverse.
#[derive(Clone, Copy, Debug)]
pub struct Matrix {
    /// The matrix entries, row by row.
    pub data: [[Fx; 4]; 4],
    /// The inverse entries, computed at construction.
    pub inverse: [[Fx; 4]; 4],
}

/// The raw value at one cell of a grid.
pub open spec fn ent(m: [[Fx; 4]; 4], r: int, c: int) -> int {
    m[r][c].raw as int
}

/// Every entry of the grid lies in the representable range.
pub open spec fn grid_wf(m: [[Fx; 4]; 4]) -> bool {
    forall|r: int, c: int| 0 <= r < 4 && 0 <= c < 4 ==> #[trigger] m[r][c].wf()
}

/// The raw values of a grid as a sequence of rows.
pub open spec fn grid(m: [[Fx; 4]; 4]) -> Seq<Seq<int>> {
    Seq::new(4, |r: int| Seq::new(4, |c: int| m[r][c].raw as int))
}

/// The grid left after striking one row and one column, padded with zeros.
pub open spec fn sub_g(g: Seq<Seq<int>>, rr: int, rc: int) -> Seq<Seq<int>> {
    Seq::new(
        4,
        |i: int|
            Seq::new(
                4,
                |j: int|
                    if i < 3 && j < 3 {
                        g[if i < rr {
                            i
                        } else {
                            i + 1
                        }][if j < rc {
                            j
                        } else {
                            j + 1
                        }]
                    } else {
                        0
                    },
            ),
    )
}

/// Determinant of the leading `s` by `s` corner of a grid, by cofactor
/// expansion along the first row, carried out in fixed-point steps.
pub open spec fn det_g(g: Seq<Seq<int>>, s: nat) -> int
    decreases s, 0int,
{
    if s <= 2 {
        clampi(tdiv(g[0][0] * g[1][1] - g[0][1] * g[1][0], SCALE as int))
    } else {
        fadd(
            fadd(
                fadd(
                    fadd(0, fmul(g[0][0], cof_g(g, 0, 0, (s - 1) as nat))),
                    fmul(g[0][1], cof_g(g, 0, 1, (s - 1) as nat)),
                ),
                fmul(g[0][2], cof_g(g, 0, 2, (s - 1) as nat)),
            ),
            fmul(g[0][3], cof_g(g, 0, 3, (s - 1) as nat)),
        )
    }
}

/// Minor of a grid: the determinant of the struck-out grid.
pub open spec fn minor_g(g: Seq<Seq<int>>, rr: int, rc: int, s: nat) -> int
    decreases s, 1int,
{
    det_g(sub_g(g, rr, rc), s)
}

/// Cofactor of a grid: the minor, with alternating sign.
pub open spec fn cof_g(g: Seq<Seq<int>>, rr: int, rc: int, s: nat) -> int
    decreases s, 2int,
{
    if (rr + rc) % 2 == 1 {
        clampi(-minor_g(g, rr, rc, s))
    } else {
        minor_g(g, rr, rc, s)
    }
}

/// One cell of a grid product, rescaled only once.
pub open spec fn mul_ent_g(a: Seq<Seq<int>>, b: Seq<Seq<int>>, r: int, c: int) -> int {
    clampi(tdiv(a[r][0] * b[0][c] + a[r][1] * b[1][c] + a[r][2] * b[2][c] + a[r][3] * b[3][c], SCALE as int))
}

/// One coordinate of a grid applied to a homogeneous column.
pub open spec fn apply_g(g: Seq<Seq<int>>, r: int, x: int, y: int, z: int, w: int) -> int {
    clampi(tdiv(g[r][0] * x + g[r][1] * y + g[r][2] * z + g[r][3] * w, SCALE as int))
}

/// The value of a matrix with its data and cached inverse exchanged.
pub open spec fn inv_m(m: Matrix) -> Matrix {
    Matrix { data: m.inverse, inverse: m.data }
}

/// The invariant a well-conditioned matrix keeps: multiplying its data by
/// its cached inverse lands within the comparison tolerance of the
/// identity, entry by entry.  A nearly singular matrix can break it, so it
/// is stated exactly and checked rather than assumed.
pub open spec fn inverse_consistent(m: Matrix) -> bool {
    forall|i: int, j: int|
        0 <= i < 4 && 0 <= j < 4 ==> fx_eq(
            #[trigger] mul_ent_g(grid(m.data), grid(m.inverse), i, j),
            if i == j {
                SCALE as int
            } else {
                0
            },
        )
}

/// The identity grid.
pub open spec fn identity_g() -> Seq<Seq<int>> {
    Seq::new(4, |i: int| Seq::new(4, |j: int| if i == j { SCALE as int } else { 0int }))
}

/// The grid of the inverse: transposed cofactors over the determinant, or
/// all zeros when the determinant vanishes.
pub open spec fn inverse_of(g: Seq<Seq<int>>) -> Seq<Seq<int>> {
    if det_g(g, 4) == 0 {
        Seq::new(4, |i: int| Seq::new(4, |j: int| 0int))
    } else {
        Seq::new(4, |i: int| Seq::new(4, |j: int| fdiv(cof_g(g, j, i, 3), det_g(g, 4))))
    }
}

/// Map a submatrix index past a struck-out row or column.
fn sk(i: usize, k: usize) -> (r: usize)
    requires
        i < 3,
        k < 4,
    ensures
        r == if i < k {
            i as int
        } else {
            i + 1
        },
        r < 4,
{
    if i < k {
        i
    } else {
        i + 1
    }
}

impl Matrix {
    /// Both grids have every entry in the representable range.
    pub open spec fn wf(self) -> bool {
        grid_wf(self.data) && grid_wf(self.inverse)
    }

    /// Strike out one row and one column, keeping the remaining entries in
    /// the leading corner and padding with zeros.
    pub fn sub_matrix(a: &[[Fx; 4]; 4], r_row: usize, r_col: usize) -> (r: [[Fx; 4]; 4])
        requires
            r_row < 4,
            r_col < 4,
        ensures
            grid(r) == sub_g(grid(*a), r_row as int, r_col as int),
            grid_wf(*a) ==> grid_wf(r),
    {
        let z = Fx { raw: 0 };
        let r = [
            [a[sk(0, r_row)][sk(0, r_col)], a[sk(0, r_row)][sk(1, r_col)], a[sk(0, r_row)][sk(
                2,
                r_col,
            )], z],
            [a[sk(1, r_row)][sk(0, r_col)], a[sk(1, r_row)][sk(1, r_col)], a[sk(1, r_row)][sk(
                2,
                r_col,
            )], z],
            [a[sk(2, r_row)][sk(0, r_col)], a[sk(2, r_row)][sk(1, r_col)], a[sk(2, r_row)][sk(
                2,
                r_col,
            )], z],
            [z, z, z, z],
        ];
        proof {
            assert(grid(r) =~~= sub_g(grid(*a), r_row as int, r_col as int));
        }
        r
    }

    /// Determinant of the leading `s` by `s` corner, by cofactor expansion.
    pub fn determinant(a: &[[Fx; 4]; 4], s: usize) -> (r: Fx)
        requires
            2 <= s <= 4,
            grid_wf(*a),
        ensures
            r.raw as int == det_g(grid(*a), s as nat),
            r.wf(),
        decreases s, 0int,
    {
        if s == 2 {
            Fx::msub(a[0][0], a[1][1], a[0][1], a[1][0])
        } else {
            let mut det = Fx::zero();
            det = det.add(a[0][0].mul(Matrix::cofactor(a, 0, 0, s - 1)));
            det = det.add(a[0][1].mul(Matrix::cofactor(a, 0, 1, s - 1)));
            det = det.add(a[0][2].mul(Matrix::cofactor(a, 0, 2, s - 1)));
            det = det.add(a[0][3].mul(Matrix::cofactor(a, 0, 3, s - 1)));
            det
        }
    }

    /// Determinant of the grid left after striking a row and a column.
    pub fn minor(a: &[[Fx; 4]; 4], r_row: usize, r_col: usize, s: usize) -> (r: Fx)
        requires
            2 <= s <= 4,
            r_row < 4,
            r_col < 4,
            grid_wf(*a),
        ensures
            r.raw as int == minor_g(grid(*a), r_row as int, r_col as int, s as nat),
            r.wf(),
        decreases s, 1int,
    {
        let sub = Matrix::sub_matrix(a, r_row, r_col);
        Matrix::determinant(&sub, s)
    }

    /// Minor with the alternating cofactor sign applied.
    pub fn cofactor(a: &[[Fx; 4]; 4], r_row: usize, r_col: usize, s: usize) -> (r: Fx)
        requires
            2 <= s <= 4,
            r_row < 4,
            r_col < 4,
            grid_wf(*a),
        ensures
            r.raw as int == cof_g(grid(*a), r_row as int, r_col as int, s as nat),
            r.wf(),
        decreases s, 2int,
    {
        let m = Matrix::minor(a, r_row, r_col, s);
        if (r_row + r_col) % 2 == 1 {
            m.neg()
        } else {
            m
        }
    }

    /// One cell of the inverse grid: the transposed cofactor over the
    /// determinant.
    fn inv_ent(a: &[[Fx; 4]; 4], d: Fx, r: usize, c: usize) -> (x: Fx)
        requires
            r < 4,
            c < 4,
            grid_wf(*a),
            d.raw != 0,
        ensures
            x.raw as int == fdiv(cof_g(grid(*a), c as int, r as int, 3), d.raw as int),
            x.wf(),
    {
        Matrix::cofactor(a, c, r, 3).div(d)
    }

    /// Build a matrix from its entries, computing the inverse once by
    /// cofactor expansion.  A grid whose determinant vanishes has no inverse;
    /// its inverse grid is left all zeros and `is_invertible` reports false.
    #[verifier::rlimit(100)]
    pub fn new(data: [[Fx; 4]; 4]) -> (r: Matrix)
        requires
            grid_wf(data),
        ensures
            r.data == data,
            grid(r.inverse) == inverse_of(grid(data)),
            r.wf(),
    {
        let d = Matrix::determinant(&data, 4);
        let z = Fx { raw: 0 };
        if d.raw == 0 {
            let inverse = [[z, z, z, z], [z, z, z, z], [z, z, z, z], [z, z, z, z]];
            proof {
                assert(grid(inverse) =~~= inverse_of(grid(data)));
            }
            Matrix { data, inverse }
        } else {
            let inverse = [
                [
                    Matrix::inv_ent(&data, d, 0, 0),
                    Matrix::inv_ent(&data, d, 0, 1),
                    Matrix::inv_ent(&data, d, 0, 2),
                    Matrix::inv_ent(&data, d, 0, 3),
                ],
                [
                    Matrix::inv_ent(&data, d, 1, 0),
                    Matrix::inv_ent(&data, d, 1, 1),
                    Matrix::inv_ent(&data, d, 1, 2),
                    Matrix::inv_ent(&data, d, 1, 3),
                ],
                [
                    Matrix::inv_ent(&data, d, 2, 0),
                    Matrix::inv_ent(&data, d, 2, 1),
                    Matrix::inv_ent(&data, d, 2, 2),
                    Matrix::inv_ent(&data, d, 2, 3),
                ],
                [
                    Matrix::inv_ent(&data, d, 3, 0),
                    Matrix::inv_ent(&data, d, 3, 1),
                    Matrix::inv_ent(&data, d, 3, 2),
                    Matrix::inv_ent(&data, d, 3, 3),
                ],
            ];
            proof {
                assert(grid(inverse) =~~= inverse_of(grid(data)));
            }
            Matrix { data, inverse }
        }
    }

    /// The identity matrix, which is its own inverse.
    pub fn identity() -> (r: Matrix)
        ensures
            grid(r.data) == identity_g(),
            r.inverse == r.data,
            r.wf(),
    {
        let o = Fx { raw: SCALE };
        let z = Fx { raw: 0 };
        let data = [[o, z, z, z], [z, o, z, z], [z, z, o, z], [z, z, z, o]];
        proof {
            assert(grid(data) =~~= identity_g());
        }
        Matrix { data, inverse: data }
    }

    /// The inverse matrix: the two cached grids swap places, so inverting
    /// twice gives back exactly the original matrix.
    pub fn inverse(&self) -> (r: Matrix)
        ensures
            r.data == self.inverse,
            r.inverse == self.data,
            r == inv_m(*self),
    {
        Matrix { data: self.inverse, inverse: self.data }
    }

    /// Whether the matrix has an inverse: its determinant does not vanish.
    pub fn is_invertible(&self) -> (r: bool)
        requires
            grid_wf(self.data),
        ensures
            r == (det_g(grid(self.data), 4) != 0),
    {
        Matrix::determinant(&self.data, 4).raw != 0
    }

    /// Flip the matrix over its diagonal; the cached inverse flips with it.
    pub fn transpose(&self) -> (r: Matrix)
        ensures
            forall|i: int, j: int|
                0 <= i < 4 && 0 <= j < 4 ==> #[trigger] ent(r.data, i, j) == ent(self.data, j, i),
            forall|i: int, j: int|
                0 <= i < 4 && 0 <= j < 4 ==> #[trigger] ent(r.inverse, i, j) == ent(
                    self.inverse,
                    j,
                    i,
                ),
            self.wf() ==> r.wf(),
    {
        let d = &self.data;
        let t = &self.inverse;
        Matrix {
            data: [
                [d[0][0], d[1][0], d[2][0], d[3][0]],
                [d[0][1], d[1][1], d[2][1], d[3][1]],
                [d[0][2], d[1][2], d[2][2], d[3][2]],
                [d[0][3], d[1][3], d[2][3], d[3][3]],
            ],
            inverse: [
                [t[0][0], t[1][0], t[2][0], t[3][0]],
                [t[0][1], t[1][1], t[2][1], t[3][1]],
                [t[0][2], t[1][2], t[2][2], t[3][2]],
                [t[0][3], t[1][3], t[2][3], t[3][3]],
            ],
        }
    }

    /// One cell of the product of two grids.
    fn mul_cell(a: &[[Fx; 4]; 4], b: &[[Fx; 4]; 4], r: usize, c: usize) -> (x: Fx)
        requires
            r < 4,
            c < 4,
            grid_wf(*a),
            grid_wf(*b),
        ensures
            x.raw as int == mul_ent_g(grid(*a), grid(*b), r as int, c as int),
            x.wf(),
    {
        proof {
            assert(a[r as int][0].wf() && a[r as int][1].wf() && a[r as int][2].wf() && a[r
                as int][3].wf());
            assert(b[0][c as int].wf() && b[1][c as int].wf() && b[2][c as int].wf() && b[3][c
                as int].wf());
            lemma_mul_lim_fits(a[r as int][0].raw as int, b[0][c as int].raw as int);
            lemma_mul_lim_fits(a[r as int][1].raw as int, b[1][c as int].raw as int);
            lemma_mul_lim_fits(a[r as int][2].raw as int, b[2][c as int].raw as int);
            lemma_mul_lim_fits(a[r as int][3].raw as int, b[3][c as int].raw as int);
        }
        let s: i128 = (a[r][0].raw as i128) * (b[0][c].raw as i128) + (a[r][1].raw as i128) * (
        b[1][c].raw as i128) + (a[r][2].raw as i128) * (b[2][c].raw as i128) + (a[r][3].raw
            as i128) * (b[3][c].raw as i128);
        Fx { raw: rescale128(s) }
    }

    /// Multiply two grids cell by cell, each cell rescaled only once.
    pub fn mul_grid(a: &[[Fx; 4]; 4], b: &[[Fx; 4]; 4]) -> (r: [[Fx; 4]; 4])
        requires
            grid_wf(*a),
            grid_wf(*b),
        ensures
            forall|i: int, j: int|
                0 <= i < 4 && 0 <= j < 4 ==> #[trigger] ent(r, i, j) == mul_ent_g(
                    grid(*a),
                    grid(*b),
                    i,
                    j,
                ),
            grid_wf(r),
    {
        [
            [
                Matrix::mul_cell(a, b, 0, 0),
                Matrix::mul_cell(a, b, 0, 1),
                Matrix::mul_cell(a, b, 0, 2),
                Matrix::mul_cell(a, b, 0, 3),
            ],
            [
                Matrix::mul_cell(a, b, 1, 0),
                Matrix::mul_cell(a, b, 1, 1),
                Matrix::mul_cell(a, b, 1, 2),
                Matrix::mul_cell(a, b, 1, 3),
            ],
            [
                Matrix::mul_cell(a, b, 2, 0),
                Matrix::mul_cell(a, b, 2, 1),
                Matrix::mul_cell(a, b, 2, 2),
                Matrix::mul_cell(a, b, 2, 3),
            ],
            [
                Matrix::mul_cell(a, b, 3, 0),
                Matrix::mul_cell(a, b, 3, 1),
                Matrix::mul_cell(a, b, 3, 2),
                Matrix::mul_cell(a, b, 3, 3),
            ],
        ]
    }

    /// Product of two matrices; the inverse of the product is computed fresh.
    pub fn mul(&self, other: &Matrix) -> (r: Matrix)
        requires
            grid_wf(self.data),
            grid_wf(other.data),
        ensures
            forall|i: int, j: int|
                0 <= i < 4 && 0 <= j < 4 ==> #[trigger] ent(r.data, i, j) == mul_ent_g(
                    grid(self.data),
                    grid(other.data),
                    i,
                    j,
                ),
            grid(r.inverse) == inverse_of(grid(r.data)),
            r.wf(),
    {
        Matrix::new(Matrix::mul_grid(&self.data, &other.data))
    }

    /// One coordinate of the matrix applied to a homogeneous column.
    fn apply_row(&self, r: usize, x: Fx, y: Fx, z: Fx, w: Fx) -> (v: Fx)
        requires
            r < 4,
            grid_wf(self.data),
            x.wf(),
            y.wf(),
            z.wf(),
            w.wf(),
        ensures
            v.raw as int == apply_g(
                grid(self.data),
                r as int,
                x.raw as int,
                y.raw as int,
                z.raw as int,
                w.raw as int,
            ),
            v.wf(),
    {
        let d = &self.data;
        proof {
            assert(d[r as int][0].wf() && d[r as int][1].wf() && d[r as int][2].wf() && d[r
                as int][3].wf());
            lemma_mul_lim_fits(d[r as int][0].raw as int, x.raw as int);
            lemma_mul_lim_fits(d[r as int][1].raw as int, y.raw as int);
            lemma_mul_lim_fits(d[r as int][2].raw as int, z.raw as int);
            lemma_mul_lim_fits(d[r as int][3].raw as int, w.raw as int);
        }
        let s: i128 = (d[r][0].raw as i128) * (x.raw as i128) + (d[r][1].raw as i128) * (y.raw
            as i128) + (d[r][2].raw as i128) * (z.raw as i128) + (d[r][3].raw as i128) * (w.raw
            as i128);
        Fx { raw: rescale128(s) }
    }

    /// Carry a point through the matrix: its homogeneous weight is one.
    pub fn mul_point(&self, p: Point) -> (r: Point)
        requires
            grid_wf(self.data),
            p.wf(),
        ensures
            ({
                let g = grid(self.data);
                let x = p.x.raw as int;
                let y = p.y.raw as int;
                let z = p.z.raw as int;
                &&& r.x.raw as int == apply_g(g, 0, x, y, z, SCALE as int)
                &&& r.y.raw as int == apply_g(g, 1, x, y, z, SCALE as int)
                &&& r.z.raw as int == apply_g(g, 2, x, y, z, SCALE as int)
            }),
            r.wf(),
    {
        let w = Fx { raw: SCALE };
        Point {
            x: self.apply_row(0, p.x, p.y, p.z, w),
            y: self.apply_row(1, p.x, p.y, p.z, w),
            z: self.apply_row(2, p.x, p.y, p.z, w),
        }
    }

    /// Carry a vector through the matrix: its homogeneous weight is zero, so
    /// translation leaves it unchanged.
    pub fn mul_vector(&self, v: Vector) -> (r: Vector)
        requires
            grid_wf(self.data),
            v.wf(),
        ensures
            ({
                let g = grid(self.data);
                let x = v.x.raw as int;
                let y = v.y.raw as int;
                let z = v.z.raw as int;
                &&& r.x.raw as int == apply_g(g, 0, x, y, z, 0)
                &&& r.y.raw as int == apply_g(g, 1, x, y, z, 0)
                &&& r.z.raw as int == apply_g(g, 2, x, y, z, 0)
            }),
            r.wf(),
    {
        let w = Fx { raw: 0 };
        Vector {
            x: self.apply_row(0, v.x, v.y, v.z, w),
            y: self.apply_row(1, v.x, v.y, v.z, w),
            z: self.apply_row(2, v.x, v.y, v.z, w),
        }
    }

    /// Check the stored inverse against the data: their product must land
    /// within the comparison tolerance of the identity, entry by entry.
    pub fn inverse_within_tolerance(&self) -> (r: bool)
        requires
            self.wf(),
        ensures
            r == inverse_consistent(*self),
    {
        let product = Matrix::mul_grid(&self.data, &self.inverse);
        let mut i: usize = 0;
        while i < 4
            invariant
                i <= 4,
                forall|a: int, b: int|
                    0 <= a < 4 && 0 <= b < 4 ==> #[trigger] ent(product, a, b) == mul_ent_g(
                        grid(self.data),
                        grid(self.inverse),
                        a,
                        b,
                    ),
                forall|a: int, b: int|
                    0 <= a < i && 0 <= b < 4 ==> fx_eq(
                        #[trigger] mul_ent_g(grid(self.data), grid(self.inverse), a, b),
                        if a == b {
                            SCALE as int
                        } else {
                            0
                        },
                    ),
            decreases 4 - i,
        {
            let mut j: usize = 0;
            while j < 4
                invariant
                    i < 4,
                    j <= 4,
                    forall|a: int, b: int|
                        0 <= a < 4 && 0 <= b < 4 ==> #[trigger] ent(product, a, b) == mul_ent_g(
                            grid(self.data),
                            grid(self.inverse),
                            a,
                            b,
                        ),
                    forall|a: int, b: int|
                        0 <= a < i && 0 <= b < 4 ==> fx_eq(
                            #[trigger] mul_ent_g(grid(self.data), grid(self.inverse), a, b),
                            if a == b {
                                SCALE as int
                            } else {
                                0
                            },
                        ),
                    forall|b: int|
                        0 <= b < j ==> fx_eq(
                            #[trigger] mul_ent_g(grid(self.data), grid(self.inverse), i as int, b),
                            if i as int == b {
                                SCALE as int
                            } else {
                                0
                            },
                        ),
                decreases 4 - j,
            {
                let expected = if i == j {
                    Fx { raw: SCALE }
                } else {
                    Fx { raw: 0 }
                };
                let entry = product[i][j];
                proof {
                    assert(ent(product, i as int, j as int) == mul_ent_g(
                        grid(self.data),
                        grid(self.inverse),
                        i as int,
                        j as int,
                    ));
                    assert(entry.raw as int == mul_ent_g(
                        grid(self.data),
                        grid(self.inverse),
                        i as int,
                        j as int,
                    ));
                    assert(expected.raw as int == if i as int == j as int {
                        SCALE as int
                    } else {
                        0int
                    });
                }
                if !entry.approx_eq(expected) {
                    proof {
                        assert(!fx_eq(
                            mul_ent_g(grid(self.data), grid(self.inverse), i as int, j as int),
                            if i as int == j as int {
                                SCALE as int
                            } else {
                                0
                            },
                        ));
                    }
                    return false;
                }
                j = j + 1;
            }
            i = i + 1;
        }
        true
    }

    /// Entry-wise comparison of the data grids within the fixed tolerance.
    pub fn approx_eq(&self, other: &Matrix) -> (r: bool)
        ensures
            r == forall|i: int, j: int|
                0 <= i < 4 && 0 <= j < 4 ==> fx_eq(
                    #[trigger] ent(self.data, i, j),
                    ent(other.data, i, j),
                ),
    {
        let mut i: usize = 0;
        while i < 4
            invariant
                i <= 4,
                forall|a: int, b: int|
                    0 <= a < i && 0 <= b < 4 ==> fx_eq(
                        #[trigger] ent(self.data, a, b),
                        ent(other.data, a, b),
                    ),
            decreases 4 - i,
        {
            let mut j: usize = 0;
            while j < 4
                invariant
                    i < 4,
                    j <= 4,
                    forall|a: int, b: int|
                        0 <= a < i && 0 <= b < 4 ==> fx_eq(
                            #[trigger] ent(self.data, a, b),
                            ent(other.data, a, b),
                        ),
                    forall|b: int|
                        0 <= b < j ==> fx_eq(
                            #[trigger] ent(self.data, i as int, b),
                            ent(other.data, i as int, b),
                        ),
                decreases 4 - j,
            {
                if !self.data[i][j].approx_eq(other.data[i][j]) {
                    proof {
                        assert(!fx_eq(
                            ent(self.data, i as int, j as int),
                            ent(other.data, i as int, j as int),
                        ));
                    }
                    return false;
                }
                j = j + 1;
            }
            i = i + 1;
        }
        true
    }
}

} // verus!
