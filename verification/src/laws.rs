//! The crate-wide laws: statements that tie several functions together,
//! proved once and for all inputs.

use vstd::prelude::*;
use crate::fx::Fx;
use crate::fx::SCALE;
use crate::fx::fx_eq;
use crate::fx::lemma_tdiv_scale;
use crate::matrix::Matrix;
use crate::matrix::grid;
use crate::matrix::identity_g;
use crate::matrix::inv_m;
use crate::matrix::inverse_consistent;
use crate::matrix::cof_g;
use crate::matrix::det_g;
use crate::matrix::ent;
use crate::matrix::inverse_of;
use crate::matrix::mul_ent_g;
use crate::matrix::sub_g;
use crate::transformation::translate_g;
use crate::ray::Ray;
use crate::ray::ray_through;
use crate::shapes::Shape;

verus! {

/// For any shape and world-space ray, the meetings `intersect` reports are
/// exactly the meetings `local_intersect` reports for the ray carried into
/// the shape's object space by the shape's inverse transformation.
pub proof fn lemma_intersect_in_object_space(s: Shape, r: Ray)
    ensures
        s.shape_xs(r) == s.local_xs(ray_through(grid(s.spec_transform().inverse), r)),
{
}

/// Inverting a matrix twice gives back exactly the original matrix, for
/// any matrix however it was built: the inverse is computed once, at
/// construction, and `inverse` only exchanges the two cached grids.
pub proof fn lemma_inverse_involutive(m: Matrix)
    ensures
        inv_m(inv_m(m)) == m,
{
}

/// A matrix whose data is the identity and whose cached inverse is its
/// data keeps the inverse invariant exactly: the product of the two grids
/// is the identity, not merely within tolerance.
pub proof fn lemma_identity_inverse_consistent(m: Matrix)
    requires
        grid(m.data) == identity_g(),
        m.inverse == m.data,
    ensures
        inverse_consistent(m),
{
    assert forall|i: int, j: int| 0 <= i < 4 && 0 <= j < 4 implies fx_eq(
        #[trigger] mul_ent_g(grid(m.data), grid(m.inverse), i, j),
        if i == j {
            SCALE as int
        } else {
            0
        },
    ) by {
        let g = grid(m.data);
        assert(forall|k: int| 0 <= k < 4 ==> #[trigger] g[i][k] == if i == k {
            SCALE as int
        } else {
            0int
        });
        assert(forall|k: int| 0 <= k < 4 ==> #[trigger] g[k][j] == if k == j {
            SCALE as int
        } else {
            0int
        });
        if i == j {
            assert(g[i][0] * g[0][j] + g[i][1] * g[1][j] + g[i][2] * g[2][j] + g[i][3] * g[3][j]
                == (SCALE as int) * (SCALE as int)) by (nonlinear_arith)
                requires
                    forall|k: int| 0 <= k < 4 ==> #[trigger] g[i][k] == if i == k {
                        SCALE as int
                    } else {
                        0int
                    },
                    forall|k: int| 0 <= k < 4 ==> #[trigger] g[k][j] == if k == j {
                        SCALE as int
                    } else {
                        0int
                    },
                    0 <= i < 4,
                    0 <= j < 4,
                    i == j,
            ;
            vstd::arithmetic::div_mod::lemma_div_multiples_vanish(SCALE as int, SCALE as int);
        } else {
            assert(g[i][0] * g[0][j] + g[i][1] * g[1][j] + g[i][2] * g[2][j] + g[i][3] * g[3][j]
                == 0) by (nonlinear_arith)
                requires
                    forall|k: int| 0 <= k < 4 ==> #[trigger] g[i][k] == if i == k {
                        SCALE as int
                    } else {
                        0int
                    },
                    forall|k: int| 0 <= k < 4 ==> #[trigger] g[k][j] == if k == j {
                        SCALE as int
                    } else {
                        0int
                    },
                    0 <= i < 4,
                    0 <= j < 4,
                    i != j,
            ;
        }
    }
}

/// A chain of one translation keeps the inverse invariant, and exactly:
/// the cofactor expansion of a translation grid is free of rounding, so the
/// built matrix times its cached inverse is the identity itself, not
/// merely within tolerance.  The hypotheses are exactly what chaining a
/// translation onto a fresh chain and building it ensure.
#[verifier::rlimit(100)]
#[verifier::spinoff_prover]
pub proof fn lemma_translate_inverse_consistent(x: Fx, y: Fx, z: Fx, m: Matrix)
    requires
        x.wf(),
        y.wf(),
        z.wf(),
        forall|i: int, j: int|
            0 <= i < 4 && 0 <= j < 4 ==> #[trigger] ent(m.data, i, j) == mul_ent_g(
                translate_g(x.raw as int, y.raw as int, z.raw as int),
                identity_g(),
                i,
                j,
            ),
        grid(m.inverse) == inverse_of(grid(m.data)),
    ensures
        inverse_consistent(m),
{
    let s = SCALE as int;
    let xv = x.raw as int;
    let yv = y.raw as int;
    let zv = z.raw as int;
    let tg = translate_g(xv, yv, zv);
    lemma_tdiv_scale(s);
    lemma_tdiv_scale(0);
    lemma_tdiv_scale(xv);
    lemma_tdiv_scale(yv);
    lemma_tdiv_scale(zv);
    lemma_tdiv_scale(-xv);
    lemma_tdiv_scale(-yv);
    lemma_tdiv_scale(-zv);
    assert(xv * 0 == 0 && 0 * xv == 0 && yv * 0 == 0 && 0 * yv == 0 && zv * 0 == 0 && 0 * zv == 0
        && s * 0 == 0 && 0 * s == 0 && 0 * 0 == 0) by (nonlinear_arith);
    let g = grid(m.data);
    assert forall|i: int, j: int| 0 <= i < 4 && 0 <= j < 4 implies #[trigger] g[i][j]
        == tg[i][j] by {
        assert(ent(m.data, i, j) == mul_ent_g(tg, identity_g(), i, j));
        assert(tg[i][0] * identity_g()[0][j] + tg[i][1] * identity_g()[1][j] + tg[i][2]
            * identity_g()[2][j] + tg[i][3] * identity_g()[3][j] == tg[i][j] * s);
        lemma_tdiv_scale(tg[i][j]);
    }
    assert(g =~~= tg);
    let c00 = cof_g(g, 0, 0, 3);
    assert(c00 == s) by {
        let sub = sub_g(g, 0, 0);
        assert(det_g(sub_g(sub, 0, 0), 2) == s);
        assert(det_g(sub_g(sub, 0, 2), 2) == 0);
        crate::fx::lemma_fmul_zero(cof_g(sub, 0, 1, 2));
        crate::fx::lemma_fmul_zero(cof_g(sub, 0, 3, 2));
        assert(det_g(sub, 3) == s);
    }
    let c01 = cof_g(g, 0, 1, 3);
    assert(c01 == 0) by {
        let sub = sub_g(g, 0, 1);
        assert(det_g(sub_g(sub, 0, 2), 2) == 0);
        crate::fx::lemma_fmul_zero(cof_g(sub, 0, 0, 2));
        crate::fx::lemma_fmul_zero(cof_g(sub, 0, 1, 2));
        crate::fx::lemma_fmul_zero(cof_g(sub, 0, 3, 2));
        assert(det_g(sub, 3) == 0);
    }
    let c02 = cof_g(g, 0, 2, 3);
    assert(c02 == 0) by {
        let sub = sub_g(g, 0, 2);
        assert(det_g(sub_g(sub, 0, 1), 2) == 0);
        assert(det_g(sub_g(sub, 0, 2), 2) == 0);
        crate::fx::lemma_fmul_zero(cof_g(sub, 0, 0, 2));
        crate::fx::lemma_fmul_zero(cof_g(sub, 0, 3, 2));
        assert(det_g(sub, 3) == 0);
    }
    let c03 = cof_g(g, 0, 3, 3);
    assert(c03 == 0) by {
        let sub = sub_g(g, 0, 3);
        assert(det_g(sub_g(sub, 0, 1), 2) == 0);
        crate::fx::lemma_fmul_zero(cof_g(sub, 0, 0, 2));
        crate::fx::lemma_fmul_zero(cof_g(sub, 0, 2, 2));
        crate::fx::lemma_fmul_zero(cof_g(sub, 0, 3, 2));
        assert(det_g(sub, 3) == 0);
    }
    let c10 = cof_g(g, 1, 0, 3);
    assert(c10 == 0) by {
        let sub = sub_g(g, 1, 0);
        assert(det_g(sub_g(sub, 0, 2), 2) == 0);
        crate::fx::lemma_fmul_zero(cof_g(sub, 0, 0, 2));
        crate::fx::lemma_fmul_zero(cof_g(sub, 0, 1, 2));
        crate::fx::lemma_fmul_zero(cof_g(sub, 0, 3, 2));
        assert(det_g(sub, 3) == 0);
    }
    let c11 = cof_g(g, 1, 1, 3);
    assert(c11 == s) by {
        let sub = sub_g(g, 1, 1);
        assert(det_g(sub_g(sub, 0, 0), 2) == s);
        assert(det_g(sub_g(sub, 0, 2), 2) == 0);
        crate::fx::lemma_fmul_zero(cof_g(sub, 0, 1, 2));
        crate::fx::lemma_fmul_zero(cof_g(sub, 0, 3, 2));
        assert(det_g(sub, 3) == s);
    }
    let c12 = cof_g(g, 1, 2, 3);
    assert(c12 == 0) by {
        let sub = sub_g(g, 1, 2);
        assert(det_g(sub_g(sub, 0, 0), 2) == 0);
        assert(det_g(sub_g(sub, 0, 2), 2) == 0);
        crate::fx::lemma_fmul_zero(cof_g(sub, 0, 1, 2));
        crate::fx::lemma_fmul_zero(cof_g(sub, 0, 3, 2));
        assert(det_g(sub, 3) == 0);
    }
    let c13 = cof_g(g, 1, 3, 3);
    assert(c13 == 0) by {
        let sub = sub_g(g, 1, 3);
        assert(det_g(sub_g(sub, 0, 0), 2) == 0);
        crate::fx::lemma_fmul_zero(cof_g(sub, 0, 1, 2));
        crate::fx::lemma_fmul_zero(cof_g(sub, 0, 2, 2));
        crate::fx::lemma_fmul_zero(cof_g(sub, 0, 3, 2));
        assert(det_g(sub, 3) == 0);
    }
    let c20 = cof_g(g, 2, 0, 3);
    assert(c20 == 0) by {
        let sub = sub_g(g, 2, 0);
        assert(det_g(sub_g(sub, 0, 2), 2) == 0);
        crate::fx::lemma_fmul_zero(cof_g(sub, 0, 0, 2));
        crate::fx::lemma_fmul_zero(cof_g(sub, 0, 1, 2));
        crate::fx::lemma_fmul_zero(cof_g(sub, 0, 3, 2));
        assert(det_g(sub, 3) == 0);
    }
    let c21 = cof_g(g, 2, 1, 3);
    assert(c21 == 0) by {
        let sub = sub_g(g, 2, 1);
        assert(det_g(sub_g(sub, 0, 0), 2) == 0);
        assert(det_g(sub_g(sub, 0, 2), 2) == 0);
        crate::fx::lemma_fmul_zero(cof_g(sub, 0, 1, 2));
        crate::fx::lemma_fmul_zero(cof_g(sub, 0, 3, 2));
        assert(det_g(sub, 3) == 0);
    }
    let c22 = cof_g(g, 2, 2, 3);
    assert(c22 == s) by {
        let sub = sub_g(g, 2, 2);
        assert(det_g(sub_g(sub, 0, 0), 2) == s);
        assert(det_g(sub_g(sub, 0, 2), 2) == 0);
        crate::fx::lemma_fmul_zero(cof_g(sub, 0, 1, 2));
        crate::fx::lemma_fmul_zero(cof_g(sub, 0, 3, 2));
        assert(det_g(sub, 3) == s);
    }
    let c23 = cof_g(g, 2, 3, 3);
    assert(c23 == 0) by {
        let sub = sub_g(g, 2, 3);
        assert(det_g(sub_g(sub, 0, 0), 2) == 0);
        crate::fx::lemma_fmul_zero(cof_g(sub, 0, 1, 2));
        crate::fx::lemma_fmul_zero(cof_g(sub, 0, 2, 2));
        crate::fx::lemma_fmul_zero(cof_g(sub, 0, 3, 2));
        assert(det_g(sub, 3) == 0);
    }
    let c30 = cof_g(g, 3, 0, 3);
    assert(c30 == -xv) by {
        let sub = sub_g(g, 3, 0);
        assert(det_g(sub_g(sub, 0, 2), 2) == s);
        crate::fx::lemma_fmul_zero(cof_g(sub, 0, 0, 2));
        crate::fx::lemma_fmul_zero(cof_g(sub, 0, 1, 2));
        crate::fx::lemma_fmul_zero(cof_g(sub, 0, 3, 2));
        assert(det_g(sub, 3) == xv);
    }
    let c31 = cof_g(g, 3, 1, 3);
    assert(c31 == -yv) by {
        let sub = sub_g(g, 3, 1);
        assert(s * (-yv) == (-yv) * s && 0 * zv == 0 && yv * s == -((-yv) * s)) by (nonlinear_arith);
        assert(det_g(sub_g(sub, 0, 0), 2) == -yv);
        assert(det_g(sub_g(sub, 0, 2), 2) == 0);
        crate::fx::lemma_fmul_zero(cof_g(sub, 0, 1, 2));
        crate::fx::lemma_fmul_zero(cof_g(sub, 0, 3, 2));
        assert(det_g(sub, 3) == -yv);
    }
    let c32 = cof_g(g, 3, 2, 3);
    assert(c32 == -zv) by {
        let sub = sub_g(g, 3, 2);
        assert(s * zv == zv * s) by (nonlinear_arith);
        assert(det_g(sub_g(sub, 0, 0), 2) == zv);
        assert(det_g(sub_g(sub, 0, 2), 2) == 0);
        crate::fx::lemma_fmul_zero(cof_g(sub, 0, 1, 2));
        crate::fx::lemma_fmul_zero(cof_g(sub, 0, 3, 2));
        assert(det_g(sub, 3) == zv);
    }
    let c33 = cof_g(g, 3, 3, 3);
    assert(c33 == s) by {
        let sub = sub_g(g, 3, 3);
        assert(det_g(sub_g(sub, 0, 0), 2) == s);
        crate::fx::lemma_fmul_zero(cof_g(sub, 0, 1, 2));
        crate::fx::lemma_fmul_zero(cof_g(sub, 0, 2, 2));
        crate::fx::lemma_fmul_zero(cof_g(sub, 0, 3, 2));
        assert(det_g(sub, 3) == s);
    }
    assert(det_g(g, 4) == s);
    let inv = grid(m.inverse);
    assert(inv[0][0] == s && inv[0][1] == 0 && inv[0][2] == 0 && inv[0][3] == -xv);
    assert(inv[1][0] == 0 && inv[1][1] == s && inv[1][2] == 0 && inv[1][3] == -yv);
    assert(inv[2][0] == 0 && inv[2][1] == 0 && inv[2][2] == s && inv[2][3] == -zv);
    assert(inv[3][0] == 0 && inv[3][1] == 0 && inv[3][2] == 0 && inv[3][3] == s);
    assert forall|i: int, j: int| 0 <= i < 4 && 0 <= j < 4 implies fx_eq(
        #[trigger] mul_ent_g(g, inv, i, j),
        if i == j {
            SCALE as int
        } else {
            0
        },
    ) by {
        assert(s * (-xv) + xv * s == 0) by (nonlinear_arith);
        assert(s * (-yv) + yv * s == 0) by (nonlinear_arith);
        assert(s * (-zv) + zv * s == 0) by (nonlinear_arith);
        assert(0 * (-xv) == 0 && 0 * (-yv) == 0 && 0 * (-zv) == 0) by (nonlinear_arith);
        assert(g[i][0] * inv[0][j] + g[i][1] * inv[1][j] + g[i][2] * inv[2][j] + g[i][3]
            * inv[3][j] == if i == j {
            s * s
        } else {
            0int
        });
    }
}

} // verus!
