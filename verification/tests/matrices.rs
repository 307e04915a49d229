//! Matrices and the transformation builders.

use rustic_ray::Fx;
use rustic_ray::Matrix;
use rustic_ray::Point;
use rustic_ray::Transformation;
use rustic_ray::Vector;
use rustic_ray::SCALE;

fn fx(i: i64) -> Fx {
    Fx::from_int(i)
}

fn grid4(vals: [[i64; 4]; 4]) -> [[Fx; 4]; 4] {
    let mut g = [[Fx { raw: 0 }; 4]; 4];
    let mut r = 0;
    while r < 4 {
        let mut c = 0;
        while c < 4 {
            g[r][c] = fx(vals[r][c]);
            c += 1;
        }
        r += 1;
    }
    g
}

fn point(x: i64, y: i64, z: i64) -> Point {
    Point::new(fx(x), fx(y), fx(z))
}

fn vector(x: i64, y: i64, z: i64) -> Vector {
    Vector::new(fx(x), fx(y), fx(z))
}

#[test]
fn calculating_the_determinant_of_a_2x2_matrix() {
    let a = grid4([[1, 5, 0, 0], [-3, 2, 0, 0], [0, 0, 0, 0], [0, 0, 0, 0]]);
    assert_eq!(Matrix::determinant(&a, 2).raw, 17 * SCALE);
}

#[test]
fn calculating_the_determinant_of_a_3x3_matrix() {
    let a = grid4([[1, 2, 6, 0], [-5, 8, -4, 0], [2, 6, 4, 0], [0, 0, 0, 0]]);
    assert_eq!(Matrix::cofactor(&a, 0, 0, 2).raw, 56 * SCALE);
    assert_eq!(Matrix::cofactor(&a, 0, 1, 2).raw, 12 * SCALE);
    assert_eq!(Matrix::cofactor(&a, 0, 2, 2).raw, -46 * SCALE);
    assert_eq!(Matrix::determinant(&a, 3).raw, -196 * SCALE);
}

#[test]
fn calculating_the_determinant_of_a_4x4_matrix() {
    let a = grid4([[-2, -8, 3, 5], [-3, 1, 7, 3], [1, 2, -9, 6], [-6, 7, 7, -9]]);
    assert_eq!(Matrix::determinant(&a, 4).raw, -4071 * SCALE);
}

#[test]
fn an_invertible_matrix_is_recognized() {
    let a = Matrix::new(grid4([[6, 4, 4, 4], [5, 5, 7, 6], [4, -9, 3, -7], [9, 1, 7, -6]]));
    assert!(a.is_invertible());
    let b = Matrix::new(grid4([[-4, 2, -2, -3], [9, 6, 2, 6], [0, -5, 1, -5], [0, 0, 0, 0]]));
    assert!(!b.is_invertible());
}

#[test]
fn multiplying_a_product_by_its_inverse() {
    let a = Matrix::new(grid4([[3, -9, 7, 3], [3, -8, 2, -9], [-4, 4, 4, 1], [-6, 5, -1, 1]]));
    let b = Transformation::new()
        .scale(fx(2), fx(2), fx(2))
        .translate(fx(5), fx(-3), fx(2))
        .build();
    let c = a.mul(&b);
    let back = c.mul(&b.inverse());
    assert!(back.approx_eq(&a));
}

#[test]
fn inverting_twice_gives_back_the_original_matrix() {
    // Inverting is an involution by construction: the matrix and its cached
    // inverse simply exchange places, so the round trip is exact.
    let m = Transformation::new()
        .rotate_x(Fx::one(), Fx::zero())
        .scale(fx(5), fx(5), fx(5))
        .translate(fx(10), fx(5), fx(7))
        .build();
    let back = m.inverse().inverse();
    assert_eq!(back.data[1][3].raw, m.data[1][3].raw);
    assert!(back.approx_eq(&m));
}

#[test]
fn transposing_a_matrix() {
    let a = Matrix::new(grid4([[0, 9, 3, 0], [9, 8, 0, 8], [1, 8, 5, 3], [0, 0, 5, 8]]));
    let t = a.transpose();
    let mut r = 0;
    while r < 4 {
        let mut c = 0;
        while c < 4 {
            assert_eq!(t.data[r][c].raw, a.data[c][r].raw);
            c += 1;
        }
        r += 1;
    }
}

#[test]
fn multiplying_by_a_translation_matrix() {
    let transform = Transformation::new().translate(fx(5), fx(-3), fx(2)).build();
    let p = point(-3, 4, 5);
    assert!(transform.mul_point(p).approx_eq(point(2, 1, 7)));
}

#[test]
fn multiplying_by_the_inverse_of_a_translation_matrix() {
    let transform = Transformation::new().translate(fx(5), fx(-3), fx(2)).build();
    let inv = transform.inverse();
    let p = point(-3, 4, 5);
    assert!(inv.mul_point(p).approx_eq(point(-8, 7, 3)));
}

#[test]
fn translation_does_not_affect_vectors() {
    let transform = Transformation::new().translate(fx(5), fx(-3), fx(2)).build();
    let v = vector(-3, 4, 5);
    assert!(transform.mul_vector(v).approx_eq(v));
}

#[test]
fn a_scaling_matrix_applied_to_a_point() {
    let transform = Transformation::new().scale(fx(2), fx(3), fx(4)).build();
    assert!(transform.mul_point(point(-4, 6, 8)).approx_eq(point(-8, 18, 32)));
}

#[test]
fn a_scaling_matrix_applied_to_a_vector() {
    let transform = Transformation::new().scale(fx(2), fx(3), fx(4)).build();
    assert!(transform.mul_vector(vector(-4, 6, 8)).approx_eq(vector(-8, 18, 32)));
}

#[test]
fn multiplying_by_the_inverse_of_a_scaling_matrix() {
    let transform = Transformation::new().scale(fx(2), fx(3), fx(4)).build();
    let inv = transform.inverse();
    assert!(inv.mul_vector(vector(-4, 6, 8)).approx_eq(vector(-2, 2, 2)));
}

#[test]
fn rotating_a_point_a_full_quarter_around_x() {
    // The sine and cosine of a quarter turn are one and zero.
    let full_quarter = Transformation::new().rotate_x(Fx::one(), Fx::zero()).build();
    assert!(full_quarter.mul_point(point(0, 1, 0)).approx_eq(point(0, 0, 1)));
}

#[test]
fn rotating_a_point_a_full_quarter_around_y() {
    let full_quarter = Transformation::new().rotate_y(Fx::one(), Fx::zero()).build();
    assert!(full_quarter.mul_point(point(0, 0, 1)).approx_eq(point(1, 0, 0)));
}

#[test]
fn rotating_a_point_a_full_quarter_around_z() {
    let full_quarter = Transformation::new().rotate_z(Fx::one(), Fx::zero()).build();
    assert!(full_quarter.mul_point(point(0, 1, 0)).approx_eq(point(-1, 0, 0)));
}

#[test]
fn rotating_a_point_a_half_quarter_around_x() {
    // The sine and cosine of an eighth turn are both half the square root
    // of two.
    let s = Fx::from_int(2).sqrt().div(Fx::from_int(2));
    let half_quarter = Transformation::new().rotate_x(s, s).build();
    let r = half_quarter.mul_point(point(0, 1, 0));
    assert!(r.approx_eq(Point::new(Fx::zero(), s, s)));
}

#[test]
fn a_shearing_transformation_moves_x_in_proportion_to_y() {
    let transform = Transformation::new()
        .shear(Fx::one(), Fx::zero(), Fx::zero(), Fx::zero(), Fx::zero(), Fx::zero())
        .build();
    assert!(transform.mul_point(point(2, 3, 4)).approx_eq(point(5, 3, 4)));
}

#[test]
fn chained_transformations_apply_in_call_order() {
    let p = point(1, 0, 1);
    let t = Transformation::new()
        .rotate_x(Fx::one(), Fx::zero())
        .scale(fx(5), fx(5), fx(5))
        .translate(fx(10), fx(5), fx(7))
        .build();
    assert!(t.mul_point(p).approx_eq(point(15, 0, 7)));
}

#[test]
fn view_transform_for_the_default_orientation() {
    let t = Transformation::view_transform(point(0, 0, 0), point(0, 0, -1), vector(0, 1, 0));
    assert!(t.approx_eq(&Matrix::identity()));
}

#[test]
fn view_transform_moves_the_world() {
    let t = Transformation::view_transform(point(0, 0, 8), point(0, 0, 0), vector(0, 1, 0));
    let e = Transformation::new().translate(fx(0), fx(0), fx(-8)).build();
    assert!(t.approx_eq(&e));
}

#[test]
fn built_transforms_keep_their_inverse_consistent() {
    let s = Fx::from_int(2).sqrt().div(fx(2));
    let chains = [
        Matrix::identity(),
        Transformation::new().translate(fx(5), fx(-3), fx(2)).build(),
        Transformation::new().scale(fx(2), fx(3), fx(4)).build(),
        Transformation::new().rotate_x(Fx::one(), Fx::zero()).build(),
        Transformation::new().rotate_y(s, s).build(),
        Transformation::new().rotate_z(Fx::one(), Fx::zero()).build(),
        Transformation::new()
            .shear(Fx::one(), Fx::zero(), Fx::zero(), Fx::zero(), Fx::zero(), Fx::zero())
            .build(),
        Transformation::new()
            .rotate_x(Fx::one(), Fx::zero())
            .scale(fx(5), fx(5), fx(5))
            .translate(fx(10), fx(5), fx(7))
            .build(),
    ];
    for m in chains {
        assert!(m.inverse_within_tolerance());
    }
}
