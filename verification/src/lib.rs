//! A Whitted-style recursive ray tracer built on fixed-point arithmetic.
//!
//! Scene geometry lives in nested, transformed groups and boolean (CSG)
//! combinations of primitive shapes.  A cast ray is resolved to the nearest
//! visible surface and shaded with the Phong model, including shadows,
//! reflection and refraction, all bounded by an explicit recursion budget.
//!
//! Every scalar is a [`fx::Fx`] fixed-point number, so all geometric
//! computations are exact integer arithmetic and carry full contracts.

mod color;
mod colors;
mod fx;
mod identity;
mod laws;
mod light;
mod material;
mod matrix;
pub mod patterns;
mod intersection;
pub mod shapes;
mod ray;
mod computations;
mod world;
mod transformation;
mod point;
mod vector;

pub use crate::fx::Fx;
pub use crate::fx::EPSILON;
pub use crate::fx::SCALE;
pub use crate::color::Color;
pub use crate::colors::Colors;
pub use crate::intersection::Intersection;
pub use crate::laws::lemma_identity_inverse_consistent;
pub use crate::laws::lemma_intersect_in_object_space;
pub use crate::laws::lemma_translate_inverse_consistent;
pub use crate::laws::lemma_inverse_involutive;
pub use crate::light::PointLight;
pub use crate::material::Material;
pub use crate::matrix::Matrix;
pub use crate::point::Point;
pub use crate::computations::Computations;
pub use crate::ray::Ray;
pub use crate::world::World;
pub use crate::transformation::Transformation;
pub use crate::vector::Vector;
