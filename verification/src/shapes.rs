//! The shapes a scene is made of: primitives with their own surfaces, and
//! the groups and set combinations that compose them.

pub mod cone;
pub mod csg;
pub mod cube;
pub mod cylinder;
pub mod group;
pub mod plane;
pub mod shape;
pub mod sphere;
pub mod triangle;

pub use cone::Cone;
pub use csg::CSG;
pub use csg::CsgOperation;
pub use cube::Cube;
pub use cylinder::Cylinder;
pub use group::Group;
pub use plane::Plane;
pub use shape::Shape;
pub use sphere::Sphere;
pub use triangle::Triangle;
