//! Geometric rules that decide how any given point in space is colored.
//!
//! A pattern owns its own transformation; a point is carried from world space
//! into the owning shape's object space, then into pattern space, before the
//! variant rule picks the color.

mod checkers;
mod gradient;
mod pattern;
mod ring;
mod stripe;

pub use checkers::Checkers;
pub use checkers::checkers_color;
pub use gradient::Gradient;
pub use gradient::gradient_color;
pub use pattern::Pattern;
pub use pattern::pattern_color;
pub use pattern::point_through;
pub use ring::Ring;
pub use ring::ring_color;
pub use ring::ring_radius;
pub use ring::round_cents;
pub use stripe::Stripe;
pub use stripe::stripe_color;
