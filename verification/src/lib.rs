//! Group simulation core for a boids-style crowd: identity scheme, goal queue,
//! formation layout and selection rules, generic over the coordinate type.

pub mod boids;
pub mod container;
pub mod formations;
pub mod ops;
pub mod player;
pub mod traits;
pub mod units;
pub mod world;
