//! The system snapshot and its parts.

pub mod cell;
pub mod interactions;
pub mod particle;
pub mod system;

pub use cell::UnitCell;
pub use interactions::Interactions;
pub use particle::Particle;
pub use system::Universe;
