//! Instantaneous observables of a many-particle system under periodic
//! boundary conditions.
//!
//! A [`Universe`] is a snapshot of a system: a periodic box, particles with
//! mass, position and velocity, and pair potentials registered by kinds of
//! particles. The observables of [`simulation`] read a snapshot and return
//! forces, energies, temperature, volume, virial, stress or pressure; none
//! changes the snapshot.
//!
//! All quantities are in one system of units, which the caller chooses;
//! the Boltzmann constant of [`constants`] is in unified atomic mass units,
//! Angstroms and femtoseconds. Numbers are binary64 values held by their
//! bit patterns, see [`types::scalar`].
//!
//! Conventions: the displacement of a pair of particles `(i, j)` leads from
//! `j` to `i`; the radial force of a potential is `-dE/dr`, so that a
//! positive value pushes the two particles apart; the force on `i` is the
//! radial force times the unit vector along the displacement, the force on
//! `j` its opposite.

pub mod constants;
pub mod potentials;
pub mod simulation;
pub mod types;
pub mod universe;

pub use potentials::PairPotential;
pub use simulation::try_compute;
pub use simulation::Compute;
pub use simulation::Forces;
pub use simulation::KineticEnergy;
pub use simulation::PotentialEnergy;
pub use simulation::Pressure;
pub use simulation::Stress;
pub use simulation::Temperature;
pub use simulation::TotalEnergy;
pub use simulation::Virial;
pub use simulation::Volume;
pub use types::Matrix3;
pub use types::Scalar;
pub use types::Vector3D;
pub use universe::Interactions;
pub use universe::Particle;
pub use universe::UnitCell;
pub use universe::Universe;
