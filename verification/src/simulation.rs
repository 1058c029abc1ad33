//! Observables of a system snapshot.

pub mod compute;
pub mod laws;
pub mod pairs;

pub use compute::try_compute;
pub use compute::Compute;
pub use compute::Forces;
pub use compute::KineticEnergy;
pub use compute::PotentialEnergy;
pub use compute::Pressure;
pub use compute::Stress;
pub use compute::Temperature;
pub use compute::TotalEnergy;
pub use compute::Virial;
pub use compute::Volume;
pub use pairs::PairTerm;
