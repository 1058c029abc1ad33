//! Pair interaction laws.

use crate::types::matrix::Matrix3;
use crate::types::scalar::Scalar;
use crate::types::vector::Vector3D;
use vstd::prelude::*;

verus! {

/// An interaction law between two particles, a function of their distance
/// `r`.
///
/// `force(r)` is the radial force `-dE/dr` of the law's energy `E`. A pair
/// is described by the displacement `d` that leads from its second particle
/// to its first, and the force on the first particle is `force(|d|)` times
/// the unit vector along `d`.
#[derive(Clone, Copy, Debug)]
pub enum PairPotential {
    /// No interaction: energy and force are `0.0` at every distance.
    Null,
    /// A spring of constant `k` at rest at the distance `x0`:
    /// `E = 0.5 k (r - x0)^2`.
    Harmonic { k: Scalar, x0: Scalar },
    /// The 12-6 law of depth `epsilon` and diameter `sigma`:
    /// `E = 4 epsilon ((sigma / r)^12 - (sigma / r)^6)`.
    LennardJones { sigma: Scalar, epsilon: Scalar },
}

/// `(sigma / r)^6`, computed as `q2 = q * q`, then `(q2 * q2) * q2`, for
/// `q = sigma / r`.
pub open spec fn spec_sixth_power_ratio(sigma: Scalar, r: Scalar) -> Scalar {
    let q = sigma.div(r);
    let q2 = q.mul(q);
    q2.mul(q2).mul(q2)
}

/// `(sigma / r)^6` by three multiplications.
#[verifier::when_used_as_spec(spec_sixth_power_ratio)]
pub fn sixth_power_ratio(sigma: Scalar, r: Scalar) -> (s6: Scalar)
    ensures
        s6 == spec_sixth_power_ratio(sigma, r),
{
    let q = sigma.div(r);
    let q2 = q.mul(q);
    q2.mul(q2).mul(q2)
}

impl PairPotential {
    /// The energy of a pair at the distance `r`:
    /// nothing for `Null`; `((0.5 * k) * dr) * dr` with `dr = r - x0` for
    /// `Harmonic`; `(4 * epsilon) * (s6 * s6 - s6)` with `s6 = (sigma / r)^6`
    /// for `LennardJones`.
    pub open spec fn spec_energy(self, r: Scalar) -> Scalar {
        match self {
            PairPotential::Null => Scalar::zero(),
            PairPotential::Harmonic { k, x0 } => {
                let dr = r.sub(x0);
                Scalar::half().mul(k).mul(dr).mul(dr)
            },
            PairPotential::LennardJones { sigma, epsilon } => {
                let s6 = sixth_power_ratio(sigma, r);
                Scalar::four().mul(epsilon).mul(s6.mul(s6).sub(s6))
            },
        }
    }

    /// The radial force of a pair at the distance `r`:
    /// nothing for `Null`; `k * (x0 - r)` for `Harmonic`;
    /// `((24 * epsilon) * ((2 * s6) * s6 - s6)) / r` with
    /// `s6 = (sigma / r)^6` for `LennardJones`.
    pub open spec fn spec_force(self, r: Scalar) -> Scalar {
        match self {
            PairPotential::Null => Scalar::zero(),
            PairPotential::Harmonic { k, x0 } => k.mul(x0.sub(r)),
            PairPotential::LennardJones { sigma, epsilon } => {
                let s6 = sixth_power_ratio(sigma, r);
                Scalar::twenty_four().mul(epsilon).mul(Scalar::two().mul(s6).mul(s6).sub(s6)).div(
                    r,
                )
            },
        }
    }

    /// The contribution of a pair with displacement `d` to the virial
    /// tensor: the outer product of the force vector,
    /// `force(|d|) * d / |d|`, with `d`.
    pub open spec fn spec_virial(self, d: Vector3D) -> Matrix3 {
        d.normalized().scale(self.spec_force(d.norm())).tensorial(d)
    }

    /// The energy of a pair at the distance `r`.
    #[verifier::when_used_as_spec(spec_energy)]
    pub fn energy(self, r: Scalar) -> (e: Scalar)
        ensures
            e == self.spec_energy(r),
    {
        match self {
            PairPotential::Null => Scalar::zero(),
            PairPotential::Harmonic { k, x0 } => {
                let dr = r.sub(x0);
                Scalar::half().mul(k).mul(dr).mul(dr)
            },
            PairPotential::LennardJones { sigma, epsilon } => {
                let s6 = sixth_power_ratio(sigma, r);
                Scalar::four().mul(epsilon).mul(s6.mul(s6).sub(s6))
            },
        }
    }

    /// The radial force of a pair at the distance `r`.
    #[verifier::when_used_as_spec(spec_force)]
    pub fn force(self, r: Scalar) -> (f: Scalar)
        ensures
            f == self.spec_force(r),
    {
        match self {
            PairPotential::Null => Scalar::zero(),
            PairPotential::Harmonic { k, x0 } => k.mul(x0.sub(r)),
            PairPotential::LennardJones { sigma, epsilon } => {
                let s6 = sixth_power_ratio(sigma, r);
                Scalar::twenty_four().mul(epsilon).mul(Scalar::two().mul(s6).mul(s6).sub(s6)).div(
                    r,
                )
            },
        }
    }

    /// The contribution of a pair with displacement `d` to the virial tensor.
    #[verifier::when_used_as_spec(spec_virial)]
    pub fn virial(self, d: Vector3D) -> (w: Matrix3)
        ensures
            w == self.spec_virial(d),
    {
        let fact = self.force(d.norm());
        let force = d.normalized().scale(fact);
        force.tensorial(d)
    }
}

} // verus!
