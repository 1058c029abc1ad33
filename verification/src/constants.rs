//! Physical constants in the internal units: unified atomic mass units,
//! Angstroms and femtoseconds.

use crate::types::scalar::Scalar;
use vstd::prelude::*;

verus! {

/// Bit pattern of the Boltzmann constant, `8.314462841615223e-7` in
/// internal units of energy per kelvin.
pub const K_BOLTZMANN_BITS: u64 = 0x3EAB_E611_B6F0_E8C7;

/// The Boltzmann constant as a scalar.
pub open spec fn spec_k_boltzmann() -> Scalar {
    Scalar { bits: K_BOLTZMANN_BITS }
}

/// The Boltzmann constant.
#[verifier::when_used_as_spec(spec_k_boltzmann)]
pub fn k_boltzmann() -> (r: Scalar)
    ensures
        r == spec_k_boltzmann(),
{
    Scalar { bits: K_BOLTZMANN_BITS }
}

} // verus!
