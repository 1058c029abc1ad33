//! Particles.

use crate::types::matrix::Matrix3;
use crate::types::scalar::Scalar;
use crate::types::vector::Vector3D;
use vstd::prelude::*;

verus! {

/// A point mass: a kind label, a mass that is finite and greater than zero,
/// a position and a velocity.
#[derive(Debug)]
pub struct Particle {
    name: String,
    mass: Scalar,
    position: Vector3D,
    velocity: Vector3D,
}

impl Particle {
    /// The mass is finite and greater than zero.
    #[verifier::type_invariant]
    spec fn mass_positive(&self) -> bool {
        self.mass.is_positive()
    }

    /// The kind label, as a sequence of characters.
    pub closed spec fn spec_name(&self) -> Seq<char> {
        self.name@
    }

    /// The mass.
    pub closed spec fn spec_mass(&self) -> Scalar {
        self.mass
    }

    /// The position.
    pub closed spec fn spec_position(&self) -> Vector3D {
        self.position
    }

    /// The velocity.
    pub closed spec fn spec_velocity(&self) -> Vector3D {
        self.velocity
    }

    /// The kinetic energy of the particle, `(0.5 * mass) * |velocity|^2`.
    pub open spec fn spec_kinetic_energy(&self) -> Scalar {
        Scalar::half().mul(self.spec_mass()).mul(self.spec_velocity().norm2())
    }

    /// The kinetic tensor of the particle, `(mass * velocity) (x) velocity`:
    /// its element `(a, b)` is `(mass * velocity[a]) * velocity[b]`.
    pub open spec fn spec_kinetic_tensor(&self) -> Matrix3 {
        self.spec_velocity().scale(self.spec_mass()).tensorial(self.spec_velocity())
    }

    /// A particle of the given kind and mass, at rest at the origin, if the
    /// mass is a finite number greater than zero.
    pub fn new(name: String, mass: Scalar) -> (r: Option<Particle>)
        ensures
            r.is_some() <==> mass.is_positive(),
            r matches Some(p) ==> {
                &&& p.spec_name() == name@
                &&& p.spec_mass() == mass
                &&& p.spec_position() == Vector3D::zero()
                &&& p.spec_velocity() == Vector3D::zero()
            },
    {
        if mass.is_positive() {
            Some(Particle { name, mass, position: Vector3D::zero(), velocity: Vector3D::zero() })
        } else {
            None
        }
    }

    /// The kind label.
    pub fn name(&self) -> (r: &String)
        ensures
            r@ == self.spec_name(),
    {
        &self.name
    }

    /// The mass, a finite number greater than zero.
    #[verifier::when_used_as_spec(spec_mass)]
    pub fn mass(&self) -> (r: Scalar)
        ensures
            r == self.spec_mass(),
            r.is_positive(),
    {
        proof {
            use_type_invariant(self);
        }
        self.mass
    }

    /// The position.
    #[verifier::when_used_as_spec(spec_position)]
    pub fn position(&self) -> (r: Vector3D)
        ensures
            r == self.spec_position(),
    {
        self.position
    }

    /// The velocity.
    #[verifier::when_used_as_spec(spec_velocity)]
    pub fn velocity(&self) -> (r: Vector3D)
        ensures
            r == self.spec_velocity(),
    {
        self.velocity
    }

    /// Moves the particle to `position`; kind, mass and velocity stay.
    pub fn set_position(&mut self, position: Vector3D)
        ensures
            final(self).spec_position() == position,
            final(self).spec_name() == old(self).spec_name(),
            final(self).spec_mass() == old(self).spec_mass(),
            final(self).spec_velocity() == old(self).spec_velocity(),
    {
        proof {
            use_type_invariant(&*self);
        }
        self.position = position;
    }

    /// Gives the particle the velocity `velocity`; kind, mass and position
    /// stay.
    pub fn set_velocity(&mut self, velocity: Vector3D)
        ensures
            final(self).spec_velocity() == velocity,
            final(self).spec_name() == old(self).spec_name(),
            final(self).spec_mass() == old(self).spec_mass(),
            final(self).spec_position() == old(self).spec_position(),
    {
        proof {
            use_type_invariant(&*self);
        }
        self.velocity = velocity;
    }

    /// The kinetic energy of the particle.
    #[verifier::when_used_as_spec(spec_kinetic_energy)]
    pub fn kinetic_energy(&self) -> (r: Scalar)
        ensures
            r == self.spec_kinetic_energy(),
    {
        Scalar::half().mul(self.mass).mul(self.velocity.norm2())
    }

    /// The kinetic tensor of the particle.
    #[verifier::when_used_as_spec(spec_kinetic_tensor)]
    pub fn kinetic_tensor(&self) -> (r: Matrix3)
        ensures
            r == self.spec_kinetic_tensor(),
    {
        self.velocity.scale(self.mass).tensorial(self.velocity)
    }
}

} // verus!
