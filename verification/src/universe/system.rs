//! The system snapshot.

use crate::potentials::PairPotential;
use crate::types::scalar::Scalar;
use crate::types::vector::Vector3D;
use crate::universe::cell::UnitCell;
use crate::universe::interactions::Interactions;
use crate::universe::particle::Particle;
use vstd::prelude::*;

verus! {

/// A snapshot of a system: a periodic box, the particles in it, in a fixed
/// order, and the potentials that act between kinds of particles.
#[derive(Debug)]
pub struct Universe {
    cell: UnitCell,
    particles: Vec<Particle>,
    interactions: Interactions,
}

impl Universe {
    /// The box.
    pub closed spec fn spec_cell(&self) -> UnitCell {
        self.cell
    }

    /// The particles, by index.
    pub closed spec fn spec_particles(&self) -> Seq<Particle> {
        self.particles@
    }

    /// The registry of potentials.
    pub closed spec fn spec_interactions(&self) -> Interactions {
        self.interactions
    }

    /// The number of particles, as a mathematical integer.
    pub open spec fn spec_count(&self) -> int {
        self.spec_particles().len() as int
    }

    /// The number of particles.
    pub open spec fn spec_size(&self) -> usize {
        self.spec_particles().len() as usize
    }

    /// The potentials that act between the particles `i` and `j`: those
    /// registered for their two kinds.
    pub open spec fn spec_pairs(&self, i: int, j: int) -> Seq<PairPotential> {
        self.spec_interactions().spec_pairs(
            self.spec_particles()[i].spec_name(),
            self.spec_particles()[j].spec_name(),
        )
    }

    /// The minimum image of the displacement that leads from particle `j`
    /// to particle `i`.
    pub open spec fn spec_wrap_vector(&self, i: int, j: int) -> Vector3D {
        self.spec_cell().wrap_displacement(
            self.spec_particles()[j].position(),
            self.spec_particles()[i].position(),
        )
    }

    /// The distance between the particles `i` and `j`: the norm of the
    /// minimum image of their displacement.
    pub open spec fn spec_distance(&self, i: int, j: int) -> Scalar {
        self.spec_wrap_vector(i, j).norm()
    }

    /// Whether no two particles with a potential between them coincide:
    /// the distance of every such pair is other than zero.
    pub open spec fn spec_pairs_apart(&self) -> bool {
        forall|i: int, j: int|
            #![trigger self.spec_distance(i, j)]
            0 <= i < j < self.spec_count() && self.spec_pairs(i, j).len() > 0
                ==> !self.spec_distance(i, j).is_zero()
    }

    /// Whether `self` is the snapshot `before` with `potential` registered
    /// between the kinds `a` and `b`: the potential is the last of that
    /// pair of kinds, in whichever order the pair is looked up, and box,
    /// particles and the potentials of other pairs of kinds are those of
    /// `before`.
    pub open spec fn spec_is_registration(
        &self,
        before: &Universe,
        a: Seq<char>,
        b: Seq<char>,
        potential: PairPotential,
    ) -> bool {
        &&& self.spec_cell() == before.spec_cell()
        &&& self.spec_particles() == before.spec_particles()
        &&& forall|x: Seq<char>, y: Seq<char>|
            #![trigger self.spec_interactions().spec_pairs(x, y)]
            self.spec_interactions().spec_pairs(x, y) == (if (x == a && y == b) || (x == b && y
                == a) {
                before.spec_interactions().spec_pairs(x, y).push(potential)
            } else {
                before.spec_interactions().spec_pairs(x, y)
            })
    }

    /// Lookup is symmetric: the particles `i` and `j` have the same
    /// potentials in either order.
    pub proof fn law_pairs_symmetric(&self, i: int, j: int)
        ensures
            self.spec_pairs(i, j) == self.spec_pairs(j, i),
    {
        self.spec_interactions().lemma_pairs_symmetric(
            self.spec_particles()[i].spec_name(),
            self.spec_particles()[j].spec_name(),
        );
    }

    /// An empty system in the box `cell`.
    pub fn from_cell(cell: UnitCell) -> (r: Universe)
        ensures
            r.spec_cell() == cell,
            r.spec_particles().len() == 0,
            forall|a: Seq<char>, b: Seq<char>| #[trigger]
                r.spec_interactions().spec_pairs(a, b) == Seq::<PairPotential>::empty(),
    {
        Universe { cell, particles: Vec::new(), interactions: Interactions::new() }
    }

    /// The box.
    #[verifier::when_used_as_spec(spec_cell)]
    pub fn cell(&self) -> (r: UnitCell)
        ensures
            r == self.spec_cell(),
    {
        self.cell
    }

    /// The number of particles.
    #[verifier::when_used_as_spec(spec_size)]
    pub fn size(&self) -> (r: usize)
        ensures
            r == self.spec_size(),
            r == self.spec_particles().len(),
    {
        self.particles.len()
    }

    /// The particles, by index.
    pub fn particles(&self) -> (r: &Vec<Particle>)
        ensures
            r@ == self.spec_particles(),
    {
        &self.particles
    }

    /// The particle of index `i`.
    pub fn particle(&self, i: usize) -> (r: &Particle)
        requires
            i < self.size(),
        ensures
            *r == self.spec_particles()[i as int],
    {
        &self.particles[i]
    }

    /// Appends `particle`; it gets the index that was the number of
    /// particles. Box, potentials and the other particles stay.
    pub fn add_particle(&mut self, particle: Particle)
        ensures
            final(self).spec_particles() == old(self).spec_particles().push(particle),
            final(self).spec_cell() == old(self).spec_cell(),
            final(self).spec_interactions() == old(self).spec_interactions(),
    {
        self.particles.push(particle);
    }

    /// Moves the particle of index `i` to `position`. Everything else stays.
    pub fn set_position(&mut self, i: usize, position: Vector3D)
        requires
            i < old(self).size(),
        ensures
            final(self).spec_particles().len() == old(self).spec_particles().len(),
            final(self).spec_particles()[i as int].position() == position,
            final(self).spec_particles()[i as int].spec_name()
                == old(self).spec_particles()[i as int].spec_name(),
            final(self).spec_particles()[i as int].mass()
                == old(self).spec_particles()[i as int].mass(),
            final(self).spec_particles()[i as int].velocity()
                == old(self).spec_particles()[i as int].velocity(),
            forall|m: int|
                0 <= m < old(self).spec_particles().len() && m != i
                    ==> final(self).spec_particles()[m] == old(self).spec_particles()[m],
            final(self).spec_cell() == old(self).spec_cell(),
            final(self).spec_interactions() == old(self).spec_interactions(),
    {
        self.particles[i].set_position(position);
    }

    /// Gives the particle of index `i` the velocity `velocity`. Everything
    /// else stays.
    pub fn set_velocity(&mut self, i: usize, velocity: Vector3D)
        requires
            i < old(self).size(),
        ensures
            final(self).spec_particles().len() == old(self).spec_particles().len(),
            final(self).spec_particles()[i as int].velocity() == velocity,
            final(self).spec_particles()[i as int].spec_name()
                == old(self).spec_particles()[i as int].spec_name(),
            final(self).spec_particles()[i as int].mass()
                == old(self).spec_particles()[i as int].mass(),
            final(self).spec_particles()[i as int].position()
                == old(self).spec_particles()[i as int].position(),
            forall|m: int|
                0 <= m < old(self).spec_particles().len() && m != i
                    ==> final(self).spec_particles()[m] == old(self).spec_particles()[m],
            final(self).spec_cell() == old(self).spec_cell(),
            final(self).spec_interactions() == old(self).spec_interactions(),
    {
        self.particles[i].set_velocity(velocity);
    }

    /// Registers `potential` between the kinds `a` and `b`, in either order,
    /// after the potentials that the two kinds already have. Box, particles
    /// and the potentials of other pairs of kinds stay.
    pub fn add_pair_interaction(&mut self, a: &str, b: &str, potential: PairPotential)
        ensures
            final(self).spec_is_registration(old(self), a@, b@, potential),
    {
        self.interactions.add_pair(a.to_owned(), b.to_owned(), potential);
    }

    /// The potentials that act between the particles `i` and `j`; the order
    /// of the two indices does not matter.
    pub fn pairs(&self, i: usize, j: usize) -> (r: &[PairPotential])
        requires
            i < self.size(),
            j < self.size(),
        ensures
            r@ == self.spec_pairs(i as int, j as int),
            r@ == self.spec_pairs(j as int, i as int),
    {
        self.interactions.pairs(self.particles[i].name(), self.particles[j].name())
    }

    /// The minimum image of the displacement that leads from particle `j`
    /// to particle `i`.
    pub fn wrap_vector(&self, i: usize, j: usize) -> (r: Vector3D)
        requires
            i < self.size(),
            j < self.size(),
        ensures
            r == self.spec_wrap_vector(i as int, j as int),
    {
        self.cell.wrap_displacement(self.particles[j].position(), self.particles[i].position())
    }

    /// The distance between the particles `i` and `j`.
    pub fn distance(&self, i: usize, j: usize) -> (r: Scalar)
        requires
            i < self.size(),
            j < self.size(),
        ensures
            r == self.spec_distance(i as int, j as int),
    {
        self.wrap_vector(i, j).norm()
    }

    /// Whether no two particles with a potential between them coincide.
    pub fn pairs_apart(&self) -> (b: bool)
        ensures
            b == self.spec_pairs_apart(),
    {
        let n = self.size();
        let mut i: usize = 0;
        while i < n
            invariant
                n == self.spec_count(),
                i <= n,
                forall|a: int, b: int|
                    #![trigger self.spec_distance(a, b)]
                    0 <= a < i && a < b < n && self.spec_pairs(a, b).len() > 0
                        ==> !self.spec_distance(a, b).is_zero(),
            decreases n - i,
        {
            let mut j: usize = i + 1;
            while j < n
                invariant
                    n == self.spec_count(),
                    i < j <= n,
                    forall|a: int, b: int|
                        #![trigger self.spec_distance(a, b)]
                        0 <= a < i && a < b < n && self.spec_pairs(a, b).len() > 0
                            ==> !self.spec_distance(a, b).is_zero(),
                    forall|b: int|
                        #![trigger self.spec_distance(i as int, b)]
                        i < b < j && self.spec_pairs(i as int, b).len() > 0
                            ==> !self.spec_distance(i as int, b).is_zero(),
                decreases n - j,
            {
                if self.pairs(i, j).len() > 0 && self.distance(i, j).is_zero() {
                    return false;
                }
                j = j + 1;
            }
            i = i + 1;
        }
        true
    }
}

} // verus!
