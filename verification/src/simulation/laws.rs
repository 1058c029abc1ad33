//! Laws that relate the observables to each other and to the snapshot.

use crate::potentials::PairPotential;
use crate::simulation::compute::Compute;
use crate::simulation::compute::KineticEnergy;
use crate::simulation::compute::PotentialEnergy;
use crate::simulation::compute::Pressure;
use crate::simulation::compute::Temperature;
use crate::simulation::compute::TotalEnergy;
use crate::simulation::pairs::PairTerm;
use crate::types::vector::Vector3D;
use crate::universe::system::Universe;
use vstd::prelude::*;

verus! {

/// Evaluation is repeatable: two results of one property for one snapshot
/// are the same value.
pub proof fn law_repeatable<C: Compute>(
    property: &C,
    universe: &Universe,
    first: C::Output,
    second: C::Output,
)
    requires
        first@ == property.spec_value(universe),
        second@ == property.spec_value(universe),
    ensures
        first@ == second@,
{
}

/// The total energy is the kinetic energy plus the potential energy, each
/// as its own evaluator gives it.
pub proof fn law_total_energy(universe: &Universe)
    ensures
        TotalEnergy.spec_value(universe) == KineticEnergy.spec_value(universe).add(
            PotentialEnergy.spec_value(universe),
        ),
{
}

/// A system without particles has neither a temperature nor a pressure:
/// neither property is defined for it, so that neither can be computed.
pub proof fn law_no_particles(universe: &Universe)
    requires
        universe.spec_count() == 0,
    ensures
        !Temperature.spec_defined(universe),
        !Pressure.spec_defined(universe),
{
}

impl Universe {
    /// The terms of a row: each is a term of the pair `(i, j)` for some
    /// `i < j < end`, they ascend, and none is missing.
    proof fn lemma_row_terms(&self, i: int, end: int)
        ensures
            forall|x: int|
                0 <= x < self.spec_row_terms(i, end).len() ==> {
                    let t = #[trigger] self.spec_row_terms(i, end)[x];
                    t.i == i && i < t.j < end && 0 <= t.k < self.spec_pairs(i, t.j).len()
                },
            forall|x: int, y: int|
                #![trigger self.spec_row_terms(i, end)[x], self.spec_row_terms(i, end)[y]]
                0 <= x < y < self.spec_row_terms(i, end).len() ==> self.spec_row_terms(
                    i,
                    end,
                )[x].precedes(self.spec_row_terms(i, end)[y]),
            forall|t: PairTerm|
                t.i == i && i < t.j < end && 0 <= t.k < self.spec_pairs(i, t.j).len()
                    ==> #[trigger] self.spec_row_terms(i, end).contains(t),
        decreases end - i,
    {
        if end > i + 1 {
            self.lemma_row_terms(i, end - 1);
            let head = self.spec_row_terms(i, end - 1);
            let tail = self.spec_pair_terms(i, end - 1);
            let row = self.spec_row_terms(i, end);
            assert(row == head + tail);
            assert forall|t: PairTerm|
                t.i == i && i < t.j < end && 0 <= t.k < self.spec_pairs(i, t.j).len()
                    implies #[trigger] row.contains(t) by {
                if t.j < end - 1 {
                    assert(head.contains(t));
                    let x = choose|x: int| 0 <= x < head.len() && head[x] == t;
                    assert(row[x] == t);
                } else {
                    assert(tail[t.k] == t);
                    assert(row[head.len() + t.k] == t);
                }
            }
        }
    }

    /// The terms below a row: each is a term of the snapshot whose first
    /// particle has an index below `end`, they ascend, and none is missing.
    proof fn lemma_terms_below(&self, end: int)
        requires
            end <= self.spec_count(),
        ensures
            forall|x: int|
                0 <= x < self.spec_terms_below(end).len() ==> {
                    let t = #[trigger] self.spec_terms_below(end)[x];
                    self.spec_is_term(t) && t.i < end
                },
            forall|x: int, y: int|
                #![trigger self.spec_terms_below(end)[x], self.spec_terms_below(end)[y]]
                0 <= x < y < self.spec_terms_below(end).len() ==> self.spec_terms_below(
                    end,
                )[x].precedes(self.spec_terms_below(end)[y]),
            forall|t: PairTerm|
                self.spec_is_term(t) && t.i < end ==> #[trigger] self.spec_terms_below(
                    end,
                ).contains(t),
        decreases end,
    {
        if end > 0 {
            self.lemma_terms_below(end - 1);
            self.lemma_row_terms(end - 1, self.spec_count());
            let head = self.spec_terms_below(end - 1);
            let tail = self.spec_row_terms(end - 1, self.spec_count());
            let all = self.spec_terms_below(end);
            assert(all == head + tail);
            assert forall|t: PairTerm| self.spec_is_term(t) && t.i < end implies all.contains(
                t,
            ) by {
                if t.i < end - 1 {
                    assert(head.contains(t));
                    let x = choose|x: int| 0 <= x < head.len() && head[x] == t;
                    assert(all[x] == t);
                } else {
                    assert(tail.contains(t));
                    let x = choose|x: int| 0 <= x < tail.len() && tail[x] == t;
                    assert(all[head.len() + x] == t);
                }
            }
        }
    }

    /// Every unordered pair of particles is visited once, with each of its
    /// potentials, and nothing else is: the terms of the traversal are terms
    /// of the snapshot, every term of the snapshot is among them, and they
    /// strictly ascend in the order of `(i, j, k)`, so that none occurs
    /// twice.
    pub proof fn law_terms(&self)
        ensures
            forall|x: int|
                0 <= x < self.spec_terms().len() ==> self.spec_is_term(
                    #[trigger] self.spec_terms()[x],
                ),
            forall|t: PairTerm| self.spec_is_term(t) ==> #[trigger] self.spec_terms().contains(t),
            forall|x: int, y: int|
                #![trigger self.spec_terms()[x], self.spec_terms()[y]]
                0 <= x < y < self.spec_terms().len() ==> self.spec_terms()[x].precedes(
                    self.spec_terms()[y],
                ),
    {
        self.lemma_terms_below(self.spec_count());
    }

    /// Whatever terms of the snapshot have acted, there is one force for
    /// each particle.
    pub proof fn lemma_forces_len(&self, terms: Seq<PairTerm>)
        requires
            forall|x: int| 0 <= x < terms.len() ==> self.spec_is_term(#[trigger] terms[x]),
        ensures
            self.spec_forces_after(terms).len() == self.spec_count(),
        decreases terms.len(),
    {
        if terms.len() > 0 {
            let rest = terms.drop_last();
            assert forall|x: int| 0 <= x < rest.len() implies self.spec_is_term(
                #[trigger] rest[x],
            ) by {
                assert(rest[x] == terms[x]);
            }
            self.lemma_forces_len(rest);
            assert(self.spec_is_term(terms[terms.len() - 1]));
        }
    }

    /// There is one force for each particle.
    pub proof fn law_forces_count(&self)
        ensures
            self.spec_forces().len() == self.spec_count(),
    {
        self.law_terms();
        self.lemma_forces_len(self.spec_terms());
    }

    /// Action and reaction: a term changes the forces on the two particles
    /// of its pair and on no other; it adds a vector to the force on the
    /// first and subtracts the same vector from the force on the second,
    /// which is to add the opposite vector.
    pub proof fn law_equal_and_opposite(&self, terms: Seq<PairTerm>, t: PairTerm)
        requires
            forall|x: int| 0 <= x < terms.len() ==> self.spec_is_term(#[trigger] terms[x]),
            self.spec_is_term(t),
        ensures
            ({
                let before = self.spec_forces_after(terms);
                let after = self.spec_forces_after(terms.push(t));
                let f = self.spec_term_force(t);
                &&& before.len() == self.spec_count()
                &&& after.len() == self.spec_count()
                &&& after[t.i] == before[t.i].add(f)
                &&& after[t.j] == before[t.j].sub(f)
                &&& after[t.j] == before[t.j].add(f.neg())
                &&& forall|m: int|
                    0 <= m < self.spec_count() && m != t.i && m != t.j ==> after[m] == before[m]
            }),
    {
        self.lemma_forces_len(terms);
        assert(terms.push(t).drop_last() =~= terms);
    }

    /// The force that `terms` leave on the particle `m` alone: from no
    /// force, each term whose pair has `m` as its first particle adds its
    /// force, each term whose pair has `m` as its second particle subtracts
    /// its force, and the other terms change nothing.
    pub open spec fn spec_force_on(&self, m: int, terms: Seq<PairTerm>) -> Vector3D
        decreases terms.len(),
    {
        if terms.len() == 0 {
            Vector3D::zero()
        } else {
            let before = self.spec_force_on(m, terms.drop_last());
            let t = terms.last();
            if t.i == m {
                before.add(self.spec_term_force(t))
            } else if t.j == m {
                before.sub(self.spec_term_force(t))
            } else {
                before
            }
        }
    }

    /// The force on a particle is made of the terms of its own pairs, in
    /// the order of the traversal.
    pub proof fn lemma_force_on(&self, m: int, terms: Seq<PairTerm>)
        requires
            0 <= m < self.spec_count(),
            forall|x: int| 0 <= x < terms.len() ==> self.spec_is_term(#[trigger] terms[x]),
        ensures
            self.spec_forces_after(terms)[m] == self.spec_force_on(m, terms),
        decreases terms.len(),
    {
        if terms.len() > 0 {
            let rest = terms.drop_last();
            assert forall|x: int| 0 <= x < rest.len() implies self.spec_is_term(
                #[trigger] rest[x],
            ) by {
                assert(rest[x] == terms[x]);
            }
            self.lemma_force_on(m, rest);
            self.lemma_forces_len(rest);
            assert(self.spec_is_term(terms[terms.len() - 1]));
        }
    }

    /// Every force of a pair acts once on each of its two particles, with
    /// opposite signs: the force on the particle `m` is what the terms of
    /// the pairs of `m` add, where `m` is the first particle, and subtract,
    /// where it is the second.
    pub proof fn law_force_on_particle(&self, m: int)
        requires
            0 <= m < self.spec_count(),
        ensures
            self.spec_forces()[m] == self.spec_force_on(m, self.spec_terms()),
    {
        self.law_terms();
        self.lemma_force_on(m, self.spec_terms());
    }

    /// Snapshots whose pairs of particles have the same potentials visit
    /// the same terms, row by row.
    proof fn lemma_same_row_terms(&self, other: &Universe, i: int, end: int)
        requires
            forall|a: int, b: int| #[trigger] self.spec_pairs(a, b) == other.spec_pairs(a, b),
        ensures
            self.spec_row_terms(i, end) == other.spec_row_terms(i, end),
        decreases end - i,
    {
        if end > i + 1 {
            self.lemma_same_row_terms(other, i, end - 1);
            assert(self.spec_pair_terms(i, end - 1) =~= other.spec_pair_terms(i, end - 1));
        }
    }

    /// Snapshots with as many particles whose pairs of particles have the
    /// same potentials visit the same terms.
    proof fn lemma_same_terms_below(&self, other: &Universe, end: int)
        requires
            self.spec_count() == other.spec_count(),
            forall|a: int, b: int| #[trigger] self.spec_pairs(a, b) == other.spec_pairs(a, b),
        ensures
            self.spec_terms_below(end) == other.spec_terms_below(end),
        decreases end,
    {
        if end > 0 {
            self.lemma_same_terms_below(other, end - 1);
            self.lemma_same_row_terms(other, end - 1, self.spec_count());
        }
    }

    /// Snapshots that agree on box, particles and the potentials of every
    /// pair of particles give the same sums over any sequence of terms.
    proof fn lemma_same_sums(&self, other: &Universe, terms: Seq<PairTerm>)
        requires
            self.spec_cell() == other.spec_cell(),
            self.spec_particles() == other.spec_particles(),
            forall|a: int, b: int| #[trigger] self.spec_pairs(a, b) == other.spec_pairs(a, b),
        ensures
            self.spec_energy_sum(terms) == other.spec_energy_sum(terms),
            self.spec_forces_after(terms) == other.spec_forces_after(terms),
            self.spec_virial_sum(terms) == other.spec_virial_sum(terms),
        decreases terms.len(),
    {
        if terms.len() > 0 {
            self.lemma_same_sums(other, terms.drop_last());
            let t = terms.last();
            assert(self.spec_pairs(t.i, t.j) == other.spec_pairs(t.i, t.j));
        }
    }
}

/// The order of the two kinds in a lookup does not matter to the
/// observables: a snapshot whose registry answers every lookup `(a, b)` as
/// the registry of another answers `(b, a)`, with the same box and
/// particles, has the same potential energy, forces, virial and stress.
pub proof fn law_lookup_order(first: &Universe, second: &Universe)
    requires
        first.spec_cell() == second.spec_cell(),
        first.spec_particles() == second.spec_particles(),
        forall|a: Seq<char>, b: Seq<char>| #[trigger]
            first.spec_interactions().spec_pairs(a, b) == second.spec_interactions().spec_pairs(
                b,
                a,
            ),
    ensures
        first.spec_potential_energy() == second.spec_potential_energy(),
        first.spec_forces() == second.spec_forces(),
        first.spec_virial() == second.spec_virial(),
        first.spec_stress() == second.spec_stress(),
{
    assert forall|i: int, j: int| #[trigger]
        first.spec_pairs(i, j) == second.spec_pairs(i, j) by {
        let a = first.spec_particles()[i].spec_name();
        let b = first.spec_particles()[j].spec_name();
        second.spec_interactions().lemma_pairs_symmetric(a, b);
        assert(first.spec_interactions().spec_pairs(a, b) == second.spec_interactions().spec_pairs(
            b,
            a,
        ));
    }
    first.lemma_same_terms_below(second, first.spec_count());
    first.lemma_same_sums(second, first.spec_terms());
}

/// The order of the two kinds in a registration does not matter to the
/// observables: registering a potential between the kinds `a` and `b`, or
/// between `b` and `a`, in the same snapshot gives snapshots with the same
/// potential energy, forces, virial and stress.
pub proof fn law_registration_order(
    before: &Universe,
    direct: &Universe,
    swapped: &Universe,
    a: Seq<char>,
    b: Seq<char>,
    potential: PairPotential,
)
    requires
        direct.spec_is_registration(before, a, b, potential),
        swapped.spec_is_registration(before, b, a, potential),
    ensures
        direct.spec_potential_energy() == swapped.spec_potential_energy(),
        direct.spec_forces() == swapped.spec_forces(),
        direct.spec_virial() == swapped.spec_virial(),
        direct.spec_stress() == swapped.spec_stress(),
{
    assert forall|x: Seq<char>, y: Seq<char>| #[trigger]
        direct.spec_interactions().spec_pairs(x, y) == swapped.spec_interactions().spec_pairs(
            y,
            x,
        ) by {
        swapped.spec_interactions().lemma_pairs_symmetric(x, y);
        assert(direct.spec_interactions().spec_pairs(x, y) == swapped.spec_interactions().spec_pairs(
            x,
            y,
        ));
    }
    law_lookup_order(direct, swapped);
}

} // verus!
