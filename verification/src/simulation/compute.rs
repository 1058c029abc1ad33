//! The observables: forces, energies, temperature, volume, virial, stress
//! and pressure.
//!
//! Each observable is a unit type that implements [`Compute`]. Its value is
//! a function of the snapshot, written out below as a specification over
//! the scalar operations; sums run in a fixed order, since the order of
//! rounding matters to the last bit. Sums over pairs follow the traversal
//! of [`crate::simulation::pairs`].

use crate::constants::k_boltzmann;
use crate::simulation::pairs::PairTerm;
use crate::types::matrix::Matrix3;
use crate::types::scalar::Scalar;
use crate::types::vector::Vector3D;
use crate::universe::particle::Particle;
use crate::universe::system::Universe;
use vstd::prelude::*;

verus! {

/// A property of a system snapshot that can be computed without changing
/// the snapshot. The result is a function of the snapshot alone.
pub trait Compute {
    /// The type of the property.
    type Output: View;

    /// Whether the property is defined for `universe`.
    spec fn spec_defined(&self, universe: &Universe) -> bool;

    /// The value of the property for `universe`.
    spec fn spec_value(&self, universe: &Universe) -> <Self::Output as View>::V;

    /// Whether the property is defined for `universe`.
    fn defined(&self, universe: &Universe) -> (b: bool)
        ensures
            b == self.spec_defined(universe),
    ;

    /// Computes the property.
    fn compute(&self, universe: &Universe) -> (out: Self::Output)
        requires
            self.spec_defined(universe),
        ensures
            out@ == self.spec_value(universe),
    ;
}

/// Computes `property` for `universe` where it is defined: the value if
/// so, nothing if not.
pub fn try_compute<C: Compute>(property: &C, universe: &Universe) -> (out: Option<C::Output>)
    ensures
        out.is_some() <==> property.spec_defined(universe),
        out matches Some(value) ==> value@ == property.spec_value(universe),
{
    if property.defined(universe) {
        Some(property.compute(universe))
    } else {
        None
    }
}

/// The first `i + 1` particles are the first `i`, followed by the particle
/// of index `i`.
pub proof fn lemma_prefix_next(particles: Seq<Particle>, i: int)
    requires
        0 <= i < particles.len(),
    ensures
        particles.take(i + 1).len() > 0,
        particles.take(i + 1).drop_last() == particles.take(i),
        particles.take(i + 1).last() == particles[i],
{
    assert(particles.take(i + 1).drop_last() =~= particles.take(i));
}

/// The first particles, as many as there are, are all of them.
pub proof fn lemma_prefix_whole(particles: Seq<Particle>)
    ensures
        particles.take(particles.len() as int) == particles,
{
    assert(particles.take(particles.len() as int) =~= particles);
}

/// The sum of the kinetic energies of `particles`, accumulated from `0.0`
/// in the order of the sequence.
pub open spec fn spec_kinetic_sum(particles: Seq<Particle>) -> Scalar
    decreases particles.len(),
{
    if particles.len() == 0 {
        Scalar::zero()
    } else {
        spec_kinetic_sum(particles.drop_last()).add(particles.last().kinetic_energy())
    }
}

/// The sum of the kinetic tensors `mass * (velocity (x) velocity)` of
/// `particles`, accumulated from the zero tensor in the order of the
/// sequence. The element `(a, b)` of a particle's tensor is
/// `(mass * velocity[a]) * velocity[b]`.
pub open spec fn spec_kinetic_tensor_sum(particles: Seq<Particle>) -> Matrix3
    decreases particles.len(),
{
    if particles.len() == 0 {
        Matrix3::zero()
    } else {
        spec_kinetic_tensor_sum(particles.drop_last()).add(particles.last().kinetic_tensor())
    }
}

impl Universe {
    /// The energy of the term `t`: that of its potential at the distance of
    /// its pair.
    pub open spec fn spec_term_energy(&self, t: PairTerm) -> Scalar {
        self.spec_pairs(t.i, t.j)[t.k].energy(self.spec_wrap_vector(t.i, t.j).norm())
    }

    /// The sum of the energies of `terms`, accumulated from `0.0` in the
    /// order of the sequence.
    pub open spec fn spec_energy_sum(&self, terms: Seq<PairTerm>) -> Scalar
        decreases terms.len(),
    {
        if terms.len() == 0 {
            Scalar::zero()
        } else {
            self.spec_energy_sum(terms.drop_last()).add(self.spec_term_energy(terms.last()))
        }
    }

    /// The potential energy: the sum of the energies of all terms of the
    /// snapshot.
    pub open spec fn spec_potential_energy(&self) -> Scalar {
        self.spec_energy_sum(self.spec_terms())
    }

    /// The kinetic energy: the sum of `0.5 * mass * |velocity|^2` over the
    /// particles, by ascending index.
    pub open spec fn spec_kinetic_energy(&self) -> Scalar {
        spec_kinetic_sum(self.spec_particles())
    }

    /// The total energy: the kinetic energy plus the potential energy.
    pub open spec fn spec_total_energy(&self) -> Scalar {
        self.spec_kinetic_energy().add(self.spec_potential_energy())
    }

    /// The number of particles as a scalar.
    pub open spec fn spec_natoms(&self) -> Scalar {
        Scalar::spec_from_count(self.spec_particles().len())
    }

    /// The instantaneous temperature of a system in three dimensions,
    /// `T = 2 K / (3 N k_B)` for the kinetic energy `K` of `N` particles,
    /// evaluated as `(((1 / k_B) * 2) * K) / (3 * N)`.
    pub open spec fn spec_temperature(&self) -> Scalar {
        Scalar::one().div(k_boltzmann()).mul(Scalar::two()).mul(self.spec_kinetic_energy()).div(
            Scalar::three().mul(self.spec_natoms()),
        )
    }

    /// The volume of the box.
    pub open spec fn spec_volume(&self) -> Scalar {
        self.spec_cell().volume()
    }

    /// The force that the term `t` exerts on the first particle of its
    /// pair: the radial force of its potential, times the unit vector along
    /// the displacement that leads from the second particle to the first.
    pub open spec fn spec_term_force(&self, t: PairTerm) -> Vector3D {
        let d = self.spec_wrap_vector(t.i, t.j);
        d.normalized().scale(self.spec_pairs(t.i, t.j)[t.k].force(d.norm()))
    }

    /// The forces on the particles once `terms` have acted, one after the
    /// other, on particles that had no force on them: each term adds its
    /// force to the first particle of its pair and subtracts the same
    /// vector from the second.
    pub open spec fn spec_forces_after(&self, terms: Seq<PairTerm>) -> Seq<Vector3D>
        decreases terms.len(),
    {
        if terms.len() == 0 {
            Seq::new(self.spec_particles().len(), |m: int| Vector3D::zero())
        } else {
            let before = self.spec_forces_after(terms.drop_last());
            let t = terms.last();
            let f = self.spec_term_force(t);
            let pushed = before.update(t.i, before[t.i].add(f));
            pushed.update(t.j, pushed[t.j].sub(f))
        }
    }

    /// The force on each particle, by index: what all terms of the snapshot
    /// leave.
    pub open spec fn spec_forces(&self) -> Seq<Vector3D> {
        self.spec_forces_after(self.spec_terms())
    }

    /// The contribution of the term `t` to the virial: twice the virial of
    /// its potential for the displacement of its pair, once for each
    /// particle of the pair.
    pub open spec fn spec_term_virial(&self, t: PairTerm) -> Matrix3 {
        self.spec_pairs(t.i, t.j)[t.k].virial(self.spec_wrap_vector(t.i, t.j)).scale(
            Scalar::two(),
        )
    }

    /// The sum of the virial contributions of `terms`, accumulated from the
    /// zero tensor in the order of the sequence.
    pub open spec fn spec_virial_sum(&self, terms: Seq<PairTerm>) -> Matrix3
        decreases terms.len(),
    {
        if terms.len() == 0 {
            Matrix3::zero()
        } else {
            self.spec_virial_sum(terms.drop_last()).add(self.spec_term_virial(terms.last()))
        }
    }

    /// The virial tensor: the sum of the contributions of all terms of the
    /// snapshot.
    pub open spec fn spec_virial(&self) -> Matrix3 {
        self.spec_virial_sum(self.spec_terms())
    }

    /// The kinetic tensor: the sum of `mass * (velocity (x) velocity)` over
    /// the particles, by ascending index.
    pub open spec fn spec_kinetic_tensor(&self) -> Matrix3 {
        spec_kinetic_tensor_sum(self.spec_particles())
    }

    /// The stress tensor `(K - W) / V` for the kinetic tensor `K`, the
    /// virial `W` and the volume `V`, evaluated as `(1 / V) * (K - W)`.
    pub open spec fn spec_stress(&self) -> Matrix3 {
        self.spec_kinetic_tensor().sub(self.spec_virial()).scale(
            Scalar::one().div(self.spec_volume()),
        )
    }

    /// The pressure `N k_B T / V - trace(W) / (3 V)` for `N` particles at
    /// the temperature `T`, the virial `W` and the volume `V`, evaluated as
    /// `(((N * k_B) * T) / V) - (trace(W) / (3 * V))`.
    pub open spec fn spec_pressure(&self) -> Scalar {
        self.spec_natoms().mul(k_boltzmann()).mul(self.spec_temperature()).div(
            self.spec_volume(),
        ).sub(self.spec_virial().trace().div(Scalar::three().mul(self.spec_volume())))
    }
}

/// The forces that act on the particles, one vector for each particle, by
/// index. They are defined where no two particles with a potential between
/// them coincide.
pub struct Forces;

impl Compute for Forces {
    type Output = Vec<Vector3D>;

    open spec fn spec_defined(&self, universe: &Universe) -> bool {
        universe.spec_pairs_apart()
    }

    fn defined(&self, universe: &Universe) -> (b: bool) {
        universe.pairs_apart()
    }

    open spec fn spec_value(&self, universe: &Universe) -> Seq<Vector3D> {
        universe.spec_forces()
    }

    fn compute(&self, universe: &Universe) -> (out: Vec<Vector3D>)
        ensures
            out@.len() == universe.spec_count(),
    {
        let n = universe.size();
        let mut res: Vec<Vector3D> = Vec::with_capacity(n);
        let mut m: usize = 0;
        while m < n
            invariant
                m <= n,
                res@ == Seq::new(m as nat, |a: int| Vector3D::zero()),
            decreases n - m,
        {
            res.push(Vector3D::zero());
            m = m + 1;
            assert(res@ =~= Seq::new(m as nat, |a: int| Vector3D::zero()));
        }
        let mut i: usize = 0;
        proof {
            universe.lemma_terms_start();
        }
        while i < n
            invariant
                n == universe.spec_count(),
                i <= n,
                res@.len() == n,
                res@ == universe.spec_forces_after(
                    universe.spec_terms_before(i as int, i + 1, 0),
                ),
            decreases n - i,
        {
            let mut j: usize = i + 1;
            while j < n
                invariant
                    n == universe.spec_count(),
                    i < j <= n,
                    res@.len() == n,
                    res@ == universe.spec_forces_after(
                        universe.spec_terms_before(i as int, j as int, 0),
                    ),
                decreases n - j,
            {
                let potentials = universe.pairs(i, j);
                let d = universe.wrap_vector(i, j);
                let mut k: usize = 0;
                while k < potentials.len()
                    invariant
                        i < j < n,
                        n == universe.spec_count(),
                        k <= potentials.len(),
                        potentials@ == universe.spec_pairs(i as int, j as int),
                        d == universe.spec_wrap_vector(i as int, j as int),
                        res@.len() == n,
                        res@ == universe.spec_forces_after(
                            universe.spec_terms_before(i as int, j as int, k as int),
                        ),
                    decreases potentials.len() - k,
                {
                    proof {
                        universe.lemma_terms_next_potential(i as int, j as int, k as int);
                    }
                    let dn = d.normalized();
                    let f = potentials[k].force(d.norm());
                    let on_first = res[i].add(dn.scale(f));
                    res.set(i, on_first);
                    let on_second = res[j].sub(dn.scale(f));
                    res.set(j, on_second);
                    k = k + 1;
                }
                proof {
                    universe.lemma_terms_next_pair(i as int, j as int);
                }
                j = j + 1;
            }
            proof {
                universe.lemma_terms_next_row(i as int);
            }
            i = i + 1;
        }
        proof {
            universe.lemma_terms_end();
        }
        res
    }
}

/// The potential energy of the system.
pub struct PotentialEnergy;

impl Compute for PotentialEnergy {
    type Output = Scalar;

    open spec fn spec_defined(&self, universe: &Universe) -> bool {
        true
    }

    fn defined(&self, universe: &Universe) -> (b: bool) {
        true
    }

    open spec fn spec_value(&self, universe: &Universe) -> Scalar {
        universe.spec_potential_energy()
    }

    fn compute(&self, universe: &Universe) -> (out: Scalar) {
        let n = universe.size();
        let mut res = Scalar::zero();
        let mut i: usize = 0;
        proof {
            universe.lemma_terms_start();
        }
        while i < n
            invariant
                n == universe.spec_count(),
                i <= n,
                res == universe.spec_energy_sum(
                    universe.spec_terms_before(i as int, i + 1, 0),
                ),
            decreases n - i,
        {
            let mut j: usize = i + 1;
            while j < n
                invariant
                    n == universe.spec_count(),
                    i < j <= n,
                    res == universe.spec_energy_sum(
                        universe.spec_terms_before(i as int, j as int, 0),
                    ),
                decreases n - j,
            {
                let potentials = universe.pairs(i, j);
                let d = universe.wrap_vector(i, j);
                let mut k: usize = 0;
                while k < potentials.len()
                    invariant
                        i < j < n,
                        n == universe.spec_count(),
                        k <= potentials.len(),
                        potentials@ == universe.spec_pairs(i as int, j as int),
                        d == universe.spec_wrap_vector(i as int, j as int),
                        res == universe.spec_energy_sum(
                            universe.spec_terms_before(i as int, j as int, k as int),
                        ),
                    decreases potentials.len() - k,
                {
                    proof {
                        universe.lemma_terms_next_potential(i as int, j as int, k as int);
                    }
                    res = res.add(potentials[k].energy(d.norm()));
                    k = k + 1;
                }
                proof {
                    universe.lemma_terms_next_pair(i as int, j as int);
                }
                j = j + 1;
            }
            proof {
                universe.lemma_terms_next_row(i as int);
            }
            i = i + 1;
        }
        proof {
            universe.lemma_terms_end();
        }
        res
    }
}

/// The kinetic energy of the system.
pub struct KineticEnergy;

impl Compute for KineticEnergy {
    type Output = Scalar;

    open spec fn spec_defined(&self, universe: &Universe) -> bool {
        true
    }

    fn defined(&self, universe: &Universe) -> (b: bool) {
        true
    }

    open spec fn spec_value(&self, universe: &Universe) -> Scalar {
        universe.spec_kinetic_energy()
    }

    fn compute(&self, universe: &Universe) -> (out: Scalar) {
        let n = universe.size();
        let mut res = Scalar::zero();
        let mut i: usize = 0;
        while i < n
            invariant
                n == universe.spec_count(),
                i <= n,
                res == spec_kinetic_sum(universe.spec_particles().take(i as int)),
            decreases n - i,
        {
            proof {
                lemma_prefix_next(universe.spec_particles(), i as int);
            }
            res = res.add(universe.particle(i).kinetic_energy());
            i = i + 1;
        }
        proof {
            lemma_prefix_whole(universe.spec_particles());
        }
        res
    }
}

/// The total energy of the system, kinetic plus potential.
pub struct TotalEnergy;

impl Compute for TotalEnergy {
    type Output = Scalar;

    open spec fn spec_defined(&self, universe: &Universe) -> bool {
        true
    }

    fn defined(&self, universe: &Universe) -> (b: bool) {
        true
    }

    open spec fn spec_value(&self, universe: &Universe) -> Scalar {
        universe.spec_total_energy()
    }

    fn compute(&self, universe: &Universe) -> (out: Scalar)
        ensures
            out == KineticEnergy.spec_value(universe).add(PotentialEnergy.spec_value(universe)),
    {
        let kinetic = KineticEnergy.compute(universe);
        let potential = PotentialEnergy.compute(universe);
        kinetic.add(potential)
    }
}

/// The instantaneous temperature of the system. It is defined for a system
/// with at least one particle.
pub struct Temperature;

impl Compute for Temperature {
    type Output = Scalar;

    open spec fn spec_defined(&self, universe: &Universe) -> bool {
        universe.spec_count() > 0
    }

    fn defined(&self, universe: &Universe) -> (b: bool) {
        universe.size() > 0
    }

    open spec fn spec_value(&self, universe: &Universe) -> Scalar {
        universe.spec_temperature()
    }

    fn compute(&self, universe: &Universe) -> (out: Scalar) {
        let kinetic = KineticEnergy.compute(universe);
        let natoms = Scalar::from_count(universe.size());
        Scalar::one().div(k_boltzmann()).mul(Scalar::two()).mul(kinetic).div(
            Scalar::three().mul(natoms),
        )
    }
}

/// The volume of the system.
pub struct Volume;

impl Compute for Volume {
    type Output = Scalar;

    open spec fn spec_defined(&self, universe: &Universe) -> bool {
        true
    }

    fn defined(&self, universe: &Universe) -> (b: bool) {
        true
    }

    open spec fn spec_value(&self, universe: &Universe) -> Scalar {
        universe.spec_volume()
    }

    fn compute(&self, universe: &Universe) -> (out: Scalar) {
        universe.cell().volume()
    }
}

/// The virial tensor of the system. It is defined where no two particles
/// with a potential between them coincide.
pub struct Virial;

impl Compute for Virial {
    type Output = Matrix3;

    open spec fn spec_defined(&self, universe: &Universe) -> bool {
        universe.spec_pairs_apart()
    }

    fn defined(&self, universe: &Universe) -> (b: bool) {
        universe.pairs_apart()
    }

    open spec fn spec_value(&self, universe: &Universe) -> Matrix3 {
        universe.spec_virial()
    }

    fn compute(&self, universe: &Universe) -> (out: Matrix3) {
        let n = universe.size();
        let mut res = Matrix3::zero();
        let mut i: usize = 0;
        proof {
            universe.lemma_terms_start();
        }
        while i < n
            invariant
                n == universe.spec_count(),
                i <= n,
                res == universe.spec_virial_sum(
                    universe.spec_terms_before(i as int, i + 1, 0),
                ),
            decreases n - i,
        {
            let mut j: usize = i + 1;
            while j < n
                invariant
                    n == universe.spec_count(),
                    i < j <= n,
                    res == universe.spec_virial_sum(
                        universe.spec_terms_before(i as int, j as int, 0),
                    ),
                decreases n - j,
            {
                let potentials = universe.pairs(i, j);
                let d = universe.wrap_vector(i, j);
                let mut k: usize = 0;
                while k < potentials.len()
                    invariant
                        i < j < n,
                        n == universe.spec_count(),
                        k <= potentials.len(),
                        potentials@ == universe.spec_pairs(i as int, j as int),
                        d == universe.spec_wrap_vector(i as int, j as int),
                        res == universe.spec_virial_sum(
                            universe.spec_terms_before(i as int, j as int, k as int),
                        ),
                    decreases potentials.len() - k,
                {
                    proof {
                        universe.lemma_terms_next_potential(i as int, j as int, k as int);
                    }
                    res = res.add(potentials[k].virial(d).scale(Scalar::two()));
                    k = k + 1;
                }
                proof {
                    universe.lemma_terms_next_pair(i as int, j as int);
                }
                j = j + 1;
            }
            proof {
                universe.lemma_terms_next_row(i as int);
            }
            i = i + 1;
        }
        proof {
            universe.lemma_terms_end();
        }
        res
    }
}

/// The stress tensor of the system. It is defined where the volume is
/// other than zero and no two particles with a potential between them
/// coincide.
pub struct Stress;

impl Compute for Stress {
    type Output = Matrix3;

    open spec fn spec_defined(&self, universe: &Universe) -> bool {
        !universe.spec_volume().is_zero() && universe.spec_pairs_apart()
    }

    fn defined(&self, universe: &Universe) -> (b: bool) {
        !universe.cell().volume().is_zero() && universe.pairs_apart()
    }

    open spec fn spec_value(&self, universe: &Universe) -> Matrix3 {
        universe.spec_stress()
    }

    fn compute(&self, universe: &Universe) -> (out: Matrix3) {
        let n = universe.size();
        let mut kinetic = Matrix3::zero();
        let mut i: usize = 0;
        while i < n
            invariant
                n == universe.spec_count(),
                i <= n,
                kinetic == spec_kinetic_tensor_sum(universe.spec_particles().take(i as int)),
            decreases n - i,
        {
            proof {
                lemma_prefix_next(universe.spec_particles(), i as int);
            }
            kinetic = kinetic.add(universe.particle(i).kinetic_tensor());
            i = i + 1;
        }
        proof {
            lemma_prefix_whole(universe.spec_particles());
        }
        let virial = Virial.compute(universe);
        let volume = Volume.compute(universe);
        kinetic.sub(virial).scale(Scalar::one().div(volume))
    }
}

/// The virial pressure of the system. It is defined for a system with at
/// least one particle, of a volume other than zero, where no two particles
/// with a potential between them coincide.
pub struct Pressure;

impl Compute for Pressure {
    type Output = Scalar;

    open spec fn spec_defined(&self, universe: &Universe) -> bool {
        universe.spec_count() > 0 && !universe.spec_volume().is_zero()
            && universe.spec_pairs_apart()
    }

    fn defined(&self, universe: &Universe) -> (b: bool) {
        universe.size() > 0 && !universe.cell().volume().is_zero() && universe.pairs_apart()
    }

    open spec fn spec_value(&self, universe: &Universe) -> Scalar {
        universe.spec_pressure()
    }

    fn compute(&self, universe: &Universe) -> (out: Scalar) {
        let virial = Virial.compute(universe).trace();
        let volume = Volume.compute(universe);
        let natoms = Scalar::from_count(universe.size());
        let temperature = Temperature.compute(universe);
        natoms.mul(k_boltzmann()).mul(temperature).div(volume).sub(
            virial.div(Scalar::three().mul(volume)),
        )
    }
}

impl Universe {
    /// The forces on the particles, by index, where they are defined.
    pub fn forces(&self) -> (r: Option<Vec<Vector3D>>)
        ensures
            r.is_some() <==> Forces.spec_defined(self),
            r matches Some(forces) ==> forces@ == self.spec_forces(),
    {
        try_compute(&Forces, self)
    }

    /// The potential energy.
    pub fn potential_energy(&self) -> (r: Scalar)
        ensures
            r == self.spec_potential_energy(),
    {
        PotentialEnergy.compute(self)
    }

    /// The kinetic energy.
    pub fn kinetic_energy(&self) -> (r: Scalar)
        ensures
            r == self.spec_kinetic_energy(),
    {
        KineticEnergy.compute(self)
    }

    /// The total energy, kinetic plus potential.
    pub fn total_energy(&self) -> (r: Scalar)
        ensures
            r == self.spec_kinetic_energy().add(self.spec_potential_energy()),
    {
        TotalEnergy.compute(self)
    }

    /// The temperature, where it is defined.
    pub fn temperature(&self) -> (r: Option<Scalar>)
        ensures
            r.is_some() <==> Temperature.spec_defined(self),
            r matches Some(t) ==> t == self.spec_temperature(),
    {
        try_compute(&Temperature, self)
    }

    /// The volume of the box.
    pub fn volume(&self) -> (r: Scalar)
        ensures
            r == self.spec_volume(),
    {
        Volume.compute(self)
    }

    /// The virial tensor, where it is defined.
    pub fn virial(&self) -> (r: Option<Matrix3>)
        ensures
            r.is_some() <==> Virial.spec_defined(self),
            r matches Some(w) ==> w == self.spec_virial(),
    {
        try_compute(&Virial, self)
    }

    /// The stress tensor, where it is defined.
    pub fn stress(&self) -> (r: Option<Matrix3>)
        ensures
            r.is_some() <==> Stress.spec_defined(self),
            r matches Some(s) ==> s == self.spec_stress(),
    {
        try_compute(&Stress, self)
    }

    /// The pressure, where it is defined.
    pub fn pressure(&self) -> (r: Option<Scalar>)
        ensures
            r.is_some() <==> Pressure.spec_defined(self),
            r matches Some(p) ==> p == self.spec_pressure(),
    {
        try_compute(&Pressure, self)
    }
}

} // verus!
