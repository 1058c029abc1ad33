//! The observables on a two-particle system with a harmonic bond, and on a
//! few other small systems.

use cymbalum::try_compute;
use cymbalum::Compute;
use cymbalum::Forces;
use cymbalum::KineticEnergy;
use cymbalum::Matrix3;
use cymbalum::PairPotential;
use cymbalum::Particle;
use cymbalum::PotentialEnergy;
use cymbalum::Pressure;
use cymbalum::Scalar;
use cymbalum::Stress;
use cymbalum::Temperature;
use cymbalum::TotalEnergy;
use cymbalum::UnitCell;
use cymbalum::Universe;
use cymbalum::Vector3D;
use cymbalum::Virial;
use cymbalum::Volume;

const EPS: f64 = 1e-8;

/// Mass of a fluorine atom, in unified atomic mass units.
const MASS_F: f64 = 18.9984032;

/// One kJ/mol in internal units of energy.
const KJ_PER_MOL: f64 = 1e3 / 6.02214179e23 * 1e-10 / 1.660538782e-27;

/// One bar in internal units of pressure.
const BAR: f64 = 1e-35 / 1.660538782e-27;

fn s(x: f64) -> Scalar {
    Scalar::from_bits(x.to_bits())
}

fn f(x: Scalar) -> f64 {
    f64::from_bits(x.to_bits())
}

fn vector(x: f64, y: f64, z: f64) -> Vector3D {
    Vector3D::new(s(x), s(y), s(z))
}

fn components(v: Vector3D) -> [f64; 3] {
    [f(v.x), f(v.y), f(v.z)]
}

fn elements(m: Matrix3) -> [[f64; 3]; 3] {
    [
        [f(m.xx), f(m.xy), f(m.xz)],
        [f(m.yx), f(m.yy), f(m.yz)],
        [f(m.zx), f(m.zy), f(m.zz)],
    ]
}

fn harmonic(k: f64, x0: f64) -> PairPotential {
    PairPotential::Harmonic { k: s(k), x0: s(x0) }
}

fn particle(name: &str, mass: f64, position: [f64; 3], velocity: [f64; 3]) -> Particle {
    let mut p = Particle::new(name.to_string(), s(mass)).unwrap();
    p.set_position(vector(position[0], position[1], position[2]));
    p.set_velocity(vector(velocity[0], velocity[1], velocity[2]));
    p
}

/// Two fluorine atoms 1.3 apart in a cube of edge 10, bound by a spring of
/// rest length 1.2, with opposite velocities that amount to 300 K.
fn testing_universe() -> Universe {
    let mut universe = Universe::from_cell(UnitCell::cubic(s(10.0)).unwrap());

    universe.add_particle(Particle::new("F".to_string(), s(MASS_F)).unwrap());
    universe.set_position(0, vector(0.0, 0.0, 0.0));

    universe.add_particle(Particle::new("F".to_string(), s(MASS_F)).unwrap());
    universe.set_position(1, vector(1.3, 0.0, 0.0));

    universe.set_velocity(0, vector(0.005136886984185769, 0.003, 0.002));
    universe.set_velocity(1, vector(-0.005136886984185769, -0.003, -0.002));

    universe.add_pair_interaction("F", "F", harmonic(300.0 * KJ_PER_MOL, 1.2));
    universe
}

/// Three atoms of two kinds on a bent line, with a spring between unlike
/// atoms and a 12-6 law between like atoms.
fn water_like(first: &str, second: &str) -> Universe {
    let mut universe = Universe::from_cell(UnitCell::ortho(s(8.0), s(9.0), s(10.0)).unwrap());
    universe.add_particle(particle("O", 15.999, [0.1, 0.2, 0.3], [0.001, -0.002, 0.0005]));
    universe.add_particle(particle("H", 1.008, [1.0, 0.3, 0.2], [-0.004, 0.003, 0.001]));
    universe.add_particle(particle("H", 1.008, [-0.4, 0.9, 0.5], [0.002, 0.001, -0.003]));
    universe.add_pair_interaction(first, second, harmonic(0.05, 0.96));
    universe.add_pair_interaction(
        "H",
        "H",
        PairPotential::LennardJones { sigma: s(1.2), epsilon: s(0.0004) },
    );
    universe
}

#[test]
fn forces() {
    let universe = &testing_universe();
    let res = Forces.compute(universe);

    let mut forces_tot = [0.0, 0.0, 0.0];
    forces_tot[0] += f(res[0].x) + f(res[1].x);
    forces_tot[0] += f(res[0].y) + f(res[1].y);
    forces_tot[0] += f(res[0].z) + f(res[1].z);

    assert_eq!(forces_tot, [0.0, 0.0, 0.0]);

    assert!((f(res[0].x) - 3e-3).abs() < EPS);
    assert!((f(res[0].y) - 0.0).abs() < EPS);
    assert!((f(res[0].y) - 0.0).abs() < EPS);

    assert!((f(res[1].x) - -3e-3).abs() < EPS);
    assert!((f(res[1].y) - 0.0).abs() < EPS);
    assert!((f(res[1].y) - 0.0).abs() < EPS);
}

#[test]
fn energy() {
    let universe = &testing_universe();
    let kinetic = f(KineticEnergy.compute(universe));
    let potential = f(PotentialEnergy.compute(universe));
    let total = f(TotalEnergy.compute(universe));

    assert_eq!(kinetic + potential, total);
    assert_eq!(kinetic, 0.0007483016557453699);
    assert!((potential - 1.5e-4).abs() < EPS);

    assert_eq!(kinetic, f(universe.kinetic_energy()));
    assert_eq!(potential, f(universe.potential_energy()));
    assert_eq!(total, f(universe.total_energy()));
}

#[test]
fn temperature() {
    let universe = &testing_universe();
    let t = f(Temperature.compute(universe));
    assert!((t - 300.0).abs() < 1e-9);
    assert_eq!(t, f(universe.temperature().unwrap()));
}

#[test]
fn volume() {
    let universe = &testing_universe();
    let v = f(Volume.compute(universe));
    assert_eq!(v, 1000.0);
    assert_eq!(v, f(universe.volume()));
}

#[test]
fn virial() {
    let universe = &testing_universe();
    let virial = elements(Virial.compute(universe));

    let mut res = [[0.0; 3]; 3];
    res[0][0] = -0.007800000005461644;

    assert_eq!(virial, res);
    assert_eq!(virial, elements(universe.virial().unwrap()));
}

#[test]
fn stress() {
    let universe = &testing_universe();
    let stress = Stress.compute(universe);
    let p = f(Pressure.compute(universe));

    let trace = (f(stress.get(0, 0)) + f(stress.get(1, 1)) + f(stress.get(2, 2))) / 3.0;
    assert!((trace - p).abs() < 1e-9);
    assert_eq!(elements(stress), elements(universe.stress().unwrap()));
}

#[test]
fn pressure() {
    let universe = &testing_universe();
    let p = f(Pressure.compute(universe));
    assert!((p - 514.5790116223092 * BAR).abs() < 1e-9);
    assert_eq!(p, f(universe.pressure().unwrap()));
}

#[test]
fn pressure_in_bar_is_exact() {
    let universe = testing_universe();
    let p = f(Pressure.compute(&universe));
    assert_eq!(p, 3.0988677723174613e-06);
    assert_eq!(p / BAR, 514.5790116223092);
}

#[test]
fn bond_pulls_both_atoms_together() {
    let universe = testing_universe();
    let forces = Forces.compute(&universe);
    assert_eq!(forces.len(), 2);
    let on_first = components(forces[0]);
    let on_second = components(forces[1]);
    // The spring is stretched: the atom at the origin is pulled towards +x.
    assert_eq!(on_first[0], 0.030000000021006296 * (1.3 - 1.2));
    assert!(on_first[0] > 0.0);
    assert_eq!(on_second[0], -on_first[0]);
    assert_eq!(on_first[1], 0.0);
    assert_eq!(on_first[2], 0.0);
    assert_eq!(on_second[1], 0.0);
    assert_eq!(on_second[2], 0.0);
}

#[test]
fn potential_energy_of_the_bond_is_exact() {
    let universe = testing_universe();
    let k = 300.0 * KJ_PER_MOL;
    let dr = 1.3 - 1.2;
    assert_eq!(f(PotentialEnergy.compute(&universe)), 0.5 * k * dr * dr);
}

#[test]
fn temperature_follows_equipartition() {
    let universe = testing_universe();
    let kinetic = f(KineticEnergy.compute(&universe));
    let k_boltzmann = f(cymbalum::constants::k_boltzmann());
    assert_eq!(k_boltzmann, 8.314462841615223e-07);
    let expected = 1.0 / k_boltzmann * 2.0 * kinetic / (3.0 * 2.0);
    assert_eq!(f(Temperature.compute(&universe)), expected);
    assert_eq!(expected, 299.99999999999994);
}

#[test]
fn stress_is_kinetic_tensor_minus_virial_over_volume() {
    let universe = testing_universe();
    let stress = elements(Stress.compute(&universe));
    let virial = elements(Virial.compute(&universe));
    let velocities = [[0.005136886984185769, 0.003, 0.002], [-0.005136886984185769, -0.003, -0.002]];
    for a in 0..3 {
        for b in 0..3 {
            let mut kinetic = 0.0;
            for v in velocities.iter() {
                kinetic += MASS_F * v[a] * v[b];
            }
            assert_eq!(stress[a][b], 1.0 / 1000.0 * (kinetic - virial[a][b]));
        }
    }
}

#[test]
fn trace_of_stress_is_three_times_pressure() {
    for universe in [testing_universe(), water_like("O", "H")] {
        let stress = Stress.compute(&universe);
        let p = f(Pressure.compute(&universe));
        let third = f(stress.trace()) / 3.0;
        assert!((third - p).abs() <= 1e-12 * p.abs());
    }
}

#[test]
fn total_energy_is_sum_of_parts() {
    let universe = water_like("O", "H");
    let kinetic = KineticEnergy.compute(&universe);
    let potential = PotentialEnergy.compute(&universe);
    let total = TotalEnergy.compute(&universe);
    assert_eq!(total.to_bits(), kinetic.add(potential).to_bits());
    assert_eq!(f(total), f(kinetic) + f(potential));
}

#[test]
fn forces_sum_to_zero_up_to_rounding() {
    let universe = water_like("O", "H");
    let forces = Forces.compute(&universe);
    assert_eq!(forces.len(), 3);
    let mut total = [0.0; 3];
    let mut scale: f64 = 0.0;
    for force in forces.iter() {
        let c = components(*force);
        for a in 0..3 {
            total[a] += c[a];
            scale = scale.max(c[a].abs());
        }
    }
    assert!(scale > 1e-4);
    for a in 0..3 {
        assert!(total[a].abs() <= 1e-15 * scale);
    }
}

#[test]
fn forces_on_a_chain_balance_up_to_one_rounding() {
    let mut universe = Universe::from_cell(UnitCell::cubic(s(10.0)).unwrap());
    for x in [0.65, 4.82, 3.29] {
        universe.add_particle(particle("A", 1.0, [x, 0.0, 0.0], [0.0; 3]));
    }
    universe.add_pair_interaction("A", "A", harmonic(0.1, 1.0));
    let forces = Forces.compute(&universe);
    let x: Vec<f64> = forces.iter().map(|force| f(force.x)).collect();
    assert_eq!(x, vec![0.48100000000000004, -0.37000000000000005, -0.11100000000000002]);
    // Each bond acts on its two ends with opposite vectors, but the three
    // rounded sums do not cancel to the last bit.
    assert_eq!(x[0] + x[1] + x[2], -2.7755575615628914e-17);
}

#[test]
fn forces_follow_the_traversal_order() {
    let universe = water_like("O", "H");
    let forces = Forces.compute(&universe);
    let mut expected = [[0.0; 3]; 3];
    for i in 0..3 {
        for j in (i + 1)..3 {
            for potential in universe.pairs(i, j) {
                let d = universe.wrap_vector(i, j);
                let dn = components(d.normalized());
                let force = f(potential.force(d.norm()));
                for a in 0..3 {
                    expected[i][a] = expected[i][a] + force * dn[a];
                    expected[j][a] = expected[j][a] - force * dn[a];
                }
            }
        }
    }
    for i in 0..3 {
        assert_eq!(components(forces[i]), expected[i]);
    }
    // Both unlike pairs and the like pair carry exactly one potential.
    assert_eq!(universe.pairs(0, 1).len(), 1);
    assert_eq!(universe.pairs(0, 2).len(), 1);
    assert_eq!(universe.pairs(1, 2).len(), 1);
}

#[test]
fn virial_follows_the_traversal_order() {
    let universe = water_like("O", "H");
    let virial = elements(Virial.compute(&universe));
    let mut expected = [[0.0; 3]; 3];
    for i in 0..3 {
        for j in (i + 1)..3 {
            for potential in universe.pairs(i, j) {
                let d = universe.wrap_vector(i, j);
                let w = elements(potential.virial(d));
                for a in 0..3 {
                    for b in 0..3 {
                        expected[a][b] = expected[a][b] + 2.0 * w[a][b];
                    }
                }
            }
        }
    }
    assert_eq!(virial, expected);
}

#[test]
fn evaluation_is_repeatable() {
    let universe = water_like("O", "H");
    let first = Forces.compute(&universe);
    let second = Forces.compute(&universe);
    for i in 0..3 {
        assert_eq!(first[i].x.to_bits(), second[i].x.to_bits());
        assert_eq!(first[i].y.to_bits(), second[i].y.to_bits());
        assert_eq!(first[i].z.to_bits(), second[i].z.to_bits());
    }
    assert_eq!(
        PotentialEnergy.compute(&universe).to_bits(),
        PotentialEnergy.compute(&universe).to_bits()
    );
    assert_eq!(Pressure.compute(&universe).to_bits(), Pressure.compute(&universe).to_bits());
    assert_eq!(
        elements(Stress.compute(&universe)),
        elements(Stress.compute(&universe))
    );
    assert_eq!(
        Temperature.compute(&universe).to_bits(),
        Temperature.compute(&universe).to_bits()
    );
}

#[test]
fn order_of_kinds_in_registration_does_not_matter() {
    let direct = water_like("O", "H");
    let swapped = water_like("H", "O");
    let a = Forces.compute(&direct);
    let b = Forces.compute(&swapped);
    for i in 0..3 {
        assert_eq!(a[i].x.to_bits(), b[i].x.to_bits());
        assert_eq!(a[i].y.to_bits(), b[i].y.to_bits());
        assert_eq!(a[i].z.to_bits(), b[i].z.to_bits());
    }
    assert_eq!(
        PotentialEnergy.compute(&direct).to_bits(),
        PotentialEnergy.compute(&swapped).to_bits()
    );
    assert_eq!(elements(Virial.compute(&direct)), elements(Virial.compute(&swapped)));
    assert_eq!(elements(Stress.compute(&direct)), elements(Stress.compute(&swapped)));
    assert!(f(PotentialEnergy.compute(&direct)) != 0.0);
}

#[test]
fn empty_system_has_no_temperature_and_no_pressure() {
    let universe = Universe::from_cell(UnitCell::cubic(s(10.0)).unwrap());
    assert_eq!(universe.size(), 0);
    assert!(!Temperature.defined(&universe));
    assert!(!Pressure.defined(&universe));
    assert!(try_compute(&Temperature, &universe).is_none());
    assert!(try_compute(&Pressure, &universe).is_none());
    assert!(universe.temperature().is_none());
    assert!(universe.pressure().is_none());
}

#[test]
fn empty_system_has_zero_energies_and_no_forces() {
    let universe = Universe::from_cell(UnitCell::cubic(s(10.0)).unwrap());
    assert_eq!(KineticEnergy.compute(&universe).to_bits(), 0);
    assert_eq!(PotentialEnergy.compute(&universe).to_bits(), 0);
    assert_eq!(TotalEnergy.compute(&universe).to_bits(), 0);
    assert_eq!(Forces.compute(&universe).len(), 0);
    assert_eq!(elements(Virial.compute(&universe)), [[0.0; 3]; 3]);
    assert_eq!(f(Volume.compute(&universe)), 1000.0);
}

#[test]
fn coincident_bonded_atoms_leave_forces_undefined() {
    let mut universe = testing_universe();
    universe.set_position(1, vector(0.0, 0.0, 0.0));
    assert!(!universe.pairs_apart());
    assert!(!Forces.defined(&universe));
    assert!(!Virial.defined(&universe));
    assert!(!Stress.defined(&universe));
    assert!(!Pressure.defined(&universe));
    assert!(try_compute(&Forces, &universe).is_none());
    assert!(universe.virial().is_none());
    // The energies do not divide by the distance.
    assert!(PotentialEnergy.defined(&universe));
    assert_eq!(f(PotentialEnergy.compute(&universe)), 0.5 * (300.0 * KJ_PER_MOL) * 1.2 * 1.2);
}

#[test]
fn coincident_atoms_without_potential_are_no_obstacle() {
    let mut universe = Universe::from_cell(UnitCell::cubic(s(10.0)).unwrap());
    universe.add_particle(particle("He", 4.0026, [1.0, 1.0, 1.0], [0.0, 0.0, 0.0]));
    universe.add_particle(particle("He", 4.0026, [1.0, 1.0, 1.0], [0.0, 0.0, 0.0]));
    assert!(universe.pairs_apart());
    let forces = try_compute(&Forces, &universe).unwrap();
    assert_eq!(components(forces[0]), [0.0, 0.0, 0.0]);
    assert_eq!(components(forces[1]), [0.0, 0.0, 0.0]);
}

#[test]
fn periodic_image_coincides_too() {
    let mut universe = testing_universe();
    universe.set_position(1, vector(10.0, -20.0, 30.0));
    assert!(!universe.pairs_apart());
    assert!(try_compute(&Forces, &universe).is_none());
}

#[test]
fn vanishing_volume_leaves_stress_and_pressure_undefined() {
    let tiny = UnitCell::cubic(s(1e-120)).unwrap();
    assert_eq!(f(tiny.volume()), 0.0);
    let mut universe = Universe::from_cell(tiny);
    universe.add_particle(particle("F", MASS_F, [0.0, 0.0, 0.0], [0.001, 0.0, 0.0]));
    assert!(!Stress.defined(&universe));
    assert!(!Pressure.defined(&universe));
    assert!(try_compute(&Stress, &universe).is_none());
    assert!(universe.pressure().is_none());
    assert!(Temperature.defined(&universe));
    assert!(Virial.defined(&universe));
}

#[test]
fn try_compute_gives_the_value_where_defined() {
    let universe = testing_universe();
    let direct = Pressure.compute(&universe);
    let checked = try_compute(&Pressure, &universe).unwrap();
    assert_eq!(direct.to_bits(), checked.to_bits());
    assert!(Forces.defined(&universe));
    assert!(Stress.defined(&universe));
    assert!(Temperature.defined(&universe));
    assert!(KineticEnergy.defined(&universe));
    assert!(TotalEnergy.defined(&universe));
    assert!(Volume.defined(&universe));
    let forces = universe.forces().unwrap();
    assert_eq!(components(forces[0]), components(Forces.compute(&universe)[0]));
}

#[test]
fn bond_across_the_boundary_uses_the_nearest_image() {
    let mut universe = testing_universe();
    universe.set_position(0, vector(0.5, 0.0, 0.0));
    universe.set_position(1, vector(9.5, 0.0, 0.0));
    // Through the boundary the atoms are 1.0 apart, and the first lies on
    // the +x side of the second.
    assert_eq!(components(universe.wrap_vector(0, 1)), [1.0, 0.0, 0.0]);
    assert_eq!(f(universe.distance(0, 1)), 1.0);
    let forces = Forces.compute(&universe);
    // The spring is compressed: it pushes the first atom towards +x.
    assert_eq!(f(forces[0].x), (300.0 * KJ_PER_MOL) * (1.2 - 1.0));
    assert_eq!(f(forces[1].x), -f(forces[0].x));
}

#[test]
fn superposed_potentials_add_in_order_of_registration() {
    let mut universe = testing_universe();
    universe.add_pair_interaction(
        "F",
        "F",
        PairPotential::LennardJones { sigma: s(1.1), epsilon: s(0.002) },
    );
    universe.add_pair_interaction("F", "F", PairPotential::Null);
    let potentials = universe.pairs(0, 1);
    assert_eq!(potentials.len(), 3);
    let r = universe.distance(0, 1);
    let expected = 0.0 + f(potentials[0].energy(r)) + f(potentials[1].energy(r))
        + f(potentials[2].energy(r));
    assert_eq!(f(PotentialEnergy.compute(&universe)), expected);
    assert!(matches!(potentials[0], PairPotential::Harmonic { .. }));
    assert!(matches!(potentials[1], PairPotential::LennardJones { .. }));
    assert!(matches!(potentials[2], PairPotential::Null));
}

#[test]
fn single_particle_stress_and_pressure() {
    let mut universe = Universe::from_cell(UnitCell::cubic(s(2.0)).unwrap());
    universe.add_particle(particle("A", 2.0, [0.0, 0.0, 0.0], [1.0, 2.0, 3.0]));
    assert_eq!(f(Volume.compute(&universe)), 8.0);
    assert_eq!(f(KineticEnergy.compute(&universe)), 14.0);
    let stress = elements(Stress.compute(&universe));
    assert_eq!(stress, [[0.25, 0.5, 0.75], [0.5, 1.0, 1.5], [0.75, 1.5, 2.25]]);
    let p = f(Pressure.compute(&universe));
    assert_eq!(p, 1.1666666666666665);
    assert!((p - 7.0 / 6.0).abs() < 1e-15);
    let trace = f(Stress.compute(&universe).trace());
    assert_eq!(trace, 3.5);
    assert!((trace / 3.0 - p).abs() < 1e-15);
    assert_eq!(elements(Virial.compute(&universe)), [[0.0; 3]; 3]);
    assert_eq!(components(Forces.compute(&universe)[0]), [0.0, 0.0, 0.0]);
}

#[test]
fn kinetic_energy_of_two_masses() {
    let mut universe = Universe::from_cell(UnitCell::cubic(s(10.0)).unwrap());
    universe.add_particle(particle("A", 2.0, [0.0, 0.0, 0.0], [1.0, 2.0, 3.0]));
    universe.add_particle(particle("B", 4.0, [5.0, 5.0, 5.0], [-1.0, 0.0, 0.0]));
    assert_eq!(f(KineticEnergy.compute(&universe)), 16.0);
    assert_eq!(f(PotentialEnergy.compute(&universe)), 0.0);
    assert_eq!(f(TotalEnergy.compute(&universe)), 16.0);
    let expected = 1.0 / f(cymbalum::constants::k_boltzmann()) * 2.0 * 16.0 / (3.0 * 2.0);
    assert_eq!(f(Temperature.compute(&universe)), expected);
}

#[test]
fn bonded_pair_across_the_boundary() {
    let mut universe = testing_universe();
    universe.set_position(1, vector(8.7, 0.0, 0.0));
    // The nearest image of the second atom lies at -1.3: the first atom
    // is 1.3 away from it, on its +x side.
    let d = components(universe.wrap_vector(0, 1));
    assert_eq!(d, [1.3000000000000007, 0.0, 0.0]);
    assert_eq!(f(universe.distance(0, 1)), 1.3000000000000007);
    let forces = Forces.compute(&universe);
    // The stretched spring pulls the first atom towards -x, through the
    // boundary, and the second towards +x.
    assert_eq!(f(forces[0].x), -0.003000000002100652);
    assert_eq!(f(forces[1].x), 0.003000000002100652);
    assert_eq!(f(forces[0].y), 0.0);
    assert_eq!(f(forces[0].z), 0.0);
    assert_eq!(f(forces[1].y), 0.0);
    assert_eq!(f(forces[1].z), 0.0);
    let energy = f(PotentialEnergy.compute(&universe));
    assert_eq!(energy, 0.00015000000010503375);
    assert!((energy - 1.5e-4).abs() < EPS);
}

#[test]
fn bonded_pair_at_rest_has_the_pressure_of_its_virial() {
    let mut universe = testing_universe();
    universe.set_velocity(0, vector(0.0, 0.0, 0.0));
    universe.set_velocity(1, vector(0.0, 0.0, 0.0));
    assert_eq!(f(KineticEnergy.compute(&universe)), 0.0);
    assert_eq!(f(Temperature.compute(&universe)), 0.0);
    let p = f(Pressure.compute(&universe));
    assert_eq!(p, 2.600000001820548e-06);
    assert!((p - 2.6e-6).abs() < 1e-14);
    let stress = elements(Stress.compute(&universe));
    assert_eq!(stress[0][0], 1.0 / 1000.0 * (0.0 - -0.007800000005461644));
    assert!((stress[0][0] / 3.0 - p).abs() < 1e-20);
}

#[test]
fn system_without_particles_is_told_apart_before_evaluation() {
    let mut universe = Universe::from_cell(UnitCell::cubic(s(10.0)).unwrap());
    assert!(try_compute(&Temperature, &universe).is_none());
    assert!(try_compute(&Pressure, &universe).is_none());
    universe.add_particle(particle("A", 2.0, [0.0, 0.0, 0.0], [1.0, 2.0, 3.0]));
    assert!(try_compute(&Temperature, &universe).is_some());
    assert!(try_compute(&Pressure, &universe).is_some());
}
