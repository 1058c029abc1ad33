//! The pair interaction laws.

use cymbalum::potentials::sixth_power_ratio;
use cymbalum::Matrix3;
use cymbalum::PairPotential;
use cymbalum::Scalar;
use cymbalum::Vector3D;

fn re(x: f64) -> Scalar {
    Scalar::from_bits(x.to_bits())
}

fn fv(x: Scalar) -> f64 {
    f64::from_bits(x.to_bits())
}

fn tensor(m: Matrix3) -> [[f64; 3]; 3] {
    [
        [fv(m.xx), fv(m.xy), fv(m.xz)],
        [fv(m.yx), fv(m.yy), fv(m.yz)],
        [fv(m.zx), fv(m.zy), fv(m.zz)],
    ]
}

#[test]
fn null_potential_is_zero_everywhere() {
    let p = PairPotential::Null;
    for r in [0.5, 1.0, 2.0, 100.0] {
        assert_eq!(fv(p.energy(re(r))), 0.0);
        assert_eq!(fv(p.force(re(r))), 0.0);
    }
    let w = p.virial(Vector3D::new(re(1.0), re(2.0), re(3.0)));
    assert_eq!(tensor(w), [[0.0; 3]; 3]);
}

#[test]
fn harmonic_energy_and_force() {
    let p = PairPotential::Harmonic { k: re(50.0), x0: re(2.0) };
    assert_eq!(fv(p.energy(re(2.0))), 0.0);
    assert_eq!(fv(p.force(re(2.0))), 0.0);
    assert_eq!(fv(p.energy(re(2.5))), 6.25);
    assert_eq!(fv(p.force(re(2.5))), -25.0);
    assert_eq!(fv(p.energy(re(1.0))), 25.0);
    assert_eq!(fv(p.force(re(1.0))), 50.0);
}

#[test]
fn harmonic_force_is_slope_of_energy() {
    let p = PairPotential::Harmonic { k: re(0.03), x0: re(1.2) };
    let h = 1e-6;
    for r in [0.9, 1.2, 1.3, 2.0] {
        let slope = (fv(p.energy(re(r + h))) - fv(p.energy(re(r - h)))) / (2.0 * h);
        assert!((fv(p.force(re(r))) + slope).abs() < 1e-9);
    }
}

#[test]
fn lennard_jones_energy_and_force() {
    let p = PairPotential::LennardJones { sigma: re(2.0), epsilon: re(0.8) };
    // At r = sigma the energy vanishes and the force is 24 epsilon / sigma.
    assert_eq!(fv(p.energy(re(2.0))), 0.0);
    assert_eq!(fv(p.force(re(2.0))), 24.0 * 0.8 / 2.0);
    assert_eq!(fv(p.force(re(2.0))), 9.600000000000001);
    // At r = 2 sigma: s6 = 1 / 64.
    let s6 = 1.0 / 64.0;
    assert_eq!(fv(sixth_power_ratio(re(2.0), re(4.0))), s6);
    assert_eq!(fv(p.energy(re(4.0))), 4.0 * 0.8 * (s6 * s6 - s6));
    assert_eq!(fv(p.force(re(4.0))), 24.0 * 0.8 * (2.0 * s6 * s6 - s6) / 4.0);
    assert!(fv(p.force(re(4.0))) < 0.0);
}

#[test]
fn lennard_jones_minimum_is_at_the_sixth_root_of_two() {
    let p = PairPotential::LennardJones { sigma: re(1.0), epsilon: re(1.0) };
    let r_min = 2.0f64.powf(1.0 / 6.0);
    assert!(fv(p.force(re(r_min))).abs() < 1e-14);
    assert!((fv(p.energy(re(r_min))) + 1.0).abs() < 1e-15);
}

#[test]
fn sixth_power_by_three_multiplications() {
    let q: f64 = 1.1 / 1.3;
    let q2 = q * q;
    assert_eq!(fv(sixth_power_ratio(re(1.1), re(1.3))), (q2 * q2) * q2);
}

#[test]
fn virial_is_force_vector_times_displacement() {
    let p = PairPotential::Harmonic { k: re(0.03), x0: re(1.2) };
    let d = Vector3D::new(re(-1.0), re(2.0), re(-2.0));
    // |d| = 3, force = 0.03 * (1.2 - 3), direction d / 3.
    let force = 0.03 * (1.2 - 3.0);
    let dn = [-1.0 / 3.0, 2.0 / 3.0, -2.0 / 3.0];
    let dv = [-1.0, 2.0, -2.0];
    let w = tensor(p.virial(d));
    for a in 0..3 {
        for b in 0..3 {
            assert_eq!(w[a][b], (force * dn[a]) * dv[b]);
        }
    }
    // An attractive pair has a negative virial on the diagonal.
    assert!(w[0][0] < 0.0 && w[1][1] < 0.0 && w[2][2] < 0.0);
}
