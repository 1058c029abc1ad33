//! Vectors and tensors.

use cymbalum::Matrix3;
use cymbalum::Scalar;
use cymbalum::Vector3D;

fn num(x: f64) -> Scalar {
    Scalar::from_bits(x.to_bits())
}

fn val(x: Scalar) -> f64 {
    f64::from_bits(x.to_bits())
}

fn vec3(x: f64, y: f64, z: f64) -> Vector3D {
    Vector3D::new(num(x), num(y), num(z))
}

fn xyz(v: Vector3D) -> [f64; 3] {
    [val(v.x), val(v.y), val(v.z)]
}

fn rows(m: Matrix3) -> [[f64; 3]; 3] {
    [
        [val(m.xx), val(m.xy), val(m.xz)],
        [val(m.yx), val(m.yy), val(m.yz)],
        [val(m.zx), val(m.zy), val(m.zz)],
    ]
}

fn counting() -> Matrix3 {
    let mut m = Matrix3::zero();
    for i in 0..3 {
        for j in 0..3 {
            m.set(i, j, num((3 * i + j + 1) as f64));
        }
    }
    m
}

#[test]
fn vector_new_keeps_components() {
    assert_eq!(xyz(vec3(1.0, -2.0, 3.5)), [1.0, -2.0, 3.5]);
    assert_eq!(xyz(Vector3D::zero()), [0.0, 0.0, 0.0]);
}

#[test]
fn vector_sum_and_difference() {
    let a = vec3(1.0, 2.0, 3.0);
    let b = vec3(0.5, -4.0, 0.25);
    assert_eq!(xyz(a.add(b)), [1.5, -2.0, 3.25]);
    assert_eq!(xyz(a.sub(b)), [0.5, 6.0, 2.75]);
}

#[test]
fn vector_scale_and_div() {
    let a = vec3(1.0, -2.0, 3.0);
    assert_eq!(xyz(a.scale(num(2.5))), [2.5, -5.0, 7.5]);
    assert_eq!(xyz(a.div(num(4.0))), [0.25, -0.5, 0.75]);
}

#[test]
fn vector_dot_and_norms() {
    let a = vec3(1.0, 2.0, 3.0);
    let b = vec3(4.0, -5.0, 6.0);
    assert_eq!(val(a.dot(b)), 12.0);
    assert_eq!(val(a.norm2()), 14.0);
    assert_eq!(val(vec3(3.0, 4.0, 12.0).norm()), 13.0);
    assert_eq!(val(vec3(0.1, 0.2, 0.3).norm2()), (0.1f64 * 0.1 + 0.2 * 0.2) + 0.3 * 0.3);
    assert_eq!(val(vec3(0.1, 0.2, 0.3).norm()), ((0.1f64 * 0.1 + 0.2 * 0.2) + 0.3 * 0.3).sqrt());
}

#[test]
fn vector_normalized_has_unit_length() {
    let n = vec3(3.0, 0.0, 4.0).normalized();
    assert_eq!(xyz(n), [0.6, 0.0, 0.8]);
    let m = vec3(1.0, 2.0, 3.0).normalized();
    assert!((val(m.norm()) - 1.0).abs() < 1e-15);
}

#[test]
fn zero_vector_normalizes_to_nan() {
    let n = xyz(Vector3D::zero().normalized());
    assert!(n[0].is_nan() && n[1].is_nan() && n[2].is_nan());
}

#[test]
fn outer_product() {
    let t = vec3(1.0, 2.0, 3.0).tensorial(vec3(4.0, 5.0, 6.0));
    assert_eq!(rows(t), [[4.0, 5.0, 6.0], [8.0, 10.0, 12.0], [12.0, 15.0, 18.0]]);
}

#[test]
fn matrix_zero_is_zero() {
    assert_eq!(rows(Matrix3::zero()), [[0.0; 3]; 3]);
}

#[test]
fn matrix_get_and_set_by_index() {
    let m = counting();
    assert_eq!(rows(m), [[1.0, 2.0, 3.0], [4.0, 5.0, 6.0], [7.0, 8.0, 9.0]]);
    for i in 0..3 {
        for j in 0..3 {
            assert_eq!(val(m.get(i, j)), (3 * i + j + 1) as f64);
        }
    }
    let mut n = m;
    n.set(1, 2, num(-1.0));
    assert_eq!(rows(n), [[1.0, 2.0, 3.0], [4.0, 5.0, -1.0], [7.0, 8.0, 9.0]]);
}

#[test]
fn matrix_sum_difference_scale_trace() {
    let m = counting();
    let t = vec3(1.0, 0.0, -1.0).tensorial(vec3(2.0, 2.0, 2.0));
    assert_eq!(rows(m.add(t)), [[3.0, 4.0, 5.0], [4.0, 5.0, 6.0], [5.0, 6.0, 7.0]]);
    assert_eq!(rows(m.sub(t)), [[-1.0, 0.0, 1.0], [4.0, 5.0, 6.0], [9.0, 10.0, 11.0]]);
    assert_eq!(rows(m.scale(num(0.5))), [[0.5, 1.0, 1.5], [2.0, 2.5, 3.0], [3.5, 4.0, 4.5]]);
    assert_eq!(val(m.trace()), 15.0);
}

#[test]
fn vector_opposite() {
    assert_eq!(xyz(vec3(1.0, -2.0, 0.5).neg()), [-1.0, 2.0, -0.5]);
    let a = vec3(1.0, 2.0, 3.0);
    let b = vec3(0.5, -4.0, 0.25);
    assert_eq!(xyz(a.sub(b)), xyz(a.add(b.neg())));
}
