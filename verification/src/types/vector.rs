//! Three-component vectors.

use crate::types::matrix::Matrix3;
use crate::types::scalar::Scalar;
use vstd::prelude::*;

verus! {

/// A vector of three scalars.
#[derive(Clone, Copy, Debug)]
pub struct Vector3D {
    pub x: Scalar,
    pub y: Scalar,
    pub z: Scalar,
}

impl Vector3D {
    /// The vector whose three components are `0.0`.
    pub open spec fn spec_zero() -> Vector3D {
        Vector3D { x: Scalar::zero(), y: Scalar::zero(), z: Scalar::zero() }
    }

    /// Componentwise sum.
    pub open spec fn spec_add(self, rhs: Vector3D) -> Vector3D {
        Vector3D { x: self.x.add(rhs.x), y: self.y.add(rhs.y), z: self.z.add(rhs.z) }
    }

    /// The opposite vector: each component with its sign flipped.
    pub open spec fn spec_neg(self) -> Vector3D {
        Vector3D { x: self.x.neg(), y: self.y.neg(), z: self.z.neg() }
    }

    /// Componentwise difference, which is the sum with the opposite
    /// vector.
    pub open spec fn spec_sub(self, rhs: Vector3D) -> Vector3D {
        Vector3D { x: self.x.sub(rhs.x), y: self.y.sub(rhs.y), z: self.z.sub(rhs.z) }
    }

    /// The vector with each component multiplied by `factor`, the factor
    /// being the left operand of each product.
    pub open spec fn spec_scale(self, factor: Scalar) -> Vector3D {
        Vector3D { x: factor.mul(self.x), y: factor.mul(self.y), z: factor.mul(self.z) }
    }

    /// The vector with each component divided by `divisor`.
    pub open spec fn spec_div(self, divisor: Scalar) -> Vector3D {
        Vector3D { x: self.x.div(divisor), y: self.y.div(divisor), z: self.z.div(divisor) }
    }

    /// The dot product `(x * x' + y * y') + z * z'`.
    pub open spec fn spec_dot(self, rhs: Vector3D) -> Scalar {
        self.x.mul(rhs.x).add(self.y.mul(rhs.y)).add(self.z.mul(rhs.z))
    }

    /// The squared Euclidean norm, `self . self`.
    pub open spec fn spec_norm2(self) -> Scalar {
        self.spec_dot(self)
    }

    /// The Euclidean norm, the square root of `norm2`.
    pub open spec fn spec_norm(self) -> Scalar {
        self.spec_norm2().sqrt()
    }

    /// The vector divided by its own norm.
    pub open spec fn spec_normalized(self) -> Vector3D {
        self.spec_div(self.spec_norm())
    }

    /// The outer product: the tensor whose element `(a, b)` is
    /// `self[a] * rhs[b]`.
    pub open spec fn spec_tensorial(self, rhs: Vector3D) -> Matrix3 {
        Matrix3 {
            xx: self.x.mul(rhs.x),
            xy: self.x.mul(rhs.y),
            xz: self.x.mul(rhs.z),
            yx: self.y.mul(rhs.x),
            yy: self.y.mul(rhs.y),
            yz: self.y.mul(rhs.z),
            zx: self.z.mul(rhs.x),
            zy: self.z.mul(rhs.y),
            zz: self.z.mul(rhs.z),
        }
    }

    /// The vector with the given components.
    pub fn new(x: Scalar, y: Scalar, z: Scalar) -> (r: Vector3D)
        ensures
            r == (Vector3D { x, y, z }),
    {
        Vector3D { x, y, z }
    }

    /// The vector whose three components are `0.0`.
    #[verifier::when_used_as_spec(spec_zero)]
    pub fn zero() -> (r: Vector3D)
        ensures
            r == Self::spec_zero(),
    {
        Vector3D { x: Scalar::zero(), y: Scalar::zero(), z: Scalar::zero() }
    }

    /// Componentwise sum.
    #[verifier::when_used_as_spec(spec_add)]
    pub fn add(self, rhs: Vector3D) -> (r: Vector3D)
        ensures
            r == self.spec_add(rhs),
    {
        Vector3D { x: self.x.add(rhs.x), y: self.y.add(rhs.y), z: self.z.add(rhs.z) }
    }

    /// The opposite vector.
    #[verifier::when_used_as_spec(spec_neg)]
    pub fn neg(self) -> (r: Vector3D)
        ensures
            r == self.spec_neg(),
    {
        Vector3D { x: self.x.neg(), y: self.y.neg(), z: self.z.neg() }
    }

    /// Componentwise difference.
    #[verifier::when_used_as_spec(spec_sub)]
    pub fn sub(self, rhs: Vector3D) -> (r: Vector3D)
        ensures
            r == self.spec_sub(rhs),
            r == self.spec_add(rhs.spec_neg()),
    {
        Vector3D { x: self.x.sub(rhs.x), y: self.y.sub(rhs.y), z: self.z.sub(rhs.z) }
    }

    /// The vector multiplied by `factor`.
    #[verifier::when_used_as_spec(spec_scale)]
    pub fn scale(self, factor: Scalar) -> (r: Vector3D)
        ensures
            r == self.spec_scale(factor),
    {
        Vector3D { x: factor.mul(self.x), y: factor.mul(self.y), z: factor.mul(self.z) }
    }

    /// The vector divided by `divisor`.
    #[verifier::when_used_as_spec(spec_div)]
    pub fn div(self, divisor: Scalar) -> (r: Vector3D)
        ensures
            r == self.spec_div(divisor),
    {
        Vector3D { x: self.x.div(divisor), y: self.y.div(divisor), z: self.z.div(divisor) }
    }

    /// The dot product.
    #[verifier::when_used_as_spec(spec_dot)]
    pub fn dot(self, rhs: Vector3D) -> (r: Scalar)
        ensures
            r == self.spec_dot(rhs),
    {
        self.x.mul(rhs.x).add(self.y.mul(rhs.y)).add(self.z.mul(rhs.z))
    }

    /// The squared Euclidean norm.
    #[verifier::when_used_as_spec(spec_norm2)]
    pub fn norm2(self) -> (r: Scalar)
        ensures
            r == self.spec_norm2(),
    {
        self.dot(self)
    }

    /// The Euclidean norm.
    #[verifier::when_used_as_spec(spec_norm)]
    pub fn norm(self) -> (r: Scalar)
        ensures
            r == self.spec_norm(),
    {
        self.norm2().sqrt()
    }

    /// The vector divided by its norm. For the zero vector the norm is
    /// `0.0` and every component of the result is a NaN.
    #[verifier::when_used_as_spec(spec_normalized)]
    pub fn normalized(self) -> (r: Vector3D)
        ensures
            r == self.spec_normalized(),
    {
        self.div(self.norm())
    }

    /// The outer product of `self` and `rhs`.
    #[verifier::when_used_as_spec(spec_tensorial)]
    pub fn tensorial(self, rhs: Vector3D) -> (r: Matrix3)
        ensures
            r == self.spec_tensorial(rhs),
    {
        Matrix3 {
            xx: self.x.mul(rhs.x),
            xy: self.x.mul(rhs.y),
            xz: self.x.mul(rhs.z),
            yx: self.y.mul(rhs.x),
            yy: self.y.mul(rhs.y),
            yz: self.y.mul(rhs.z),
            zx: self.z.mul(rhs.x),
            zy: self.z.mul(rhs.y),
            zz: self.z.mul(rhs.z),
        }
    }
}

impl View for Vector3D {
    type V = Vector3D;

    /// A value of this type is its own mathematical model.
    open spec fn view(&self) -> Vector3D {
        *self
    }
}

} // verus!
