//! The periodic simulation box.

use crate::types::scalar::Scalar;
use crate::types::vector::Vector3D;
use vstd::prelude::*;

verus! {

/// The image of the coordinate `x` nearest to zero along an axis of period
/// `length`: `x - round(x / length) * length`.
pub open spec fn spec_wrap_coordinate(x: Scalar, length: Scalar) -> Scalar {
    x.sub(x.div(length).round().mul(length))
}

/// Folds one coordinate of a displacement into the period `length`.
#[verifier::when_used_as_spec(spec_wrap_coordinate)]
pub fn wrap_coordinate(x: Scalar, length: Scalar) -> (r: Scalar)
    ensures
        r == spec_wrap_coordinate(x, length),
{
    x.sub(x.div(length).round().mul(length))
}

/// An orthorhombic box with periodic boundaries: three mutually orthogonal
/// edges along the axes, each of a finite length greater than zero.
#[derive(Clone, Copy, Debug)]
pub struct UnitCell {
    a: Scalar,
    b: Scalar,
    c: Scalar,
}

impl UnitCell {
    /// Each edge is a finite length greater than zero.
    #[verifier::type_invariant]
    spec fn edges_positive(self) -> bool {
        &&& self.a.is_positive()
        &&& self.b.is_positive()
        &&& self.c.is_positive()
    }

    /// Length of the edge along x.
    pub closed spec fn spec_a(self) -> Scalar {
        self.a
    }

    /// Length of the edge along y.
    pub closed spec fn spec_b(self) -> Scalar {
        self.b
    }

    /// Length of the edge along z.
    pub closed spec fn spec_c(self) -> Scalar {
        self.c
    }

    /// The enclosed volume, `(a * b) * c`.
    pub open spec fn spec_volume(self) -> Scalar {
        self.spec_a().mul(self.spec_b()).mul(self.spec_c())
    }

    /// The minimum image of a raw displacement: each coordinate folded into
    /// the period of its axis.
    pub open spec fn spec_wrap_vector(self, v: Vector3D) -> Vector3D {
        Vector3D {
            x: wrap_coordinate(v.x, self.spec_a()),
            y: wrap_coordinate(v.y, self.spec_b()),
            z: wrap_coordinate(v.z, self.spec_c()),
        }
    }

    /// The minimum image of the displacement that leads from the position
    /// `from` to the position `to`.
    pub open spec fn spec_wrap_displacement(self, from: Vector3D, to: Vector3D) -> Vector3D {
        self.spec_wrap_vector(to.sub(from))
    }

    /// The box with edges `a`, `b` and `c`, if each is a finite length
    /// greater than zero.
    pub fn ortho(a: Scalar, b: Scalar, c: Scalar) -> (r: Option<UnitCell>)
        ensures
            r.is_some() <==> a.is_positive() && b.is_positive() && c.is_positive(),
            r matches Some(cell) ==> cell.spec_a() == a && cell.spec_b() == b && cell.spec_c()
                == c,
    {
        if a.is_positive() && b.is_positive() && c.is_positive() {
            Some(UnitCell { a, b, c })
        } else {
            None
        }
    }

    /// The cube of edge `length`, if that is a finite length greater than
    /// zero.
    pub fn cubic(length: Scalar) -> (r: Option<UnitCell>)
        ensures
            r.is_some() <==> length.is_positive(),
            r matches Some(cell) ==> cell.spec_a() == length && cell.spec_b() == length
                && cell.spec_c() == length,
    {
        Self::ortho(length, length, length)
    }

    /// Length of the edge along x.
    #[verifier::when_used_as_spec(spec_a)]
    pub fn a(self) -> (r: Scalar)
        ensures
            r == self.spec_a(),
            r.is_positive(),
    {
        proof {
            use_type_invariant(self);
        }
        self.a
    }

    /// Length of the edge along y.
    #[verifier::when_used_as_spec(spec_b)]
    pub fn b(self) -> (r: Scalar)
        ensures
            r == self.spec_b(),
            r.is_positive(),
    {
        proof {
            use_type_invariant(self);
        }
        self.b
    }

    /// Length of the edge along z.
    #[verifier::when_used_as_spec(spec_c)]
    pub fn c(self) -> (r: Scalar)
        ensures
            r == self.spec_c(),
            r.is_positive(),
    {
        proof {
            use_type_invariant(self);
        }
        self.c
    }

    /// The enclosed volume. It is never negative: its sign bit is clear.
    /// The product of three lengths can still underflow to `0.0` or
    /// overflow to infinity.
    #[verifier::when_used_as_spec(spec_volume)]
    pub fn volume(self) -> (r: Scalar)
        ensures
            r == self.spec_volume(),
            r.is_sign_positive(),
    {
        proof {
            use_type_invariant(self);
        }
        self.a.mul(self.b).mul(self.c)
    }

    /// Wraps a raw displacement into its minimum image.
    #[verifier::when_used_as_spec(spec_wrap_vector)]
    pub fn wrap_vector(self, v: Vector3D) -> (r: Vector3D)
        ensures
            r == self.spec_wrap_vector(v),
    {
        Vector3D {
            x: wrap_coordinate(v.x, self.a),
            y: wrap_coordinate(v.y, self.b),
            z: wrap_coordinate(v.z, self.c),
        }
    }

    /// The minimum image of the displacement from `from` to `to`.
    #[verifier::when_used_as_spec(spec_wrap_displacement)]
    pub fn wrap_displacement(self, from: Vector3D, to: Vector3D) -> (r: Vector3D)
        ensures
            r == self.spec_wrap_displacement(from, to),
    {
        self.wrap_vector(to.sub(from))
    }
}

} // verus!
