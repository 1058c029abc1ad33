//! Three-by-three tensors.

use crate::types::scalar::Scalar;
use vstd::prelude::*;

verus! {

/// A tensor of three rows and three columns; the field `xy` is the element
/// of row 0 and column 1.
#[derive(Clone, Copy, Debug)]
pub struct Matrix3 {
    pub xx: Scalar,
    pub xy: Scalar,
    pub xz: Scalar,
    pub yx: Scalar,
    pub yy: Scalar,
    pub yz: Scalar,
    pub zx: Scalar,
    pub zy: Scalar,
    pub zz: Scalar,
}

impl Matrix3 {
    /// The tensor whose nine elements are `0.0`.
    pub open spec fn spec_zero() -> Matrix3 {
        Matrix3 {
            xx: Scalar::zero(),
            xy: Scalar::zero(),
            xz: Scalar::zero(),
            yx: Scalar::zero(),
            yy: Scalar::zero(),
            yz: Scalar::zero(),
            zx: Scalar::zero(),
            zy: Scalar::zero(),
            zz: Scalar::zero(),
        }
    }

    /// The element of row `i` and column `j`, both counted from 0.
    pub open spec fn spec_get(self, i: usize, j: usize) -> Scalar
        recommends
            i < 3,
            j < 3,
    {
        if i == 0 {
            if j == 0 {
                self.xx
            } else if j == 1 {
                self.xy
            } else {
                self.xz
            }
        } else if i == 1 {
            if j == 0 {
                self.yx
            } else if j == 1 {
                self.yy
            } else {
                self.yz
            }
        } else {
            if j == 0 {
                self.zx
            } else if j == 1 {
                self.zy
            } else {
                self.zz
            }
        }
    }

    /// Elementwise sum.
    pub open spec fn spec_add(self, rhs: Matrix3) -> Matrix3 {
        Matrix3 {
            xx: self.xx.add(rhs.xx),
            xy: self.xy.add(rhs.xy),
            xz: self.xz.add(rhs.xz),
            yx: self.yx.add(rhs.yx),
            yy: self.yy.add(rhs.yy),
            yz: self.yz.add(rhs.yz),
            zx: self.zx.add(rhs.zx),
            zy: self.zy.add(rhs.zy),
            zz: self.zz.add(rhs.zz),
        }
    }

    /// Elementwise difference.
    pub open spec fn spec_sub(self, rhs: Matrix3) -> Matrix3 {
        Matrix3 {
            xx: self.xx.sub(rhs.xx),
            xy: self.xy.sub(rhs.xy),
            xz: self.xz.sub(rhs.xz),
            yx: self.yx.sub(rhs.yx),
            yy: self.yy.sub(rhs.yy),
            yz: self.yz.sub(rhs.yz),
            zx: self.zx.sub(rhs.zx),
            zy: self.zy.sub(rhs.zy),
            zz: self.zz.sub(rhs.zz),
        }
    }

    /// The tensor with each element multiplied by `factor`, the factor being
    /// the left operand of each product.
    pub open spec fn spec_scale(self, factor: Scalar) -> Matrix3 {
        Matrix3 {
            xx: factor.mul(self.xx),
            xy: factor.mul(self.xy),
            xz: factor.mul(self.xz),
            yx: factor.mul(self.yx),
            yy: factor.mul(self.yy),
            yz: factor.mul(self.yz),
            zx: factor.mul(self.zx),
            zy: factor.mul(self.zy),
            zz: factor.mul(self.zz),
        }
    }

    /// The sum of the diagonal, `(xx + yy) + zz`.
    pub open spec fn spec_trace(self) -> Scalar {
        self.xx.add(self.yy).add(self.zz)
    }

    /// The tensor whose nine elements are `0.0`.
    #[verifier::when_used_as_spec(spec_zero)]
    pub fn zero() -> (r: Matrix3)
        ensures
            r == Self::spec_zero(),
    {
        let o = Scalar::zero();
        Matrix3 { xx: o, xy: o, xz: o, yx: o, yy: o, yz: o, zx: o, zy: o, zz: o }
    }

    /// The element of row `i` and column `j`.
    #[verifier::when_used_as_spec(spec_get)]
    pub fn get(self, i: usize, j: usize) -> (r: Scalar)
        requires
            i < 3,
            j < 3,
        ensures
            r == self.spec_get(i, j),
    {
        if i == 0 {
            if j == 0 {
                self.xx
            } else if j == 1 {
                self.xy
            } else {
                self.xz
            }
        } else if i == 1 {
            if j == 0 {
                self.yx
            } else if j == 1 {
                self.yy
            } else {
                self.yz
            }
        } else {
            if j == 0 {
                self.zx
            } else if j == 1 {
                self.zy
            } else {
                self.zz
            }
        }
    }

    /// Replaces the element of row `i` and column `j` by `value`; the other
    /// eight elements stay.
    pub fn set(&mut self, i: usize, j: usize, value: Scalar)
        requires
            i < 3,
            j < 3,
        ensures
            final(self).spec_get(i, j) == value,
            forall|a: usize, b: usize|
                a < 3 && b < 3 && (a != i || b != j) ==> #[trigger] final(self).spec_get(a, b)
                    == old(self).spec_get(a, b),
    {
        if i == 0 {
            if j == 0 {
                self.xx = value;
            } else if j == 1 {
                self.xy = value;
            } else {
                self.xz = value;
            }
        } else if i == 1 {
            if j == 0 {
                self.yx = value;
            } else if j == 1 {
                self.yy = value;
            } else {
                self.yz = value;
            }
        } else {
            if j == 0 {
                self.zx = value;
            } else if j == 1 {
                self.zy = value;
            } else {
                self.zz = value;
            }
        }
    }

    /// Elementwise sum.
    #[verifier::when_used_as_spec(spec_add)]
    pub fn add(self, rhs: Matrix3) -> (r: Matrix3)
        ensures
            r == self.spec_add(rhs),
    {
        Matrix3 {
            xx: self.xx.add(rhs.xx),
            xy: self.xy.add(rhs.xy),
            xz: self.xz.add(rhs.xz),
            yx: self.yx.add(rhs.yx),
            yy: self.yy.add(rhs.yy),
            yz: self.yz.add(rhs.yz),
            zx: self.zx.add(rhs.zx),
            zy: self.zy.add(rhs.zy),
            zz: self.zz.add(rhs.zz),
        }
    }

    /// Elementwise difference.
    #[verifier::when_used_as_spec(spec_sub)]
    pub fn sub(self, rhs: Matrix3) -> (r: Matrix3)
        ensures
            r == self.spec_sub(rhs),
    {
        Matrix3 {
            xx: self.xx.sub(rhs.xx),
            xy: self.xy.sub(rhs.xy),
            xz: self.xz.sub(rhs.xz),
            yx: self.yx.sub(rhs.yx),
            yy: self.yy.sub(rhs.yy),
            yz: self.yz.sub(rhs.yz),
            zx: self.zx.sub(rhs.zx),
            zy: self.zy.sub(rhs.zy),
            zz: self.zz.sub(rhs.zz),
        }
    }

    /// The tensor multiplied by `factor`.
    #[verifier::when_used_as_spec(spec_scale)]
    pub fn scale(self, factor: Scalar) -> (r: Matrix3)
        ensures
            r == self.spec_scale(factor),
    {
        Matrix3 {
            xx: factor.mul(self.xx),
            xy: factor.mul(self.xy),
            xz: factor.mul(self.xz),
            yx: factor.mul(self.yx),
            yy: factor.mul(self.yy),
            yz: factor.mul(self.yz),
            zx: factor.mul(self.zx),
            zy: factor.mul(self.zy),
            zz: factor.mul(self.zz),
        }
    }

    /// The sum of the diagonal.
    #[verifier::when_used_as_spec(spec_trace)]
    pub fn trace(self) -> (r: Scalar)
        ensures
            r == self.spec_trace(),
    {
        self.xx.add(self.yy).add(self.zz)
    }
}

impl View for Matrix3 {
    type V = Matrix3;

    /// A value of this type is its own mathematical model.
    open spec fn view(&self) -> Matrix3 {
        *self
    }
}

} // verus!
