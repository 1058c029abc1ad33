//! IEEE 754 binary64 scalars, held by their bit patterns.
//!
//! A `Scalar` is the 64-bit pattern of a binary64 number. Arithmetic on
//! scalars is done in software by `const_soft_float`, on the bit patterns
//! alone. The result of each operation is a fixed function of the operand
//! bits, which the specifications below refer to by name without unfolding
//! it. The operations round to nearest, ties to even, as IEEE 754 asks,
//! but for products below the normal range (see `binary64_mul`); which NaN
//! comes out where the result is a NaN is the crate's own choice.
//!
//! Two operations are made of the others. The difference `a - b` is the
//! sum of `a` and the opposite of `b`, and the opposite flips the sign bit.
//! The square root of a positive subnormal number is taken of the number
//! scaled into the normal range, since the outside square root is called
//! on no subnormal operand.

use const_soft_float::soft_f64::SoftF64;
use vstd::arithmetic::power2::lemma2_to64_rest;
use vstd::arithmetic::power2::lemma_pow2_strictly_increases;
use vstd::arithmetic::power2::lemma_pow2_unfold;
use vstd::arithmetic::power2::pow2;
use vstd::prelude::*;

verus! {

/// The bit pattern that `SoftF64::add` gives for the operands with the
/// patterns `a` and `b`: that of the sum `a + b`.
pub uninterp spec fn binary64_add(a: u64, b: u64) -> u64;

/// The bit pattern that `SoftF64::mul` gives for the operands with the
/// patterns `a` and `b`: that of the product `a * b`. Where the product is
/// too small for a normal number, the crate may round it to the neighbour
/// of the nearest subnormal number.
pub uninterp spec fn binary64_mul(a: u64, b: u64) -> u64;

/// The bit pattern that `SoftF64::div` gives for the operands with the
/// patterns `a` and `b`: that of the quotient `a / b`.
pub uninterp spec fn binary64_div(a: u64, b: u64) -> u64;

/// The bit pattern that `SoftF64::sqrt` gives for the operand with the
/// pattern `a`: that of its square root. The library asks for it only where
/// the operand is not a positive subnormal number, see `Scalar::sqrt`.
pub uninterp spec fn binary64_sqrt(a: u64) -> u64;

/// The bit pattern that `SoftF64::round` gives for the operand with the
/// pattern `a`: that of the nearest integer, halfway cases away from zero.
pub uninterp spec fn binary64_round(a: u64) -> u64;

/// Bit pattern of `0.0`.
pub const ZERO_BITS: u64 = 0x0000_0000_0000_0000;

/// Bit pattern of `0.5`.
pub const HALF_BITS: u64 = 0x3FE0_0000_0000_0000;

/// Bit pattern of `1.0`.
pub const ONE_BITS: u64 = 0x3FF0_0000_0000_0000;

/// Bit pattern of `2.0`.
pub const TWO_BITS: u64 = 0x4000_0000_0000_0000;

/// Bit pattern of `3.0`.
pub const THREE_BITS: u64 = 0x4008_0000_0000_0000;

/// Bit pattern of `4.0`.
pub const FOUR_BITS: u64 = 0x4010_0000_0000_0000;

/// Bit pattern of `24.0`.
pub const TWENTY_FOUR_BITS: u64 = 0x4038_0000_0000_0000;

/// Bit pattern of positive infinity; every finite positive number has a
/// smaller pattern.
pub const INFINITY_BITS: u64 = 0x7FF0_0000_0000_0000;

/// The sign bit, which is also the bit pattern of `-0.0`; a pattern below
/// it has its sign bit clear.
pub const SIGN_BITS: u64 = 0x8000_0000_0000_0000;

/// Bit pattern of the smallest positive normal number, `2^-1022`; the
/// positive subnormal numbers have the patterns between `0` and this one.
pub const MIN_NORMAL_BITS: u64 = 0x0010_0000_0000_0000;

/// Bit pattern of `2^-54`.
pub const TWO_POW_MINUS_54_BITS: u64 = 0x3C90_0000_0000_0000;

/// Trusted: `SoftF64::add` on the numbers with the given bit patterns.
/// The call is a pure integer computation on the two patterns; its result
/// is what `binary64_add` names.
#[verifier::external_body]
fn soft_add(a: u64, b: u64) -> (r: u64)
    ensures
        r == binary64_add(a, b),
{
    SoftF64::from_bits(a).add(SoftF64::from_bits(b)).to_bits()
}

/// Trusted: `SoftF64::mul` on the numbers with the given bit patterns.
/// The call is a pure integer computation on the two patterns; its result
/// is what `binary64_mul` names. The sign bit of a product is the
/// exclusive or of the operands' sign bits, and a NaN operand is handed on
/// with its sign, so operands with clear sign bits give a result with a
/// clear sign bit.
#[verifier::external_body]
fn soft_mul(a: u64, b: u64) -> (r: u64)
    ensures
        r == binary64_mul(a, b),
        a < SIGN_BITS && b < SIGN_BITS ==> r < SIGN_BITS,
{
    SoftF64::from_bits(a).mul(SoftF64::from_bits(b)).to_bits()
}

/// Trusted: `SoftF64::div` on the numbers with the given bit patterns.
/// Division by zero does not fail: it yields an infinity or a NaN. The
/// result is what `binary64_div` names.
#[verifier::external_body]
fn soft_div(a: u64, b: u64) -> (r: u64)
    ensures
        r == binary64_div(a, b),
{
    SoftF64::from_bits(a).div(SoftF64::from_bits(b)).to_bits()
}

/// Trusted: `SoftF64::sqrt` on the number with the given bit pattern.
/// A negative operand does not fail: it yields a NaN. The result is what
/// `binary64_sqrt` names. Positive subnormal operands are left out: to
/// normalise them the outside function shifts a machine word by up to 32
/// bits, which fails where a machine word has 32 bits. Zero, the normal
/// numbers and the infinities, the NaNs and every negative operand do not
/// reach that shift.
#[verifier::external_body]
fn soft_sqrt(a: u64) -> (r: u64)
    requires
        a == ZERO_BITS || a >= MIN_NORMAL_BITS,
    ensures
        r == binary64_sqrt(a),
{
    SoftF64::from_bits(a).sqrt().to_bits()
}

/// Trusted: `SoftF64::round` on the number with the given bit pattern.
/// The result is what `binary64_round` names.
#[verifier::external_body]
fn soft_round(a: u64) -> (r: u64)
    ensures
        r == binary64_round(a),
{
    SoftF64::from_bits(a).round().to_bits()
}

/// The bit pattern of the normal number `m * 2^(e - 1075)`, for a
/// significand `0 < m < 2^53` and an exponent field `e` large enough: the
/// significand is doubled and the exponent reduced by one, which keeps the
/// number, until the significand has 53 bits; then `e` is the exponent
/// field and `m - 2^52` the fraction field of the pattern.
pub open spec fn spec_normal_pattern(m: int, e: int) -> int
    decreases
            (if m < MIN_NORMAL_BITS {
                MIN_NORMAL_BITS - m
            } else {
                0
            }),
{
    if 0 < m < MIN_NORMAL_BITS {
        spec_normal_pattern(2 * m, e - 1)
    } else {
        e * MIN_NORMAL_BITS + (m - MIN_NORMAL_BITS)
    }
}

/// A binary64 number, identified with its bit pattern.
///
/// Two scalars are equal in specifications exactly when their bit patterns
/// are equal; this is finer than numeric equality (`0.0` and `-0.0` differ,
/// a NaN equals itself).
#[derive(Clone, Copy, Debug)]
pub struct Scalar {
    pub bits: u64,
}

impl Scalar {
    /// The scalar `0.0`.
    pub open spec fn spec_zero() -> Scalar {
        Scalar { bits: ZERO_BITS }
    }

    /// The scalar `0.5`.
    pub open spec fn spec_half() -> Scalar {
        Scalar { bits: HALF_BITS }
    }

    /// The scalar `1.0`.
    pub open spec fn spec_one() -> Scalar {
        Scalar { bits: ONE_BITS }
    }

    /// The scalar `2.0`.
    pub open spec fn spec_two() -> Scalar {
        Scalar { bits: TWO_BITS }
    }

    /// The scalar `3.0`.
    pub open spec fn spec_three() -> Scalar {
        Scalar { bits: THREE_BITS }
    }

    /// The scalar `4.0`.
    pub open spec fn spec_four() -> Scalar {
        Scalar { bits: FOUR_BITS }
    }

    /// The scalar `24.0`.
    pub open spec fn spec_twenty_four() -> Scalar {
        Scalar { bits: TWENTY_FOUR_BITS }
    }

    /// The sum `self + rhs`.
    pub open spec fn spec_add(self, rhs: Scalar) -> Scalar {
        Scalar { bits: binary64_add(self.bits, rhs.bits) }
    }

    /// The opposite number `-self`: the same pattern with the sign bit
    /// flipped.
    pub open spec fn spec_neg(self) -> Scalar {
        Scalar { bits: self.bits ^ SIGN_BITS }
    }

    /// The difference `self - rhs`, which is the sum `self + (-rhs)`.
    pub open spec fn spec_sub(self, rhs: Scalar) -> Scalar {
        self.spec_add(rhs.spec_neg())
    }

    /// The product `self * rhs`.
    pub open spec fn spec_mul(self, rhs: Scalar) -> Scalar {
        Scalar { bits: binary64_mul(self.bits, rhs.bits) }
    }

    /// The quotient `self / rhs`.
    pub open spec fn spec_div(self, rhs: Scalar) -> Scalar {
        Scalar { bits: binary64_div(self.bits, rhs.bits) }
    }

    /// Whether the scalar is a positive subnormal number: greater than
    /// zero and below `2^-1022`.
    pub open spec fn spec_is_subnormal(self) -> bool {
        ZERO_BITS < self.bits < MIN_NORMAL_BITS
    }

    /// For a positive subnormal number, which is `bits * 2^-1074`: the
    /// normal number `self * 2^108`, which is `bits * 2^(109 - 1075)`.
    pub open spec fn spec_scaled_up(self) -> Scalar {
        Scalar { bits: spec_normal_pattern(self.bits as int, 109) as u64 }
    }

    /// The square root of `self`. A positive subnormal number is first
    /// scaled into the normal range: its root is `sqrt(self * 2^108) *
    /// 2^-54`.
    pub open spec fn spec_sqrt(self) -> Scalar {
        if self.spec_is_subnormal() {
            Scalar { bits: binary64_sqrt(self.spec_scaled_up().bits) }.spec_mul(
                Scalar { bits: TWO_POW_MINUS_54_BITS },
            )
        } else {
            Scalar { bits: binary64_sqrt(self.bits) }
        }
    }

    /// The integer nearest to `self`, halfway cases away from zero.
    pub open spec fn spec_round(self) -> Scalar {
        Scalar { bits: binary64_round(self.bits) }
    }

    /// Whether the scalar is `0.0` or `-0.0`.
    pub open spec fn spec_is_zero(self) -> bool {
        self.bits == ZERO_BITS || self.bits == SIGN_BITS
    }

    /// Whether the sign bit is clear: the scalar is `0.0`, a positive
    /// number, positive infinity, or a NaN without sign.
    pub open spec fn spec_is_sign_positive(self) -> bool {
        self.bits < SIGN_BITS
    }

    /// Whether the scalar is a finite number greater than zero: its sign bit
    /// is clear, and its pattern lies strictly between those of `0.0` and
    /// positive infinity.
    pub open spec fn spec_is_positive(self) -> bool {
        ZERO_BITS < self.bits < INFINITY_BITS
    }

    /// The number obtained by counting to `n` in steps of `1.0`, starting
    /// from `0.0`.
    pub open spec fn spec_from_count(n: nat) -> Scalar
        decreases n,
    {
        if n == 0 {
            Self::spec_zero()
        } else {
            Self::spec_from_count((n - 1) as nat).spec_add(Self::spec_one())
        }
    }

    /// The scalar with the given bit pattern.
    pub fn from_bits(bits: u64) -> (r: Scalar)
        ensures
            r.bits == bits,
    {
        Scalar { bits }
    }

    /// The bit pattern of the scalar.
    pub fn to_bits(self) -> (r: u64)
        ensures
            r == self.bits,
    {
        self.bits
    }

    /// The scalar `0.0`.
    #[verifier::when_used_as_spec(spec_zero)]
    pub fn zero() -> (r: Scalar)
        ensures
            r == Self::spec_zero(),
    {
        Scalar { bits: ZERO_BITS }
    }

    /// The scalar `0.5`.
    #[verifier::when_used_as_spec(spec_half)]
    pub fn half() -> (r: Scalar)
        ensures
            r == Self::spec_half(),
    {
        Scalar { bits: HALF_BITS }
    }

    /// The scalar `1.0`.
    #[verifier::when_used_as_spec(spec_one)]
    pub fn one() -> (r: Scalar)
        ensures
            r == Self::spec_one(),
    {
        Scalar { bits: ONE_BITS }
    }

    /// The scalar `2.0`.
    #[verifier::when_used_as_spec(spec_two)]
    pub fn two() -> (r: Scalar)
        ensures
            r == Self::spec_two(),
    {
        Scalar { bits: TWO_BITS }
    }

    /// The scalar `3.0`.
    #[verifier::when_used_as_spec(spec_three)]
    pub fn three() -> (r: Scalar)
        ensures
            r == Self::spec_three(),
    {
        Scalar { bits: THREE_BITS }
    }

    /// The scalar `4.0`.
    #[verifier::when_used_as_spec(spec_four)]
    pub fn four() -> (r: Scalar)
        ensures
            r == Self::spec_four(),
    {
        Scalar { bits: FOUR_BITS }
    }

    /// The scalar `24.0`.
    #[verifier::when_used_as_spec(spec_twenty_four)]
    pub fn twenty_four() -> (r: Scalar)
        ensures
            r == Self::spec_twenty_four(),
    {
        Scalar { bits: TWENTY_FOUR_BITS }
    }

    /// `self + rhs`.
    #[verifier::when_used_as_spec(spec_add)]
    pub fn add(self, rhs: Scalar) -> (r: Scalar)
        ensures
            r == self.spec_add(rhs),
    {
        Scalar { bits: soft_add(self.bits, rhs.bits) }
    }

    /// `-self`.
    #[verifier::when_used_as_spec(spec_neg)]
    pub fn neg(self) -> (r: Scalar)
        ensures
            r == self.spec_neg(),
    {
        Scalar { bits: self.bits ^ SIGN_BITS }
    }

    /// `self - rhs`, computed as `self + (-rhs)`.
    #[verifier::when_used_as_spec(spec_sub)]
    pub fn sub(self, rhs: Scalar) -> (r: Scalar)
        ensures
            r == self.spec_sub(rhs),
    {
        self.add(rhs.neg())
    }

    /// `self * rhs`. Two operands without sign give a product without sign.
    #[verifier::when_used_as_spec(spec_mul)]
    pub fn mul(self, rhs: Scalar) -> (r: Scalar)
        ensures
            r == self.spec_mul(rhs),
            self.spec_is_sign_positive() && rhs.spec_is_sign_positive()
                ==> r.spec_is_sign_positive(),
    {
        Scalar { bits: soft_mul(self.bits, rhs.bits) }
    }

    /// `self / rhs`. A zero divisor gives an infinity or a NaN.
    #[verifier::when_used_as_spec(spec_div)]
    pub fn div(self, rhs: Scalar) -> (r: Scalar)
        ensures
            r == self.spec_div(rhs),
    {
        Scalar { bits: soft_div(self.bits, rhs.bits) }
    }

    /// Whether the scalar is a positive subnormal number.
    #[verifier::when_used_as_spec(spec_is_subnormal)]
    pub fn is_subnormal(self) -> (r: bool)
        ensures
            r == self.spec_is_subnormal(),
    {
        ZERO_BITS < self.bits && self.bits < MIN_NORMAL_BITS
    }

    /// The square root of `self`. A negative operand gives a NaN.
    #[verifier::when_used_as_spec(spec_sqrt)]
    pub fn sqrt(self) -> (r: Scalar)
        ensures
            r == self.spec_sqrt(),
    {
        if self.is_subnormal() {
            let scaled = self.scaled_up();
            Scalar { bits: soft_sqrt(scaled.bits) }.mul(Scalar { bits: TWO_POW_MINUS_54_BITS })
        } else {
            Scalar { bits: soft_sqrt(self.bits) }
        }
    }

    /// A positive subnormal number times `2^108`, which is a normal number
    /// and exact. It is made on the bit pattern: the significand is shifted
    /// up to 53 bits, and the exponent field counts the shifts down from
    /// 109.
    pub fn scaled_up(self) -> (r: Scalar)
        requires
            self.spec_is_subnormal(),
        ensures
            r == self.spec_scaled_up(),
            MIN_NORMAL_BITS <= r.bits < INFINITY_BITS,
    {
        let mut m: u64 = self.bits;
        let mut e: u64 = 109;
        proof {
            lemma2_to64_rest();
            assert(pow2(0) == 1) by {
                vstd::arithmetic::power2::lemma2_to64();
            }
        }
        while m < MIN_NORMAL_BITS
            invariant
                0 < m < 2 * MIN_NORMAL_BITS,
                57 <= e <= 109,
                pow2((109 - e) as nat) <= m,
                pow2(52) == MIN_NORMAL_BITS,
                spec_normal_pattern(m as int, e as int) == spec_normal_pattern(
                    self.bits as int,
                    109,
                ),
            decreases
                    (if m < MIN_NORMAL_BITS {
                        MIN_NORMAL_BITS - m
                    } else {
                        0
                    }),
        {
            proof {
                if 109 - e > 52 {
                    lemma_pow2_strictly_increases(52, (109 - e) as nat);
                }
                lemma_pow2_unfold((110 - e) as nat);
            }
            m = 2 * m;
            e = e - 1;
        }
        Scalar { bits: e * MIN_NORMAL_BITS + (m - MIN_NORMAL_BITS) }
    }

    /// The integer nearest to `self`, halfway cases away from zero.
    #[verifier::when_used_as_spec(spec_round)]
    pub fn round(self) -> (r: Scalar)
        ensures
            r == self.spec_round(),
    {
        Scalar { bits: soft_round(self.bits) }
    }

    /// Whether the scalar is `0.0` or `-0.0`.
    #[verifier::when_used_as_spec(spec_is_zero)]
    pub fn is_zero(self) -> (r: bool)
        ensures
            r == self.spec_is_zero(),
    {
        self.bits == ZERO_BITS || self.bits == SIGN_BITS
    }

    /// Whether the sign bit is clear.
    #[verifier::when_used_as_spec(spec_is_sign_positive)]
    pub fn is_sign_positive(self) -> (r: bool)
        ensures
            r == self.spec_is_sign_positive(),
    {
        self.bits < SIGN_BITS
    }

    /// Whether the scalar is a finite number greater than zero.
    #[verifier::when_used_as_spec(spec_is_positive)]
    pub fn is_positive(self) -> (r: bool)
        ensures
            r == self.spec_is_positive(),
    {
        ZERO_BITS < self.bits && self.bits < INFINITY_BITS
    }

    /// The number of items `n` as a scalar, obtained by counting in steps
    /// of `1.0`.
    pub fn from_count(n: usize) -> (r: Scalar)
        ensures
            r == Self::spec_from_count(n as nat),
    {
        let mut r = Scalar::zero();
        let mut i: usize = 0;
        while i < n
            invariant
                i <= n,
                r == Self::spec_from_count(i as nat),
            decreases n - i,
        {
            r = r.add(Scalar::one());
            i = i + 1;
        }
        r
    }
}

impl View for Scalar {
    type V = Scalar;

    /// A value of this type is its own mathematical model.
    open spec fn view(&self) -> Scalar {
        *self
    }
}

} // verus!
