use vstd::prelude::*;

use rust_decimal::prelude::{FromPrimitive, ToPrimitive};
use rust_decimal::Decimal;

verus! {

/// A decimal number held as `rust_decimal` holds it: a 96-bit magnitude in three
/// 32-bit words, a sign, and a scale, the power of ten that divides the magnitude.
#[derive(Debug, Clone, Copy, PartialEq, Eq)]
pub struct Dec {
    pub lo: u32,
    pub mid: u32,
    pub hi: u32,
    pub negative: bool,
    pub scale: u32,
}

/// `10` to the power `n`.
pub open spec fn pow10(n: nat) -> nat
    decreases n,
{
    if n == 0 {
        1
    } else {
        10 * pow10((n - 1) as nat)
    }
}

impl Dec {
    /// The scale is one that `rust_decimal` accepts.
    pub open spec fn wf(self) -> bool {
        self.scale <= 28
    }

    /// The 96-bit magnitude.
    pub open spec fn magnitude(self) -> nat {
        self.hi as nat * 0x1_0000_0000_0000_0000 + self.mid as nat * 0x1_0000_0000
            + self.lo as nat
    }

    /// The signed magnitude: the value times `10^scale`.
    pub open spec fn numerator(self) -> int {
        if self.negative {
            -(self.magnitude() as int)
        } else {
            self.magnitude() as int
        }
    }

    /// The integer part of the magnitude.
    pub open spec fn truncated_magnitude(self) -> nat {
        self.magnitude() / pow10(self.scale as nat)
    }
}

/// `a >= b` as numbers.
pub open spec fn dec_ge(a: Dec, b: Dec) -> bool {
    a.numerator() * pow10(b.scale as nat) >= b.numerator() * pow10(a.scale as nat)
}

/// The decimal that holds the integer `n` with scale zero.
pub open spec fn dec_of_u64(n: u64) -> Dec {
    Dec {
        lo: (n % 0x1_0000_0000) as u32,
        mid: (n / 0x1_0000_0000) as u32,
        hi: 0,
        negative: false,
        scale: 0,
    }
}

/// The integer part of a decimal when it is neither negative nor too large for a `u64`.
pub open spec fn dec_to_u64(d: Dec) -> Option<u64> {
    if d.negative && d.magnitude() != 0 {
        None
    } else if d.truncated_magnitude() <= u64::MAX {
        Some(d.truncated_magnitude() as u64)
    } else {
        None
    }
}

/// What `Decimal::checked_mul` gives for two decimals.
pub uninterp spec fn decimal_product(a: Dec, b: Dec) -> Option<Dec>;

/// What `Decimal::checked_add` gives for two decimals.
pub uninterp spec fn decimal_sum(a: Dec, b: Dec) -> Option<Dec>;

/// What `Decimal::checked_div` gives for two decimals.
pub uninterp spec fn decimal_quotient(a: Dec, b: Dec) -> Option<Dec>;

/// Calls `FromPrimitive::from_u64` of `rust_decimal::Decimal`.
/// Claimed, as its source shows: always `Some`, the magnitude being `n` and the scale zero.
#[verifier::external_body]
pub(crate) fn decimal_from_u64(n: u64) -> (r: Option<Dec>)
    ensures
        r == Some(dec_of_u64(n)),
{
    match <Decimal as FromPrimitive>::from_u64(n) {
        Some(d) => {
            let u = d.unpack();
            Some(Dec { lo: u.lo, mid: u.mid, hi: u.hi, negative: u.negative, scale: u.scale })
        },
        None => None,
    }
}

/// The largest magnitude that a decimal holds: `2^96 - 1`.
pub open spec fn max_magnitude() -> int {
    0xffff_ffff_ffff_ffff_ffff_ffff
}

/// Calls `Decimal::from_i128_with_scale` of `rust_decimal`.
/// Claimed, as its source shows: the magnitude is that of `num`, the sign is that of
/// `num` (a zero is not negative) and the scale is `scale`; it panics for a scale above
/// 28 or a magnitude beyond 96 bits.
#[verifier::external_body]
pub(crate) fn decimal_from_i128_with_scale(num: i128, scale: u32) -> (r: Dec)
    requires
        scale <= 28,
        -max_magnitude() <= num <= max_magnitude(),
    ensures
        r.magnitude() == (if num < 0 { -num } else { num as int }),
        r.negative == (num < 0),
        r.scale == scale,
{
    let u = Decimal::from_i128_with_scale(num, scale).unpack();
    Dec { lo: u.lo, mid: u.mid, hi: u.hi, negative: u.negative, scale: u.scale }
}

/// The decimal zero that `rust_decimal` gives for a product with a zero factor.
pub open spec fn dec_zero() -> Dec {
    Dec { lo: 0, mid: 0, hi: 0, negative: false, scale: 0 }
}

/// Both factors are non-zero, and their product fits 96 bits with a scale of at most 28.
pub open spec fn product_is_exact(a: Dec, b: Dec) -> bool {
    &&& a.magnitude() != 0
    &&& b.magnitude() != 0
    &&& a.magnitude() * b.magnitude() <= max_magnitude()
    &&& a.scale + b.scale <= 28
}

/// The decimal with magnitude `m`, the given sign and scale, in its three words.
pub open spec fn dec_of_parts(m: nat, negative: bool, scale: nat) -> Dec {
    Dec {
        lo: (m % 0x1_0000_0000) as u32,
        mid: ((m / 0x1_0000_0000) % 0x1_0000_0000) as u32,
        hi: (m / 0x1_0000_0000_0000_0000) as u32,
        negative,
        scale: scale as u32,
    }
}

/// The exact product of two decimals: the magnitudes multiply, the signs combine and the
/// scales add.
pub open spec fn exact_product(a: Dec, b: Dec) -> Dec {
    dec_of_parts(a.magnitude() * b.magnitude(), a.negative != b.negative, (a.scale + b.scale) as nat)
}

/// The larger of the two scales.
pub open spec fn common_scale(a: Dec, b: Dec) -> nat {
    if a.scale >= b.scale {
        a.scale as nat
    } else {
        b.scale as nat
    }
}

/// The magnitude of `a` plus that of `b`, both brought to their common scale.
pub open spec fn aligned_sum(a: Dec, b: Dec) -> nat {
    a.magnitude() * pow10((common_scale(a, b) - a.scale) as nat) + b.magnitude() * pow10(
        (common_scale(a, b) - b.scale) as nat,
    )
}

/// Both summands are non-zero and of one sign, and their sum at the common scale fits 96
/// bits.
pub open spec fn sum_is_exact(a: Dec, b: Dec) -> bool {
    &&& a.magnitude() != 0
    &&& b.magnitude() != 0
    &&& a.negative == b.negative
    &&& aligned_sum(a, b) <= max_magnitude()
}

/// The exact sum of two decimals of one sign, at their common scale.
pub open spec fn exact_sum(a: Dec, b: Dec) -> Dec {
    dec_of_parts(aligned_sum(a, b), a.negative, common_scale(a, b))
}

/// Both operands are non-zero, the dividend's scale is at least the divisor's, and the
/// divisor's magnitude divides the dividend's.
pub open spec fn quotient_is_exact(a: Dec, b: Dec) -> bool {
    &&& a.magnitude() != 0
    &&& b.magnitude() != 0
    &&& a.scale >= b.scale
    &&& a.magnitude() % b.magnitude() == 0
}

/// The exact quotient of two decimals: the magnitudes divide, the signs combine and the
/// scales subtract.
pub open spec fn exact_quotient(a: Dec, b: Dec) -> Dec {
    dec_of_parts(a.magnitude() / b.magnitude(), a.negative != b.negative, (a.scale - b.scale) as nat)
}

/// Calls `Decimal::checked_mul` of `rust_decimal` on the two decimals built by
/// `Decimal::from_parts`. Claimed: the result is named `decimal_product`, and a
/// result has a scale of at most 28; as its source shows, a product with a zero factor
/// is zero with scale zero, and a product of non-zero factors whose magnitude fits 96
/// bits and whose scales add up to at most 28 is exact: the magnitudes multiply, the
/// signs combine and the scales add. How it rounds a product that does not fit is
/// left unsaid.
#[verifier::external_body]
pub(crate) fn decimal_checked_mul(a: &Dec, b: &Dec) -> (r: Option<Dec>)
    requires
        a.wf(),
        b.wf(),
    ensures
        r == decimal_product(*a, *b),
        r matches Some(d) ==> d.wf(),
        (a.magnitude() == 0 || b.magnitude() == 0) ==> r == Some(dec_zero()),
        product_is_exact(*a, *b) ==> r == Some(exact_product(*a, *b)),
{
    let x = Decimal::from_parts(a.lo, a.mid, a.hi, a.negative, a.scale);
    let y = Decimal::from_parts(b.lo, b.mid, b.hi, b.negative, b.scale);
    match x.checked_mul(y) {
        Some(d) => {
            let u = d.unpack();
            Some(Dec { lo: u.lo, mid: u.mid, hi: u.hi, negative: u.negative, scale: u.scale })
        },
        None => None,
    }
}

/// Calls `Decimal::checked_add` of `rust_decimal` on the two decimals built by
/// `Decimal::from_parts`. Claimed: the result is named `decimal_sum`, and a result
/// has a scale of at most 28; as its source shows, a zero summand gives the other one
/// back, and a sum of two non-zero decimals of one sign whose magnitude, at the larger
/// scale, fits 96 bits is exact. How it rounds a sum that does not fit is left unsaid.
#[verifier::external_body]
pub(crate) fn decimal_checked_add(a: &Dec, b: &Dec) -> (r: Option<Dec>)
    requires
        a.wf(),
        b.wf(),
    ensures
        r == decimal_sum(*a, *b),
        r matches Some(d) ==> d.wf(),
        a.magnitude() == 0 && b.magnitude() != 0 ==> r == Some(*b),
        b.magnitude() == 0 && a.magnitude() != 0 ==> r == Some(*a),
        sum_is_exact(*a, *b) ==> r == Some(exact_sum(*a, *b)),
{
    let x = Decimal::from_parts(a.lo, a.mid, a.hi, a.negative, a.scale);
    let y = Decimal::from_parts(b.lo, b.mid, b.hi, b.negative, b.scale);
    match x.checked_add(y) {
        Some(d) => {
            let u = d.unpack();
            Some(Dec { lo: u.lo, mid: u.mid, hi: u.hi, negative: u.negative, scale: u.scale })
        },
        None => None,
    }
}

/// Calls `Decimal::checked_div` of `rust_decimal` on the two decimals built by
/// `Decimal::from_parts`. Claimed: the result is named `decimal_quotient`, it is
/// `None` when the divisor is zero, and a result has a scale of at most 28; as its
/// source shows, a quotient whose divisor's magnitude divides the dividend's, with the
/// dividend's scale at least the divisor's, is exact: the magnitudes divide, the signs
/// combine and the scales subtract. How it rounds any other quotient is left unsaid.
#[verifier::external_body]
pub(crate) fn decimal_checked_div(a: &Dec, b: &Dec) -> (r: Option<Dec>)
    requires
        a.wf(),
        b.wf(),
    ensures
        r == decimal_quotient(*a, *b),
        b.magnitude() == 0 ==> r is None,
        r matches Some(d) ==> d.wf(),
        quotient_is_exact(*a, *b) ==> r == Some(exact_quotient(*a, *b)),
{
    let x = Decimal::from_parts(a.lo, a.mid, a.hi, a.negative, a.scale);
    let y = Decimal::from_parts(b.lo, b.mid, b.hi, b.negative, b.scale);
    match x.checked_div(y) {
        Some(d) => {
            let u = d.unpack();
            Some(Dec { lo: u.lo, mid: u.mid, hi: u.hi, negative: u.negative, scale: u.scale })
        },
        None => None,
    }
}

/// Calls `>=` (`PartialOrd::ge`) of `rust_decimal::Decimal` on the two decimals built
/// by `Decimal::from_parts`. Claimed, as its source shows: it compares the numbers.
#[verifier::external_body]
pub(crate) fn decimal_ge(a: &Dec, b: &Dec) -> (r: bool)
    requires
        a.wf(),
        b.wf(),
    ensures
        r == dec_ge(*a, *b),
{
    Decimal::from_parts(a.lo, a.mid, a.hi, a.negative, a.scale) >= Decimal::from_parts(
        b.lo,
        b.mid,
        b.hi,
        b.negative,
        b.scale,
    )
}

/// Calls `ToPrimitive::to_u64` of `rust_decimal::Decimal` on the decimal built by
/// `Decimal::from_parts`. Claimed, as its source shows: `None` for a negative number
/// (a zero is never negative after `from_parts`), else the integer part when it fits.
#[verifier::external_body]
pub(crate) fn decimal_to_u64(d: &Dec) -> (r: Option<u64>)
    requires
        d.wf(),
    ensures
        r == dec_to_u64(*d),
{
    Decimal::from_parts(d.lo, d.mid, d.hi, d.negative, d.scale).to_u64()
}

/// A power of ten is positive.
pub proof fn lemma_pow10_positive(n: nat)
    ensures
        pow10(n) >= 1,
    decreases n,
{
    if n > 0 {
        lemma_pow10_positive((n - 1) as nat);
    }
}

/// The decimal of an integer holds that integer.
pub proof fn lemma_dec_of_u64(n: u64)
    ensures
        dec_of_u64(n).magnitude() == n,
        dec_of_u64(n).numerator() == n,
        dec_of_u64(n).wf(),
{
}

/// The words of an exact product hold the product of the magnitudes, signed as the
/// product of the numerators.
pub proof fn lemma_exact_product(a: Dec, b: Dec)
    requires
        product_is_exact(a, b),
    ensures
        exact_product(a, b).magnitude() == a.magnitude() * b.magnitude(),
        exact_product(a, b).numerator() == a.numerator() * b.numerator(),
        exact_product(a, b).scale == a.scale + b.scale,
{
    let m = a.magnitude() * b.magnitude();
    let p = exact_product(a, b);
    assert(p.magnitude() == m) by {
        assert(m < 0x1_0000_0000_0000_0000_0000_0000);
        assert(m / 0x1_0000_0000_0000_0000 < 0x1_0000_0000);
        assert(m == (m / 0x1_0000_0000_0000_0000) * 0x1_0000_0000_0000_0000 + ((m / 0x1_0000_0000)
            % 0x1_0000_0000) * 0x1_0000_0000 + m % 0x1_0000_0000) by (nonlinear_arith)
            requires
                m >= 0,
        ;
    }
    let ma = a.magnitude() as int;
    let mb = b.magnitude() as int;
    if a.negative && b.negative {
        assert((-ma) * (-mb) == ma * mb) by (nonlinear_arith);
    } else if a.negative {
        assert((-ma) * mb == -(ma * mb)) by (nonlinear_arith);
    } else if b.negative {
        assert(ma * (-mb) == -(ma * mb)) by (nonlinear_arith);
    }
}

} // verus!
