//! Signed fixed-point numbers with 80 integer bits and 48 fractional bits.
//!
//! A number is held as its raw 128-bit two's-complement pattern `bits`; the
//! value it stands for is `bits / 2^48`. All contracts speak of the raw
//! pattern as a mathematical integer, so no rounding is hidden in them:
//! every operation says which integer comes out and when none does.
//!
//! Multiplication and division need a 256-bit intermediate. They are
//! delegated to the `fixed` crate, whose behaviour is stated on the two
//! private functions at the end of the first part of this file.

use vstd::prelude::*;

verus! {

/// The raw pattern of the value one: `2^48`.
pub open spec fn scale() -> int {
    0x1_0000_0000_0000
}

/// Whether an integer is the raw pattern of some representable number.
pub open spec fn fits_i128(x: int) -> bool {
    i128::MIN <= x <= i128::MAX
}

/// Quotient of `n` by a non-zero `d`, rounded toward zero.
pub open spec fn trunc_div(n: int, d: int) -> int {
    if n >= 0 && d > 0 {
        n / d
    } else if n >= 0 {
        -(n / (-d))
    } else if d > 0 {
        -((-n) / d)
    } else {
        (-n) / (-d)
    }
}

/// Raw pattern of a product: the exact product of the two patterns divided
/// by `2^48` and rounded toward negative infinity, if that is representable.
pub open spec fn spec_mul_bits(a: int, b: int) -> Option<i128> {
    let p = (a * b) / scale();
    if fits_i128(p) {
        Some(p as i128)
    } else {
        None
    }
}

/// Raw pattern of a quotient: the dividend's pattern times `2^48`, divided by
/// the divisor's pattern and rounded toward zero, if the divisor is not zero
/// and the quotient is representable.
pub open spec fn spec_div_bits(a: int, b: int) -> Option<i128> {
    if b == 0 {
        None
    } else {
        let q = trunc_div(a * scale(), b);
        if fits_i128(q) {
            Some(q as i128)
        } else {
            None
        }
    }
}

/// Ten to the power `n`.
pub open spec fn spec_pow10(n: nat) -> int
    decreases n,
{
    if n == 0 {
        1
    } else {
        10 * spec_pow10((n - 1) as nat)
    }
}

/// Powers of ten are positive and grow with the exponent.
pub proof fn lemma_pow10_monotonic(a: nat, b: nat)
    requires
        a <= b,
    ensures
        0 < spec_pow10(a) <= spec_pow10(b),
    decreases b,
{
    if a < b {
        lemma_pow10_monotonic(a, (b - 1) as nat);
    } else if a > 0 {
        lemma_pow10_monotonic((a - 1) as nat, (b - 1) as nat);
    }
}

/// The largest power of ten that is representable, and the first that is not.
pub proof fn lemma_pow10_limits()
    ensures
        spec_pow10(23) == 100_000_000_000_000_000_000_000,
        spec_pow10(24) == 1_000_000_000_000_000_000_000_000,
{
    reveal_with_fuel(spec_pow10, 26);
}

/// Trusted: `fixed::types::I80F48::checked_mul` on two numbers given by their
/// raw patterns. The crate forms the full 256-bit product, shifts it right
/// arithmetically by 48 bits and reports overflow when the shifted product
/// does not fit in 128 bits; the contract says exactly that.
#[verifier::external_body]
fn mul_bits(a: i128, b: i128) -> (r: Option<i128>)
    ensures
        r == spec_mul_bits(a as int, b as int),
{
    let x = fixed::types::I80F48::from_bits(a);
    let y = fixed::types::I80F48::from_bits(b);
    match x.checked_mul(y) {
        Some(p) => Some(p.to_bits()),
        None => None,
    }
}

/// Trusted: `fixed::types::I80F48::checked_div` on two numbers given by their
/// raw patterns. The crate returns nothing for a zero divisor; otherwise it
/// shifts the dividend left by 48 bits into a 256-bit value, divides the
/// magnitudes, restores the sign (so the quotient is rounded toward zero) and
/// reports overflow when the quotient does not fit in 128 bits.
#[verifier::external_body]
fn div_bits(a: i128, b: i128) -> (r: Option<i128>)
    ensures
        r == spec_div_bits(a as int, b as int),
{
    let x = fixed::types::I80F48::from_bits(a);
    let y = fixed::types::I80F48::from_bits(b);
    match x.checked_div(y) {
        Some(q) => Some(q.to_bits()),
        None => None,
    }
}

/// A fixed-point number with 48 fractional bits, stored as its raw pattern.
#[derive(Clone, Copy, Debug, PartialEq, Eq, Structural)]
pub struct I80F48 {
    pub bits: i128,
}

impl I80F48 {
    /// The number with raw pattern zero.
    pub open spec fn spec_zero() -> I80F48 {
        I80F48 { bits: 0 }
    }

    /// The number one.
    pub open spec fn spec_one() -> I80F48 {
        I80F48 { bits: 0x1_0000_0000_0000 }
    }

    /// The number that stands for the integer `n`, when it is representable.
    pub open spec fn spec_from_int(n: int) -> Option<I80F48> {
        if fits_i128(n * scale()) {
            Some(I80F48 { bits: (n * scale()) as i128 })
        } else {
            None
        }
    }

    /// Sum of two numbers, if representable.
    pub open spec fn spec_checked_add(self, rhs: I80F48) -> Option<I80F48> {
        if fits_i128(self.bits + rhs.bits) {
            Some(I80F48 { bits: (self.bits + rhs.bits) as i128 })
        } else {
            None
        }
    }

    /// Difference of two numbers, if representable.
    pub open spec fn spec_checked_sub(self, rhs: I80F48) -> Option<I80F48> {
        if fits_i128(self.bits - rhs.bits) {
            Some(I80F48 { bits: (self.bits - rhs.bits) as i128 })
        } else {
            None
        }
    }

    /// Product of two numbers rounded toward negative infinity, if representable.
    pub open spec fn spec_checked_mul(self, rhs: I80F48) -> Option<I80F48> {
        match spec_mul_bits(self.bits as int, rhs.bits as int) {
            Some(b) => Some(I80F48 { bits: b }),
            None => None,
        }
    }

    /// Quotient of two numbers rounded toward zero, if the divisor is not zero
    /// and the quotient is representable.
    pub open spec fn spec_checked_div(self, rhs: I80F48) -> Option<I80F48> {
        match spec_div_bits(self.bits as int, rhs.bits as int) {
            Some(b) => Some(I80F48 { bits: b }),
            None => None,
        }
    }

    /// The greatest integer that is not above the number.
    pub open spec fn spec_floor(self) -> int {
        self.bits as int / scale()
    }

    /// The number with the given raw pattern.
    pub fn from_bits(bits: i128) -> (r: I80F48)
        ensures
            r.bits == bits,
    {
        I80F48 { bits }
    }

    /// The raw pattern of the number.
    pub fn to_bits(self) -> (r: i128)
        ensures
            r == self.bits,
    {
        self.bits
    }

    /// The number zero.
    pub fn zero() -> (r: I80F48)
        ensures
            r == I80F48::spec_zero(),
    {
        I80F48 { bits: 0 }
    }

    /// The number one.
    pub fn one() -> (r: I80F48)
        ensures
            r == I80F48::spec_one(),
    {
        I80F48 { bits: 0x1_0000_0000_0000 }
    }

    /// Whether the number is zero.
    pub fn is_zero(self) -> (r: bool)
        ensures
            r == (self.bits == 0),
    {
        self.bits == 0
    }

    /// Whether the number is below zero.
    pub fn is_negative(self) -> (r: bool)
        ensures
            r == (self.bits < 0),
    {
        self.bits < 0
    }

    /// Whether the number is above zero.
    pub fn is_positive(self) -> (r: bool)
        ensures
            r == (self.bits > 0),
    {
        self.bits > 0
    }

    /// `self < rhs` as numbers.
    pub fn lt(self, rhs: I80F48) -> (r: bool)
        ensures
            r == (self.bits < rhs.bits),
    {
        self.bits < rhs.bits
    }

    /// `self > rhs` as numbers.
    pub fn gt(self, rhs: I80F48) -> (r: bool)
        ensures
            r == (self.bits > rhs.bits),
    {
        self.bits > rhs.bits
    }

    /// The smaller of two numbers.
    pub fn min(self, rhs: I80F48) -> (r: I80F48)
        ensures
            r == (if self.bits <= rhs.bits {
                self
            } else {
                rhs
            }),
    {
        if self.bits <= rhs.bits {
            self
        } else {
            rhs
        }
    }

    /// The number that stands for an unsigned 64-bit integer. Always
    /// representable: the integer part has 80 bits.
    pub fn from_u64(n: u64) -> (r: I80F48)
        ensures
            Some(r) == I80F48::spec_from_int(n as int),
    {
        let wide: i128 = n as i128;
        I80F48 { bits: wide * 0x1_0000_0000_0000 }
    }

    /// The number that stands for a signed 64-bit integer.
    pub fn from_i64(n: i64) -> (r: I80F48)
        ensures
            Some(r) == I80F48::spec_from_int(n as int),
    {
        let wide: i128 = n as i128;
        I80F48 { bits: wide * 0x1_0000_0000_0000 }
    }

    /// The number that stands for an unsigned 32-bit integer.
    pub fn from_u32(n: u32) -> (r: I80F48)
        ensures
            Some(r) == I80F48::spec_from_int(n as int),
    {
        I80F48::from_u64(n as u64)
    }

    /// The number that stands for a signed 128-bit integer, or `None` when
    /// the integer needs more than 80 bits.
    pub fn checked_from_i128(n: i128) -> (r: Option<I80F48>)
        ensures
            r == I80F48::spec_from_int(n as int),
    {
        match n.checked_mul(0x1_0000_0000_0000) {
            Some(bits) => Some(I80F48 { bits }),
            None => None,
        }
    }

    /// Ten to the power `n` as a number, or `None` from `10^24` on, which the
    /// 80 integer bits cannot hold.
    pub fn exp10(n: u32) -> (r: Option<I80F48>)
        ensures
            r == I80F48::spec_from_int(spec_pow10(n as nat)),
            r is Some <==> n <= 23,
    {
        if n > 23 {
            proof {
                lemma_pow10_monotonic(24, n as nat);
                lemma_pow10_limits();
            }
            return None;
        }
        let mut acc: i128 = 1;
        let mut i: u32 = 0;
        while i < n
            invariant
                i <= n <= 23,
                acc == spec_pow10(i as nat),
            decreases n - i,
        {
            proof {
                lemma_pow10_monotonic((i + 1) as nat, 23);
                lemma_pow10_limits();
            }
            acc = acc * 10;
            i += 1;
        }
        proof {
            lemma_pow10_monotonic(n as nat, 23);
            lemma_pow10_limits();
        }
        Some(I80F48 { bits: acc * 0x1_0000_0000_0000 })
    }

    /// The integer part, rounded toward negative infinity.
    pub fn floor(self) -> (r: i128)
        ensures
            r == self.spec_floor(),
    {
        match self.bits.checked_div_euclid(0x1_0000_0000_0000) {
            Some(q) => q,
            None => {
                assert(false);
                0
            },
        }
    }

    /// Sum, or `None` when it is not representable.
    pub fn checked_add(self, rhs: I80F48) -> (r: Option<I80F48>)
        ensures
            r == self.spec_checked_add(rhs),
    {
        match self.bits.checked_add(rhs.bits) {
            Some(bits) => Some(I80F48 { bits }),
            None => None,
        }
    }

    /// Difference, or `None` when it is not representable.
    pub fn checked_sub(self, rhs: I80F48) -> (r: Option<I80F48>)
        ensures
            r == self.spec_checked_sub(rhs),
    {
        match self.bits.checked_sub(rhs.bits) {
            Some(bits) => Some(I80F48 { bits }),
            None => None,
        }
    }

    /// Product rounded toward negative infinity, or `None` when it is not
    /// representable.
    pub fn checked_mul(self, rhs: I80F48) -> (r: Option<I80F48>)
        ensures
            r == self.spec_checked_mul(rhs),
    {
        match mul_bits(self.bits, rhs.bits) {
            Some(bits) => Some(I80F48 { bits }),
            None => None,
        }
    }

    /// Quotient rounded toward zero, or `None` when the divisor is zero or
    /// the quotient is not representable.
    pub fn checked_div(self, rhs: I80F48) -> (r: Option<I80F48>)
        ensures
            r == self.spec_checked_div(rhs),
    {
        match div_bits(self.bits, rhs.bits) {
            Some(bits) => Some(I80F48 { bits }),
            None => None,
        }
    }
}

} // verus!
