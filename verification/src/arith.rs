//! Fixed-point fractions and overflow-aware integer helpers.
use vstd::prelude::*;

verus! {

/// Number of parts that make one whole [`Permill`].
pub const PERMILL_ACCURACY: u32 = 1_000_000;

/// A fraction in `[0, 1]`, counted in millionths.
#[derive(Clone, Copy, Debug, PartialEq, Eq, Structural)]
pub struct Permill {
    pub parts: u32,
}

/// `floor(value * parts / 1_000_000)`.
pub open spec fn spec_mul_floor(parts: u32, value: u128) -> nat {
    ((value as nat) * (parts as nat) / 1_000_000) as nat
}

/// `floor(a * b / c)`, the exact rational product.
pub open spec fn spec_mul_div(a: u128, b: u128, c: u128) -> nat
    recommends
        c != 0,
{
    ((a as nat) * (b as nat) / (c as nat)) as nat
}

/// Saturating sum of two balances.
pub open spec fn sat_add(a: u128, b: u128) -> u128 {
    if a + b > u128::MAX {
        u128::MAX
    } else {
        (a + b) as u128
    }
}

/// Saturating difference of two balances.
pub open spec fn sat_sub(a: u128, b: u128) -> u128 {
    if a < b {
        0
    } else {
        (a - b) as u128
    }
}

/// The larger of two balances.
pub open spec fn spec_max(a: u128, b: u128) -> u128 {
    if a >= b {
        a
    } else {
        b
    }
}

/// The smaller of two balances.
pub open spec fn spec_min(a: u128, b: u128) -> u128 {
    if a <= b {
        a
    } else {
        b
    }
}

/// The larger of two balances.
pub fn max_balance(a: u128, b: u128) -> (r: u128)
    ensures
        r == spec_max(a, b),
{
    if a >= b {
        a
    } else {
        b
    }
}

/// The smaller of two balances.
pub fn min_balance(a: u128, b: u128) -> (r: u128)
    ensures
        r == spec_min(a, b),
{
    if a <= b {
        a
    } else {
        b
    }
}

/// The sum of two balances, or the largest balance if it does not fit.
pub fn saturating_add(a: u128, b: u128) -> (r: u128)
    ensures
        r == sat_add(a, b),
{
    if a > u128::MAX - b {
        u128::MAX
    } else {
        a + b
    }
}

/// The difference of two balances, or zero if it is negative.
pub fn saturating_sub(a: u128, b: u128) -> (r: u128)
    ensures
        r == sat_sub(a, b),
{
    if a < b {
        0
    } else {
        a - b
    }
}

/// Sum of two balances, `None` when it does not fit.
pub fn checked_add(a: u128, b: u128) -> (r: Option<u128>)
    ensures
        r == (if a + b <= u128::MAX {
            Some((a + b) as u128)
        } else {
            None
        }),
{
    if a > u128::MAX - b {
        None
    } else {
        Some(a + b)
    }
}

/// Product of two balances, `None` when it does not fit.
pub fn checked_mul(a: u128, b: u128) -> (r: Option<u128>)
    ensures
        r == (if a * b <= u128::MAX {
            Some((a * b) as u128)
        } else {
            None
        }),
{
    if a == 0 || b == 0 {
        assert(a * b == 0) by (nonlinear_arith)
            requires
                a == 0 || b == 0,
        ;
        return Some(0);
    }
    let q: u128 = u128::MAX / b;
    if a > q {
        assert(a * b > u128::MAX) by (nonlinear_arith)
            requires
                b > 0,
                a > q,
                q == u128::MAX / b,
        ;
        None
    } else {
        assert(a * b <= u128::MAX) by (nonlinear_arith)
            requires
                b > 0,
                a <= q,
                q == u128::MAX / b,
        ;
        Some(a * b)
    }
}

/// Calls `sp_arithmetic::Permill::mul_floor` on `Permill::from_parts(parts)`.
///
/// Claimed of it: for a fraction of at most one whole the result is the
/// product rounded down, `floor(value * parts / 1_000_000)`. The source
/// computes `(value / 10^6) * parts + (value % 10^6) * parts / 10^6`, which
/// is that number and never overflows.
#[verifier::external_body]
fn permill_mul_floor(parts: u32, value: u128) -> (r: u128)
    requires
        parts <= PERMILL_ACCURACY,
    ensures
        r == spec_mul_floor(parts, value),
{
    sp_arithmetic::Permill::from_parts(parts).mul_floor(value)
}

/// Calls `sp_arithmetic::helpers_128bit::multiply_by_rational_with_rounding`
/// with `Rounding::Down`.
///
/// Claimed of it: with a divisor that is not zero it returns
/// `floor(a * b / c)` when that fits in 128 bits and `None` when it does
/// not; with a zero divisor it returns `None`.
#[verifier::external_body]
fn multiply_by_rational_floor(a: u128, b: u128, c: u128) -> (r: Option<u128>)
    ensures
        c == 0 ==> r.is_none(),
        c != 0 ==> r == (if spec_mul_div(a, b, c) <= u128::MAX {
            Some(spec_mul_div(a, b, c) as u128)
        } else {
            None
        }),
{
    sp_arithmetic::helpers_128bit::multiply_by_rational_with_rounding(
        a,
        b,
        c,
        sp_arithmetic::Rounding::Down,
    )
}

/// `floor(a * b / c)`; `None` for a zero divisor or a result over 128 bits.
pub fn mul_div_floor(a: u128, b: u128, c: u128) -> (r: Option<u128>)
    ensures
        r == (if c != 0 && spec_mul_div(a, b, c) <= u128::MAX {
            Some(spec_mul_div(a, b, c) as u128)
        } else {
            None
        }),
{
    multiply_by_rational_floor(a, b, c)
}

/// The product rounded down never exceeds the value multiplied.
pub proof fn lemma_mul_floor_bounded(parts: u32, value: u128)
    requires
        parts <= PERMILL_ACCURACY,
    ensures
        spec_mul_floor(parts, value) <= value,
{
    assert((value as nat) * (parts as nat) / 1_000_000 <= value as nat) by (nonlinear_arith)
        requires
            parts <= 1_000_000,
    ;
}

/// A rational product with a factor of at most the divisor never exceeds
/// the other factor.
pub proof fn lemma_mul_div_bounded(a: u128, b: u128, c: u128)
    requires
        c != 0,
        b <= c,
    ensures
        spec_mul_div(a, b, c) <= a,
{
    assert((a as nat) * (b as nat) / (c as nat) <= a as nat) by (nonlinear_arith)
        requires
            c != 0,
            b <= c,
    ;
}

/// A rational product grows with its second factor.
pub proof fn lemma_mul_div_monotonic(a: u128, b1: u128, b2: u128, c: u128)
    requires
        c != 0,
        b1 <= b2,
    ensures
        spec_mul_div(a, b1, c) <= spec_mul_div(a, b2, c),
{
    assert((a as nat) * (b1 as nat) / (c as nat) <= (a as nat) * (b2 as nat) / (c as nat))
        by (nonlinear_arith)
        requires
            c != 0,
            b1 <= b2,
    ;
}

impl Permill {
    /// Whether the fraction is at most one whole.
    pub open spec fn wf(self) -> bool {
        self.parts <= PERMILL_ACCURACY
    }

    /// The fraction of `parts` millionths, capped at one whole.
    pub fn from_parts(parts: u32) -> (r: Permill)
        ensures
            r.wf(),
            r.parts == (if parts <= PERMILL_ACCURACY {
                parts
            } else {
                PERMILL_ACCURACY
            }),
    {
        if parts <= PERMILL_ACCURACY {
            Permill { parts }
        } else {
            Permill { parts: PERMILL_ACCURACY }
        }
    }

    /// The fraction of `percent` hundredths, capped at one whole.
    pub fn from_percent(percent: u32) -> (r: Permill)
        ensures
            r.wf(),
            r.parts == (if percent <= 100 {
                percent * 10_000
            } else {
                PERMILL_ACCURACY as int
            }),
    {
        if percent <= 100 {
            Permill { parts: percent * 10_000 }
        } else {
            Permill { parts: PERMILL_ACCURACY }
        }
    }

    /// The fraction of nothing.
    pub fn zero() -> (r: Permill)
        ensures
            r.parts == 0,
            r.wf(),
    {
        Permill { parts: 0 }
    }

    /// The fraction of one whole.
    pub fn one() -> (r: Permill)
        ensures
            r.parts == PERMILL_ACCURACY,
            r.wf(),
    {
        Permill { parts: PERMILL_ACCURACY }
    }

    /// Whether the fraction is nothing.
    pub fn is_zero(&self) -> (r: bool)
        ensures
            r == (self.parts == 0),
    {
        self.parts == 0
    }

    /// The number of millionths.
    pub fn deconstruct(&self) -> (r: u32)
        ensures
            r == self.parts,
    {
        self.parts
    }

    /// What is missing to one whole.
    pub fn left_from_one(&self) -> (r: Permill)
        requires
            self.wf(),
        ensures
            r.wf(),
            r.parts == PERMILL_ACCURACY - self.parts,
    {
        Permill { parts: PERMILL_ACCURACY - self.parts }
    }

    /// This fraction of `value`, rounded down. A fraction over one whole
    /// counts as one whole.
    pub open spec fn of(self, value: u128) -> u128 {
        if self.wf() {
            spec_mul_floor(self.parts, value) as u128
        } else {
            value
        }
    }

    /// This fraction of `value`, rounded down. A fraction over one whole
    /// counts as one whole.
    pub fn mul_floor(&self, value: u128) -> (r: u128)
        ensures
            r == self.of(value),
            self.wf() ==> r == spec_mul_floor(self.parts, value),
            r <= value,
    {
        if self.parts <= PERMILL_ACCURACY {
            proof {
                lemma_mul_floor_bounded(self.parts, value);
            }
            permill_mul_floor(self.parts, value)
        } else {
            value
        }
    }
}

} // verus!
