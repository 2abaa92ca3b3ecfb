//! The bonding curve: a market maker whose price is a linear function of
//! the supply it has minted.
use crate::account::JoyBalance;
use crate::arith::{checked_add, checked_mul, sat_sub, saturating_sub, Permill};
use crate::errors::Error;
use crate::vesting::Balance;
use vstd::prelude::*;

verus! {

/// The side of a trade on the curve.
#[derive(Clone, Copy, Debug, PartialEq, Eq, Structural)]
pub enum AmmOperation {
    Buy,
    Sell,
}

/// The parameters that a curve is opened with.
#[derive(Clone, Copy, Debug, PartialEq, Eq, Structural)]
pub struct AmmParams {
    /// Price increase per token minted.
    pub slope: Permill,
    /// Price of the first token.
    pub intercept: Permill,
}

/// A linear bonding curve, `price(x) = slope * x + intercept`.
#[derive(Clone, Copy, Debug, PartialEq, Eq, Structural)]
pub struct AmmCurve {
    pub slope: Permill,
    pub intercept: Permill,
    /// The tokens minted by the curve and not yet sold back to it.
    pub provided_supply: Balance,
}

/// Half of the slope's share of the squared amount: the triangle under
/// the price line over `amount` tokens.
pub open spec fn triangle(slope: Permill, amount: Balance) -> int {
    (slope.of((amount * amount) as u128) / 2) as int
}

/// The intercept's share of the amount: the rectangle under the price
/// line at its start.
pub open spec fn base(intercept: Permill, amount: Balance) -> int {
    intercept.of(amount) as int
}

/// The slope's share of the amount times the supply: the rectangle that
/// the supply already provided lifts the trade by.
pub open spec fn lift(slope: Permill, amount: Balance, supply: Balance) -> int {
    slope.of((amount * supply) as u128) as int
}

/// A slippage bound: the largest fraction of the desired price by which
/// the price may miss it, and the desired price.
pub type SlippageTolerance = Option<(Permill, JoyBalance)>;

/// Whether `price` is within the tolerance of the desired price: a buyer
/// pays at most that much more, a seller gets at most that much less.
pub open spec fn within_tolerance(price: JoyBalance, op: AmmOperation, tolerance: SlippageTolerance) -> bool {
    match tolerance {
        Some((fraction, desired)) => match op {
            AmmOperation::Buy => sat_sub(price, desired) <= fraction.of(desired),
            AmmOperation::Sell => sat_sub(desired, price) <= fraction.of(desired),
        },
        None => true,
    }
}

impl AmmCurve {
    /// The slope and the intercept are fractions of at most one whole.
    pub open spec fn wf(self) -> bool {
        self.slope.wf() && self.intercept.wf()
    }

    /// The reserve currency that a trade of `amount` tokens costs or pays:
    /// the area under the price line between the supply provided and the
    /// supply after the trade, which lies `amount` above for a purchase
    /// and `amount` below for a sale. An amount computation that does not
    /// fit a balance is an error.
    pub open spec fn spec_eval(self, amount: Balance, op: AmmOperation) -> Result<JoyBalance, Error> {
        if amount * amount > u128::MAX || amount * self.provided_supply > u128::MAX {
            Err(Error::ArithmeticError)
        } else {
            let t = triangle(self.slope, amount);
            let b = base(self.intercept, amount);
            let l = lift(self.slope, amount, self.provided_supply);
            match op {
                AmmOperation::Buy => if t + b + l > u128::MAX {
                    Err(Error::ArithmeticError)
                } else {
                    Ok((t + b + l) as u128)
                },
                AmmOperation::Sell => if b + l > u128::MAX || b + l < t {
                    Err(Error::ArithmeticError)
                } else {
                    Ok((b + l - t) as u128)
                },
            }
        }
    }

    /// The curve with `provided_supply` tokens provided.
    pub open spec fn with_supply(self, provided_supply: Balance) -> AmmCurve {
        AmmCurve { provided_supply, ..self }
    }

    /// A curve that has provided nothing yet.
    pub fn from_params(params: AmmParams) -> (r: Self)
        ensures
            r == (AmmCurve { slope: params.slope, intercept: params.intercept, provided_supply: 0 }),
    {
        AmmCurve { slope: params.slope, intercept: params.intercept, provided_supply: 0 }
    }

    /// The reserve currency that a trade of `amount` tokens costs or pays.
    pub fn eval(&self, amount: Balance, op: AmmOperation) -> (r: Result<JoyBalance, Error>)
        ensures
            r == self.spec_eval(amount, op),
    {
        let squared = match checked_mul(amount, amount) {
            Some(v) => v,
            None => {
                return Err(Error::ArithmeticError);
            },
        };
        let mixed = match checked_mul(amount, self.provided_supply) {
            Some(v) => v,
            None => {
                return Err(Error::ArithmeticError);
            },
        };
        let t = self.slope.mul_floor(squared) / 2;
        let b = self.intercept.mul_floor(amount);
        let l = self.slope.mul_floor(mixed);
        match op {
            AmmOperation::Buy => {
                match checked_add(t, b) {
                    Some(tb) => match checked_add(tb, l) {
                        Some(v) => Ok(v),
                        None => Err(Error::ArithmeticError),
                    },
                    None => Err(Error::ArithmeticError),
                }
            },
            AmmOperation::Sell => {
                match checked_add(b, l) {
                    Some(bl) => if bl < t {
                        Err(Error::ArithmeticError)
                    } else {
                        Ok(bl - t)
                    },
                    None => Err(Error::ArithmeticError),
                }
            },
        }
    }
}

/// `Ok` exactly when `price` is within the tolerance.
pub fn ensure_within_tolerance(price: JoyBalance, op: AmmOperation, tolerance: SlippageTolerance) -> (r:
    Result<(), Error>)
    ensures
        r == (if within_tolerance(price, op, tolerance) {
            Ok::<(), Error>(())
        } else {
            Err(Error::SlippageToleranceExceeded)
        }),
{
    match tolerance {
        Some((fraction, desired)) => {
            let miss = match op {
                AmmOperation::Buy => saturating_sub(price, desired),
                AmmOperation::Sell => saturating_sub(desired, price),
            };
            if miss <= fraction.mul_floor(desired) {
                Ok(())
            } else {
                Err(Error::SlippageToleranceExceeded)
            }
        },
        None => Ok(()),
    }
}

/// Buying `amount` tokens and selling them back pays the seller what the
/// purchase cost, up to rounding: never less, and at most two units more.
pub proof fn lemma_buy_then_sell(curve: AmmCurve, amount: Balance, cost: JoyBalance, payout: JoyBalance)
    requires
        curve.wf(),
        curve.provided_supply + amount <= u128::MAX,
        curve.spec_eval(amount, AmmOperation::Buy) == Ok::<JoyBalance, Error>(cost),
        curve.with_supply((curve.provided_supply + amount) as u128).spec_eval(
            amount,
            AmmOperation::Sell,
        ) == Ok::<JoyBalance, Error>(payout),
    ensures
        cost <= payout <= cost + 2,
{
    let s = curve.provided_supply;
    let after = (s + amount) as u128;
    let p = curve.slope.parts as int;
    let a = amount as int;
    assert(a * a <= u128::MAX);
    assert(a * s <= u128::MAX);
    assert(a * after <= u128::MAX);
    assert(a * after == a * s + a * a) by (nonlinear_arith)
        requires
            after == s + a,
    ;
    let x = a * a;
    let y = a * (s as int);
    let fx = curve.slope.of((amount * amount) as u128) as int;
    let fy = curve.slope.of((amount * s) as u128) as int;
    let fxy = curve.slope.of((amount * after) as u128) as int;
    crate::arith::lemma_mul_floor_bounded(curve.slope.parts, (amount * amount) as u128);
    crate::arith::lemma_mul_floor_bounded(curve.slope.parts, (amount * s) as u128);
    crate::arith::lemma_mul_floor_bounded(curve.slope.parts, (amount * after) as u128);
    assert(fx == x * p / 1_000_000);
    assert(fy == y * p / 1_000_000);
    assert(fxy == (x + y) * p / 1_000_000);
    assert(fx + fy <= fxy <= fx + fy + 1) by (nonlinear_arith)
        requires
            fx == x * p / 1_000_000,
            fy == y * p / 1_000_000,
            fxy == (x + y) * p / 1_000_000,
            x >= 0,
            y >= 0,
            p >= 0,
    ;
    assert(fx - 1 <= 2 * (fx / 2) <= fx);
}

} // verus!
