//! The timed public sale of a token.
use crate::account::{AccountId, JoyBalance, MemberId};
use crate::arith::checked_mul;
use crate::errors::Error;
use crate::vesting::{
    sat_add_block, saturating_add_block, Balance, BlockNumber, VestingSchedule,
    VestingScheduleParams,
};
use vstd::prelude::*;

verus! {

/// What a sale is asked to be.
#[derive(Clone, Copy, Debug, PartialEq, Eq, Structural)]
pub struct TokenSaleParams {
    /// Reserve currency per token.
    pub unit_price: JoyBalance,
    /// Tokens put on sale.
    pub upper_bound_quantity: Balance,
    /// First block of the sale; the current block if not given.
    pub starts_at: Option<BlockNumber>,
    /// Length of the sale, in blocks.
    pub duration: BlockNumber,
    /// Vesting of the tokens bought, counted from the end of the sale.
    pub vesting_schedule_params: Option<VestingScheduleParams>,
    /// The most that one member can buy.
    pub cap_per_member: Option<Balance>,
}

/// A sale that was accepted.
#[derive(Clone, Copy, Debug, PartialEq, Eq, Structural)]
pub struct TokenSale {
    pub unit_price: JoyBalance,
    /// Tokens put on sale.
    pub upper_bound_quantity: Balance,
    /// Tokens put on sale and not bought yet.
    pub quantity_left: Balance,
    /// Reserve currency paid by the buyers so far.
    pub funds_collected: JoyBalance,
    /// The member whose tokens are on sale.
    pub tokens_source: MemberId,
    /// Where the earnings go; they are destroyed if nowhere.
    pub earnings_destination: Option<AccountId>,
    pub start_block: BlockNumber,
    pub duration: BlockNumber,
    pub vesting_schedule_params: Option<VestingScheduleParams>,
    pub cap_per_member: Option<Balance>,
    /// Whether the sale closes by itself once everything is sold.
    pub auto_finalize: bool,
}

/// The first block of a sale asked for at block `now`.
pub open spec fn sale_start(starts_at: Option<BlockNumber>, now: BlockNumber) -> BlockNumber {
    match starts_at {
        Some(b) => b,
        None => now,
    }
}

/// Why a start and a duration are refused for a sale at block `now`, if
/// they are.
pub open spec fn timing_error(start: BlockNumber, duration: BlockNumber, now: BlockNumber, min_duration: BlockNumber) -> Option<
    Error,
> {
    if start < now {
        Some(Error::SaleStartingBlockInThePast)
    } else if duration == 0 {
        Some(Error::SaleDurationIsZero)
    } else if duration < min_duration {
        Some(Error::SaleDurationTooShort)
    } else {
        None
    }
}

/// `Ok` exactly when the start and the duration are accepted.
pub fn ensure_valid_timing(start: BlockNumber, duration: BlockNumber, now: BlockNumber, min_duration: BlockNumber) -> (r:
    Result<(), Error>)
    ensures
        r == (match timing_error(start, duration, now, min_duration) {
            Some(e) => Err::<(), Error>(e),
            None => Ok::<(), Error>(()),
        }),
{
    if start < now {
        Err(Error::SaleStartingBlockInThePast)
    } else if duration == 0 {
        Err(Error::SaleDurationIsZero)
    } else if duration < min_duration {
        Err(Error::SaleDurationTooShort)
    } else {
        Ok(())
    }
}

impl TokenSaleParams {
    /// Why the parameters are refused at block `now`, if they are.
    pub open spec fn error(self, now: BlockNumber, min_duration: BlockNumber) -> Option<Error> {
        match timing_error(sale_start(self.starts_at, now), self.duration, now, min_duration) {
            Some(e) => Some(e),
            None => if self.upper_bound_quantity == 0 {
                Some(Error::SaleUpperBoundQuantityIsZero)
            } else if self.unit_price == 0 {
                Some(Error::SaleUnitPriceIsZero)
            } else if self.cap_per_member == Some(0u128) {
                Some(Error::SaleCapPerMemberIsZero)
            } else {
                None
            },
        }
    }

    /// The sale that the parameters describe.
    pub open spec fn sale(
        self,
        tokens_source: MemberId,
        earnings_destination: Option<AccountId>,
        auto_finalize: bool,
        now: BlockNumber,
    ) -> TokenSale {
        TokenSale {
            unit_price: self.unit_price,
            upper_bound_quantity: self.upper_bound_quantity,
            quantity_left: self.upper_bound_quantity,
            funds_collected: 0,
            tokens_source,
            earnings_destination,
            start_block: sale_start(self.starts_at, now),
            duration: self.duration,
            vesting_schedule_params: self.vesting_schedule_params,
            cap_per_member: self.cap_per_member,
            auto_finalize,
        }
    }
}

impl TokenSale {
    /// The first block after the sale.
    pub open spec fn spec_end_block(self) -> BlockNumber {
        sat_add_block(self.start_block, self.duration)
    }

    /// Whether the sale starts after `now`.
    pub open spec fn spec_is_upcoming(self, now: BlockNumber) -> bool {
        now < self.start_block
    }

    /// Whether `now` lies in `[start, start + duration)`.
    pub open spec fn spec_is_active(self, now: BlockNumber) -> bool {
        self.start_block <= now < self.spec_end_block()
    }

    /// The vesting shape of the tokens bought: the one the sale was given,
    /// or release at the end of the sale.
    pub open spec fn spec_vesting_params(self) -> VestingScheduleParams {
        match self.vesting_schedule_params {
            Some(p) => p,
            None => VestingScheduleParams {
                linear_vesting_duration: 0,
                blocks_before_cliff: 0,
                cliff_amount_percentage: crate::arith::Permill { parts: 0 },
            },
        }
    }

    /// The schedule under which `amount` tokens bought are held: the
    /// sale's vesting shape, counted from the end of the sale.
    pub open spec fn spec_vesting_schedule(self, amount: Balance) -> VestingSchedule {
        VestingSchedule::spec_from_params(self.spec_end_block(), amount, self.spec_vesting_params())
    }

    /// The checked sale, or why the parameters are refused.
    pub fn try_from_params(
        params: TokenSaleParams,
        tokens_source: MemberId,
        earnings_destination: Option<AccountId>,
        auto_finalize: bool,
        now: BlockNumber,
        min_duration: BlockNumber,
    ) -> (r: Result<TokenSale, Error>)
        ensures
            r == (match params.error(now, min_duration) {
                Some(e) => Err::<TokenSale, Error>(e),
                None => Ok::<TokenSale, Error>(
                    params.sale(tokens_source, earnings_destination, auto_finalize, now),
                ),
            }),
    {
        let start_block = match params.starts_at {
            Some(b) => b,
            None => now,
        };
        match ensure_valid_timing(start_block, params.duration, now, min_duration) {
            Err(e) => {
                return Err(e);
            },
            Ok(_) => {},
        }
        if params.upper_bound_quantity == 0 {
            return Err(Error::SaleUpperBoundQuantityIsZero);
        }
        if params.unit_price == 0 {
            return Err(Error::SaleUnitPriceIsZero);
        }
        match params.cap_per_member {
            Some(cap) => {
                if cap == 0 {
                    return Err(Error::SaleCapPerMemberIsZero);
                }
            },
            None => {},
        }
        Ok(
            TokenSale {
                unit_price: params.unit_price,
                upper_bound_quantity: params.upper_bound_quantity,
                quantity_left: params.upper_bound_quantity,
                funds_collected: 0,
                tokens_source,
                earnings_destination,
                start_block,
                duration: params.duration,
                vesting_schedule_params: params.vesting_schedule_params,
                cap_per_member: params.cap_per_member,
                auto_finalize,
            },
        )
    }

    /// The first block after the sale.
    pub fn end_block(&self) -> (r: BlockNumber)
        ensures
            r == self.spec_end_block(),
    {
        saturating_add_block(self.start_block, self.duration)
    }

    /// Whether the sale starts after `now`.
    pub fn is_upcoming(&self, now: BlockNumber) -> (r: bool)
        ensures
            r == self.spec_is_upcoming(now),
    {
        now < self.start_block
    }

    /// Whether the sale has started and not yet ended at `now`.
    pub fn is_active(&self, now: BlockNumber) -> (r: bool)
        ensures
            r == self.spec_is_active(now),
    {
        self.start_block <= now && now < self.end_block()
    }

    /// The schedule under which `amount` tokens bought are held.
    pub fn get_vesting_schedule(&self, amount: Balance) -> (r: VestingSchedule)
        ensures
            r == self.spec_vesting_schedule(amount),
            r.wf(),
            r.spec_total_amount() == amount,
    {
        let params = match self.vesting_schedule_params {
            Some(p) => p,
            None => VestingScheduleParams::immediate(),
        };
        VestingSchedule::from_params(self.end_block(), amount, params)
    }

    /// What `amount` tokens cost, `None` when that does not fit a balance.
    pub fn price_of(&self, amount: Balance) -> (r: Option<JoyBalance>)
        ensures
            r == (if self.unit_price * amount <= u128::MAX {
                Some((self.unit_price * amount) as u128)
            } else {
                None
            }),
    {
        checked_mul(self.unit_price, amount)
    }
}

} // verus!
