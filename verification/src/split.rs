//! Revenue splits: a time window in which holders stake tokens and are
//! paid their share of an allocation of reserve currency.
use crate::account::JoyBalance;
use crate::arith::{mul_div_floor, sat_add, sat_sub, saturating_add, saturating_sub, spec_mul_div};
use crate::errors::Error;
use crate::vesting::{sat_add_block, saturating_add_block, Balance, BlockNumber};
use vstd::prelude::*;

verus! {

/// The window of a revenue split: `duration` blocks from `start` on.
#[derive(Clone, Copy, Debug, PartialEq, Eq, Structural)]
pub struct SplitTimeline {
    /// The first block of the window.
    pub start: BlockNumber,
    /// The number of blocks in the window.
    pub duration: BlockNumber,
}

/// The window that a caller asks for, before it is checked.
#[derive(Clone, Copy, Debug, PartialEq, Eq, Structural)]
pub struct SplitTimelineParameters {
    pub start: BlockNumber,
    pub duration: BlockNumber,
}

/// An active revenue split.
#[derive(Clone, Copy, Debug, PartialEq, Eq, Structural)]
pub struct RevenueSplitInfo {
    /// The reserve currency set aside for the participants.
    pub allocation: JoyBalance,
    /// The window in which holders can take part.
    pub timeline: SplitTimeline,
    /// What has been paid out so far.
    pub dividends_claimed: JoyBalance,
}

/// Whether a token has a revenue split.
#[derive(Clone, Copy, Debug, PartialEq, Eq, Structural)]
pub enum RevenueSplitState {
    Inactive,
    Active(RevenueSplitInfo),
}

impl SplitTimeline {
    /// The first block after the window.
    pub open spec fn spec_end(self) -> BlockNumber {
        sat_add_block(self.start, self.duration)
    }

    /// Whether `now` lies in `[start, start + duration)`.
    pub open spec fn spec_is_ongoing(self, now: BlockNumber) -> bool {
        self.start <= now < self.spec_end()
    }

    /// Whether the window lies wholly before `now`.
    pub open spec fn spec_is_ended(self, now: BlockNumber) -> bool {
        now >= self.spec_end()
    }

    /// The window of `duration` blocks from `start` on.
    pub fn new(start: BlockNumber, duration: BlockNumber) -> (r: Self)
        ensures
            r == (SplitTimeline { start, duration }),
    {
        SplitTimeline { start, duration }
    }

    /// The first block after the window.
    pub fn end(&self) -> (r: BlockNumber)
        ensures
            r == self.spec_end(),
    {
        saturating_add_block(self.start, self.duration)
    }

    /// Whether the window has started and not yet ended at `now`.
    pub fn is_ongoing(&self, now: BlockNumber) -> (r: bool)
        ensures
            r == self.spec_is_ongoing(now),
    {
        self.start <= now && now < self.end()
    }

    /// Whether the window lies wholly before `now`.
    pub fn is_ended(&self, now: BlockNumber) -> (r: bool)
        ensures
            r == self.spec_is_ended(now),
    {
        now >= self.end()
    }
}

impl SplitTimelineParameters {
    /// The checked window, or why it is refused: a start before `now`, or
    /// fewer than `min_duration` blocks.
    pub open spec fn spec_try_build(self, now: BlockNumber, min_duration: BlockNumber) -> Result<
        SplitTimeline,
        Error,
    > {
        if self.start < now {
            Err(Error::StartingBlockLowerThanCurrentBlock)
        } else if self.duration < min_duration {
            Err(Error::RevenueSplitDurationTooShort)
        } else {
            Ok(SplitTimeline { start: self.start, duration: self.duration })
        }
    }

    /// The window asked for: `duration` blocks from `start` on.
    pub fn new(start: BlockNumber, duration: BlockNumber) -> (r: Self)
        ensures
            r == (SplitTimelineParameters { start, duration }),
    {
        SplitTimelineParameters { start, duration }
    }

    /// The checked window, or why it is refused.
    pub fn try_build(self, now: BlockNumber, min_duration: BlockNumber) -> (r: Result<
        SplitTimeline,
        Error,
    >)
        ensures
            r == self.spec_try_build(now, min_duration),
    {
        if self.start < now {
            return Err(Error::StartingBlockLowerThanCurrentBlock);
        }
        if self.duration < min_duration {
            return Err(Error::RevenueSplitDurationTooShort);
        }
        Ok(SplitTimeline::new(self.start, self.duration))
    }
}

/// The dividend of a stake of `stake` tokens out of a supply of `supply`
/// on an allocation of `allocation`: the pro-rata share, rounded down.
pub open spec fn spec_dividend(stake: Balance, supply: Balance, allocation: JoyBalance) -> nat
    recommends
        supply != 0,
{
    spec_mul_div(allocation, stake, supply)
}

/// The dividend of a stake; `None` with an empty supply or when the share
/// does not fit a balance.
pub fn compute_revenue_split_amount(stake: Balance, supply: Balance, allocation: JoyBalance) -> (r:
    Option<JoyBalance>)
    ensures
        r == (if supply != 0 && spec_dividend(stake, supply, allocation) <= u128::MAX {
            Some(spec_dividend(stake, supply, allocation) as u128)
        } else {
            None
        }),
{
    mul_div_floor(allocation, stake, supply)
}

impl RevenueSplitInfo {
    /// What of the allocation has not been paid out.
    pub open spec fn spec_leftovers(self) -> JoyBalance {
        sat_sub(self.allocation, self.dividends_claimed)
    }

    /// What of the allocation has not been paid out.
    pub fn leftovers(&self) -> (r: JoyBalance)
        ensures
            r == self.spec_leftovers(),
    {
        saturating_sub(self.allocation, self.dividends_claimed)
    }
}

impl RevenueSplitState {
    /// The active split, or `RevenueSplitNotActiveForToken`.
    pub open spec fn spec_ensure_active(self) -> Result<RevenueSplitInfo, Error> {
        match self {
            RevenueSplitState::Active(info) => Ok(info),
            RevenueSplitState::Inactive => Err(Error::RevenueSplitNotActiveForToken),
        }
    }

    /// `Ok` without a split, else `RevenueSplitAlreadyActiveForToken`.
    pub open spec fn spec_ensure_inactive(self) -> Result<(), Error> {
        match self {
            RevenueSplitState::Active(_) => Err(Error::RevenueSplitAlreadyActiveForToken),
            RevenueSplitState::Inactive => Ok(()),
        }
    }

    /// The state after `amount` more was paid out.
    pub open spec fn with_dividend(self, amount: JoyBalance) -> RevenueSplitState {
        match self {
            RevenueSplitState::Active(info) => RevenueSplitState::Active(
                RevenueSplitInfo {
                    dividends_claimed: sat_add(info.dividends_claimed, amount),
                    ..info
                },
            ),
            RevenueSplitState::Inactive => RevenueSplitState::Inactive,
        }
    }

    /// Whether there is no split.
    pub fn is_inactive(&self) -> (r: bool)
        ensures
            r == (*self == RevenueSplitState::Inactive),
    {
        match self {
            RevenueSplitState::Inactive => true,
            RevenueSplitState::Active(_) => false,
        }
    }

    /// The active split, or `RevenueSplitNotActiveForToken`.
    pub fn ensure_active(&self) -> (r: Result<RevenueSplitInfo, Error>)
        ensures
            r == self.spec_ensure_active(),
    {
        match self {
            RevenueSplitState::Active(info) => Ok(*info),
            RevenueSplitState::Inactive => Err(Error::RevenueSplitNotActiveForToken),
        }
    }

    /// `Ok` without a split, else `RevenueSplitAlreadyActiveForToken`.
    pub fn ensure_inactive(&self) -> (r: Result<(), Error>)
        ensures
            r == self.spec_ensure_inactive(),
    {
        match self {
            RevenueSplitState::Active(_) => Err(Error::RevenueSplitAlreadyActiveForToken),
            RevenueSplitState::Inactive => Ok(()),
        }
    }

    /// Starts a split over `allocation` with nothing paid out yet.
    pub fn activate(&mut self, allocation: JoyBalance, timeline: SplitTimeline)
        ensures
            *final(self) == RevenueSplitState::Active(
                RevenueSplitInfo { allocation, timeline, dividends_claimed: 0 },
            ),
    {
        *self = RevenueSplitState::Active(
            RevenueSplitInfo { allocation, timeline, dividends_claimed: 0 },
        );
    }

    /// Ends the split.
    pub fn deactivate(&mut self)
        ensures
            *final(self) == RevenueSplitState::Inactive,
    {
        *self = RevenueSplitState::Inactive;
    }

    /// Records that `amount` more was paid out.
    pub fn account_for_dividend(&mut self, amount: JoyBalance)
        ensures
            *final(self) == old(self).with_dividend(amount),
    {
        match self {
            RevenueSplitState::Active(info) => {
                let updated = RevenueSplitInfo {
                    allocation: info.allocation,
                    timeline: info.timeline,
                    dividends_claimed: saturating_add(info.dividends_claimed, amount),
                };
                *self = RevenueSplitState::Active(updated);
            },
            RevenueSplitState::Inactive => {},
        }
    }
}

/// A dividend never exceeds the allocation while the stake is within the
/// supply.
pub proof fn lemma_dividend_bounded(stake: Balance, supply: Balance, allocation: JoyBalance)
    requires
        supply != 0,
        stake <= supply,
    ensures
        spec_dividend(stake, supply, allocation) <= allocation,
{
    crate::arith::lemma_mul_div_bounded(allocation, stake, supply);
}

} // verus!
