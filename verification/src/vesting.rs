//! Cliff-plus-linear vesting schedules and the bounded, ordered set of
//! schedules that one account holds.
use crate::arith::{
    lemma_mul_div_bounded, lemma_mul_div_monotonic, mul_div_floor, sat_add, sat_sub,
    saturating_add, saturating_sub, spec_mul_div, Permill,
};
use vstd::prelude::*;

verus! {

/// The height of a block.
pub type BlockNumber = u64;

/// An amount of tokens.
pub type Balance = u128;

/// How many vesting schedules one account can hold for one token.
pub const MAX_VESTING_SCHEDULES: usize = 5;

/// Converts a number of blocks into a balance of the same magnitude.
pub struct BlockNumberToBalance {}

impl BlockNumberToBalance {
    /// The number of blocks as a balance.
    pub fn convert(block: BlockNumber) -> (r: Balance)
        ensures
            r == block,
    {
        block as Balance
    }
}

/// The shape of a vesting schedule, before an amount and a start are known.
#[derive(Clone, Copy, Debug, PartialEq, Eq, Structural)]
pub struct VestingScheduleParams {
    /// Length of the linear phase, in blocks.
    pub linear_vesting_duration: BlockNumber,
    /// Blocks to wait before the cliff amount unlocks.
    pub blocks_before_cliff: BlockNumber,
    /// Share of the amount that unlocks at once at the cliff.
    pub cliff_amount_percentage: Permill,
}

/// A cliff followed by a linear unlock.
#[derive(Clone, Copy, Debug, PartialEq, Eq, Structural)]
pub struct VestingSchedule {
    /// The cliff block: the linear phase starts here.
    pub linear_vesting_start_block: BlockNumber,
    /// Length of the linear phase, in blocks.
    pub linear_vesting_duration: BlockNumber,
    /// Amount unlocked at the cliff.
    pub cliff_amount: Balance,
    /// Amount unlocked over the linear phase.
    pub post_cliff_total_amount: Balance,
    /// Amount burned from the schedule so far.
    pub burned_amount: Balance,
}

/// Where the tokens under a vesting schedule came from.
#[derive(Clone, Copy, Debug, PartialEq, Eq, Structural)]
pub enum VestingSource {
    InitialIssuance,
    Sale(u32),
    IssuerTransfer(u64),
}

/// Saturating sum of two block numbers.
pub open spec fn sat_add_block(a: BlockNumber, b: BlockNumber) -> BlockNumber {
    if a + b > u64::MAX {
        u64::MAX
    } else {
        (a + b) as u64
    }
}

/// The sum of two block numbers, or the largest if it does not fit.
pub fn saturating_add_block(a: BlockNumber, b: BlockNumber) -> (r: BlockNumber)
    ensures
        r == sat_add_block(a, b),
{
    if a > u64::MAX - b {
        u64::MAX
    } else {
        a + b
    }
}

impl VestingScheduleParams {
    /// The cliff share is at most one whole.
    pub open spec fn wf(self) -> bool {
        self.cliff_amount_percentage.wf()
    }

    /// A schedule that unlocks everything at once at its start.
    pub fn immediate() -> (r: Self)
        ensures
            r.wf(),
            r.linear_vesting_duration == 0,
            r.blocks_before_cliff == 0,
            r.cliff_amount_percentage.parts == 0,
    {
        VestingScheduleParams {
            linear_vesting_duration: 0,
            blocks_before_cliff: 0,
            cliff_amount_percentage: Permill::zero(),
        }
    }
}

impl VestingSchedule {
    /// The schedule for `amount` tokens granted at `init_block`.
    pub open spec fn spec_from_params(
        init_block: BlockNumber,
        amount: Balance,
        params: VestingScheduleParams,
    ) -> VestingSchedule {
        let cliff = params.cliff_amount_percentage.of(amount);
        VestingSchedule {
            linear_vesting_start_block: sat_add_block(init_block, params.blocks_before_cliff),
            linear_vesting_duration: params.linear_vesting_duration,
            cliff_amount: cliff,
            post_cliff_total_amount: sat_sub(amount, cliff),
            burned_amount: 0,
        }
    }

    /// The cliff and the linear part together fit a balance.
    pub open spec fn wf(self) -> bool {
        self.cliff_amount + self.post_cliff_total_amount <= u128::MAX
    }

    /// The first block after the linear phase.
    pub open spec fn spec_end_block(self) -> BlockNumber {
        sat_add_block(self.linear_vesting_start_block, self.linear_vesting_duration)
    }

    /// The cliff amount and the post-cliff amount together.
    pub open spec fn spec_total_amount(self) -> Balance {
        sat_add(self.cliff_amount, self.post_cliff_total_amount)
    }

    /// What of the total amount was not burned.
    pub open spec fn spec_non_burned_amount(self) -> Balance {
        sat_sub(self.spec_total_amount(), self.burned_amount)
    }

    /// What the schedule alone keeps locked at block `b`: everything before
    /// the cliff, a linearly shrinking part of the post-cliff amount during
    /// the linear phase, nothing afterwards.
    pub open spec fn scheduled_locked(self, b: BlockNumber) -> Balance {
        if b < self.linear_vesting_start_block {
            self.spec_total_amount()
        } else if b < self.spec_end_block() {
            sat_sub(
                self.post_cliff_total_amount,
                spec_mul_div(
                    self.post_cliff_total_amount,
                    (b - self.linear_vesting_start_block) as u128,
                    self.linear_vesting_duration as u128,
                ) as u128,
            )
        } else {
            0
        }
    }

    /// What is still locked at block `b`: burns are taken from the locked
    /// part first.
    pub open spec fn spec_locks(self, b: BlockNumber) -> Balance {
        sat_sub(self.scheduled_locked(b), self.burned_amount)
    }

    /// What of the schedule's remaining tokens can move at block `b`.
    pub open spec fn spec_transferrable(self, b: BlockNumber) -> Balance {
        sat_sub(self.spec_non_burned_amount(), self.spec_locks(b))
    }

    /// Whether the linear phase has ended at block `b`.
    pub open spec fn spec_is_finished(self, b: BlockNumber) -> bool {
        self.spec_end_block() <= b
    }

    /// The schedule after `amount` more tokens were burned from it.
    pub open spec fn with_burned(self, amount: Balance) -> VestingSchedule {
        VestingSchedule { burned_amount: sat_add(self.burned_amount, amount), ..self }
    }

    /// The schedule that holds this one and `other`, which has the same
    /// timing, together.
    pub open spec fn spec_merged(self, other: VestingSchedule) -> VestingSchedule {
        VestingSchedule {
            cliff_amount: (self.cliff_amount + other.cliff_amount) as u128,
            post_cliff_total_amount: (self.post_cliff_total_amount
                + other.post_cliff_total_amount) as u128,
            ..self
        }
    }

    /// The schedule for `amount` tokens granted at `init_block`.
    pub fn from_params(init_block: BlockNumber, amount: Balance, params: VestingScheduleParams) -> (r:
        Self)
        ensures
            r == Self::spec_from_params(init_block, amount, params),
            r.wf(),
            r.spec_total_amount() == amount,
            r.burned_amount == 0,
    {
        let cliff = params.cliff_amount_percentage.mul_floor(amount);
        VestingSchedule {
            linear_vesting_start_block: saturating_add_block(init_block, params.blocks_before_cliff),
            linear_vesting_duration: params.linear_vesting_duration,
            cliff_amount: cliff,
            post_cliff_total_amount: saturating_sub(amount, cliff),
            burned_amount: 0,
        }
    }

    /// The first block after the linear phase.
    pub fn end_block(&self) -> (r: BlockNumber)
        ensures
            r == self.spec_end_block(),
    {
        saturating_add_block(self.linear_vesting_start_block, self.linear_vesting_duration)
    }

    /// The cliff amount and the post-cliff amount together.
    pub fn total_amount(&self) -> (r: Balance)
        ensures
            r == self.spec_total_amount(),
    {
        saturating_add(self.cliff_amount, self.post_cliff_total_amount)
    }

    /// What of the total amount was not burned.
    pub fn non_burned_amount(&self) -> (r: Balance)
        ensures
            r == self.spec_non_burned_amount(),
    {
        saturating_sub(self.total_amount(), self.burned_amount)
    }

    /// Whether the linear phase has ended at block `b`.
    pub fn is_finished(&self, b: BlockNumber) -> (r: bool)
        ensures
            r == self.spec_is_finished(b),
    {
        self.end_block() <= b
    }

    /// The amount still locked at block `b`.
    pub fn locks(&self, b: BlockNumber) -> (r: Balance)
        ensures
            r == self.spec_locks(b),
    {
        let scheduled = if b < self.linear_vesting_start_block {
            self.total_amount()
        } else if b < self.end_block() {
            let elapsed = BlockNumberToBalance::convert(b - self.linear_vesting_start_block);
            let duration = BlockNumberToBalance::convert(self.linear_vesting_duration);
            proof {
                lemma_mul_div_bounded(self.post_cliff_total_amount, elapsed, duration);
            }
            match mul_div_floor(self.post_cliff_total_amount, elapsed, duration) {
                Some(unlocked) => saturating_sub(self.post_cliff_total_amount, unlocked),
                None => 0,
            }
        } else {
            0
        };
        saturating_sub(scheduled, self.burned_amount)
    }

    /// The amount that has not vested at block `block`: what the schedule
    /// still locks.
    pub fn unvested(&self, block: BlockNumber) -> (r: Balance)
        ensures
            r == self.spec_locks(block),
    {
        self.locks(block)
    }

    /// The part of the schedule's remaining tokens that can move at `b`.
    pub fn transferrable(&self, b: BlockNumber) -> (r: Balance)
        ensures
            r == self.spec_transferrable(b),
            r <= self.spec_total_amount(),
    {
        saturating_sub(self.non_burned_amount(), self.locks(b))
    }

    /// Adds the amounts of `other` to this schedule; `None` if they do not
    /// fit a balance.
    pub fn merged(&self, other: &VestingSchedule) -> (r: Option<VestingSchedule>)
        requires
            self.wf(),
            other.wf(),
        ensures
            r == (if self.cliff_amount + self.post_cliff_total_amount + other.cliff_amount
                + other.post_cliff_total_amount <= u128::MAX {
                Some(self.spec_merged(*other))
            } else {
                None
            }),
            r.is_some() ==> r.unwrap().wf(),
    {
        let own: u128 = self.cliff_amount + self.post_cliff_total_amount;
        let added: u128 = other.cliff_amount + other.post_cliff_total_amount;
        if own > u128::MAX - added {
            None
        } else {
            Some(
                VestingSchedule {
                    linear_vesting_start_block: self.linear_vesting_start_block,
                    linear_vesting_duration: self.linear_vesting_duration,
                    cliff_amount: self.cliff_amount + other.cliff_amount,
                    post_cliff_total_amount: self.post_cliff_total_amount
                        + other.post_cliff_total_amount,
                    burned_amount: self.burned_amount,
                },
            )
        }
    }
}

/// What a schedule keeps locked by itself never grows as blocks pass.
pub proof fn lemma_scheduled_locked_monotonic(s: VestingSchedule, b1: BlockNumber, b2: BlockNumber)
    requires
        b1 <= b2,
    ensures
        s.scheduled_locked(b2) <= s.scheduled_locked(b1),
        s.scheduled_locked(b1) <= s.spec_total_amount(),
{
    let start = s.linear_vesting_start_block;
    let d = s.linear_vesting_duration as u128;
    if start <= b1 && b1 < s.spec_end_block() {
        let e1 = (b1 - start) as u128;
        lemma_mul_div_bounded(s.post_cliff_total_amount, e1, d);
        if b2 < s.spec_end_block() {
            let e2 = (b2 - start) as u128;
            lemma_mul_div_bounded(s.post_cliff_total_amount, e2, d);
            lemma_mul_div_monotonic(s.post_cliff_total_amount, e1, e2, d);
        }
    } else if start <= b2 && b2 < s.spec_end_block() {
        let e2 = (b2 - start) as u128;
        lemma_mul_div_bounded(s.post_cliff_total_amount, e2, d);
    }
}

/// The transferrable part of a schedule never shrinks as blocks pass, and
/// never exceeds the schedule's total amount.
pub proof fn lemma_transferrable_monotonic(s: VestingSchedule, b1: BlockNumber, b2: BlockNumber)
    requires
        b1 <= b2,
    ensures
        s.spec_transferrable(b1) <= s.spec_transferrable(b2),
        0 <= s.spec_transferrable(b2) <= s.spec_total_amount(),
        s.spec_locks(b2) <= s.spec_locks(b1),
        s.spec_locks(b1) <= s.spec_non_burned_amount(),
{
    lemma_scheduled_locked_monotonic(s, b1, b2);
    lemma_scheduled_locked_monotonic(s, b2, b2);
}

/// Before the cliff nothing of a schedule can move; from the end of the
/// linear phase on, everything that was not burned can.
pub proof fn lemma_transferrable_ends(s: VestingSchedule, b: BlockNumber)
    ensures
        b < s.linear_vesting_start_block ==> s.spec_transferrable(b) == 0,
        s.spec_is_finished(b) ==> s.spec_transferrable(b) == s.spec_non_burned_amount(),
        s.spec_is_finished(b) ==> s.spec_locks(b) == 0,
{
}

} // verus!
