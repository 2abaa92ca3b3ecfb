//! One member's account for one token: a single balance under vesting
//! locks and a revenue-split stake, with the bloat bond that paid for it.
use crate::arith::{
    max_balance, sat_add, sat_sub, saturating_add, saturating_sub, spec_max,
};
use crate::errors::Error;
use crate::schedules::{
    burned_entries, first_finished, has_source, index_of, inserted, replaced, sorted, all_wf,
    lemma_removed_sorted, total_locked_of, VestingEntry, VestingSchedules,
};
use crate::vesting::{
    Balance, BlockNumber, VestingSchedule, VestingSource, MAX_VESTING_SCHEDULES,
};
use vstd::prelude::*;

verus! {

/// The id of a token.
pub type TokenId = u64;

/// The id of a member.
pub type MemberId = u64;

/// The id of a reserve-currency account.
pub type AccountId = u64;

/// An amount of reserve currency.
pub type JoyBalance = u128;

/// The bond that was paid to create an account, and who may get it back.
#[derive(Clone, Copy, Debug, PartialEq, Eq, Structural)]
pub struct RepayableBloatBond {
    /// The amount bonded.
    pub amount: JoyBalance,
    /// Set when the bond was paid out of locked funds: it can then only go
    /// back to this account.
    pub repayment_restricted_to: Option<AccountId>,
}

/// A member's stake in a revenue split.
#[derive(Clone, Copy, Debug, PartialEq, Eq, Structural)]
pub struct StakingStatus {
    /// The split that the stake was made in.
    pub split_id: u32,
    /// The amount staked.
    pub amount: Balance,
}

/// What a decrease does to an account.
#[derive(Clone, Copy, Debug, PartialEq, Eq, Structural)]
pub enum DecreaseOp {
    /// The balance goes down by the amount.
    Reduce(Balance),
    /// The account is removed after giving the amount; the second number
    /// is the dust that is left in it and leaves the supply.
    Remove(Balance, Balance),
}

/// One member's account for one token.
#[derive(Clone, Copy, Debug, PartialEq, Eq)]
pub struct AccountData {
    /// Every token of the account, locked, staked or free.
    pub amount: Balance,
    /// The vesting schedules that lock part of the amount.
    pub vesting_schedules: VestingSchedules,
    /// The stake in a revenue split, if any.
    pub split_staking_status: Option<StakingStatus>,
    /// The bond paid for the account.
    pub bloat_bond: RepayableBloatBond,
    /// The id that the next vesting issuer transfer to the account gets.
    pub next_vesting_transfer_id: u64,
}

/// The mathematical value of an [`AccountData`].
pub ghost struct AccountView {
    pub amount: Balance,
    pub vesting: Seq<VestingEntry>,
    pub staking: Option<StakingStatus>,
    pub bloat_bond: RepayableBloatBond,
    pub next_vesting_transfer_id: u64,
}

impl RepayableBloatBond {
    /// A bond of `amount`, restricted to `repayment_restricted_to` if given.
    pub fn new(amount: JoyBalance, repayment_restricted_to: Option<AccountId>) -> (r: Self)
        ensures
            r == (RepayableBloatBond { amount, repayment_restricted_to }),
    {
        RepayableBloatBond { amount, repayment_restricted_to }
    }
}

impl AccountView {
    /// The schedules are in order, well formed and within the bound.
    pub open spec fn wf(self) -> bool {
        &&& self.vesting.len() <= MAX_VESTING_SCHEDULES
        &&& sorted(self.vesting)
        &&& all_wf(self.vesting)
    }

    /// A fresh account that holds `amount` free tokens.
    pub open spec fn fresh(amount: Balance, bloat_bond: RepayableBloatBond) -> AccountView {
        AccountView {
            amount,
            vesting: Seq::empty(),
            staking: None,
            bloat_bond,
            next_vesting_transfer_id: 0,
        }
    }

    /// A fresh account whose tokens are all under one schedule.
    pub open spec fn fresh_vesting(
        source: VestingSource,
        schedule: VestingSchedule,
        bloat_bond: RepayableBloatBond,
    ) -> AccountView {
        AccountView {
            amount: schedule.spec_total_amount(),
            vesting: seq![VestingEntry { source, schedule }],
            staking: None,
            bloat_bond,
            next_vesting_transfer_id: 0,
        }
    }

    /// The amount staked in a revenue split.
    pub open spec fn staked(self) -> Balance {
        match self.staking {
            Some(s) => s.amount,
            None => 0,
        }
    }

    /// The amount under vesting locks at block `b`.
    pub open spec fn total_locked(self, b: BlockNumber) -> Balance {
        total_locked_of(self.vesting, b)
    }

    /// What can leave the account at block `b`: the amount less the larger
    /// of the vesting locks and the stake.
    pub open spec fn transferrable(self, b: BlockNumber) -> Balance {
        sat_sub(self.amount, spec_max(self.total_locked(b), self.staked()))
    }

    /// What a decrease by `amount` does under the existential deposit
    /// `existential_deposit`: the account stays while what is left in it,
    /// staked tokens included, is at least the deposit.
    pub open spec fn decrease_op(self, existential_deposit: Balance, amount: Balance) -> DecreaseOp {
        let left = sat_sub(self.amount, amount);
        if left >= existential_deposit {
            DecreaseOp::Reduce(amount)
        } else {
            DecreaseOp::Remove(amount, left)
        }
    }

    /// Whether one more schedule under `source` can be taken at block `b`,
    /// and which finished schedule has to make room for it.
    pub open spec fn can_add_schedule(self, b: BlockNumber, source: VestingSource) -> Result<
        Option<VestingSource>,
        Error,
    > {
        if has_source(self.vesting, source) || self.vesting.len() < MAX_VESTING_SCHEDULES {
            Ok(None)
        } else {
            match first_finished(self.vesting, b) {
                Some(c) => Ok(Some(c)),
                None => Err(Error::MaxVestingSchedulesPerAccountPerTokenReached),
            }
        }
    }

    /// Whether the amounts of `schedule` fit on top of the schedule that
    /// is already kept under `source`, if there is one.
    pub open spec fn schedule_fits(self, source: VestingSource, schedule: VestingSchedule) -> bool {
        has_source(self.vesting, source) ==> {
            let own = self.vesting[index_of(self.vesting, source)].schedule;
            own.cliff_amount + own.post_cliff_total_amount + schedule.cliff_amount
                + schedule.post_cliff_total_amount <= u128::MAX
        }
    }

    /// The schedules after `schedule` came in under `source`: added to the
    /// schedule already there, or put in as a new one once `cleanup` has
    /// made room.
    pub open spec fn vesting_with(
        self,
        source: VestingSource,
        schedule: VestingSchedule,
        cleanup: Option<VestingSource>,
    ) -> Seq<VestingEntry> {
        if has_source(self.vesting, source) {
            let i = index_of(self.vesting, source);
            replaced(self.vesting, i, self.vesting[i].schedule.spec_merged(schedule))
        } else {
            let cleared = match cleanup {
                Some(c) => if has_source(self.vesting, c) {
                    self.vesting.remove(index_of(self.vesting, c))
                } else {
                    self.vesting
                },
                None => self.vesting,
            };
            inserted(cleared, VestingEntry { source, schedule })
        }
    }

    /// The account after it received the tokens of `schedule` under
    /// `source`.
    pub open spec fn with_schedule(
        self,
        source: VestingSource,
        schedule: VestingSchedule,
        cleanup: Option<VestingSource>,
    ) -> AccountView {
        AccountView {
            amount: sat_add(self.amount, schedule.spec_total_amount()),
            vesting: self.vesting_with(source, schedule, cleanup),
            ..self
        }
    }

    /// The account with `amount` more tokens.
    pub open spec fn increased(self, amount: Balance) -> AccountView {
        AccountView { amount: sat_add(self.amount, amount), ..self }
    }

    /// The account with `amount` fewer tokens.
    pub open spec fn decreased(self, amount: Balance) -> AccountView {
        AccountView { amount: sat_sub(self.amount, amount), ..self }
    }

    /// The account after a burn of `amount` at block `b`: locked tokens go
    /// first, schedule by schedule, and the stake shrinks by the amount.
    pub open spec fn burned(self, amount: Balance, b: BlockNumber) -> AccountView {
        AccountView {
            amount: sat_sub(self.amount, amount),
            vesting: burned_entries(self.vesting, amount, b),
            staking: match self.staking {
                Some(s) => Some(StakingStatus { split_id: s.split_id, amount: sat_sub(s.amount, amount) }),
                None => None,
            },
            ..self
        }
    }

    /// Why `amount` tokens cannot be staked at block `b` in the split
    /// `split_id`, if they cannot: the account has a stake in that split
    /// already, or less than the amount is free once a stake in an
    /// earlier split is released.
    pub open spec fn stake_error(self, amount: Balance, b: BlockNumber, split_id: u32) -> Option<Error> {
        if self.staking.is_some() && self.staking.unwrap().split_id == split_id {
            Some(Error::UserAlreadyParticipating)
        } else if self.unstaked().transferrable(b) < amount {
            Some(Error::InsufficientBalanceForSplitParticipation)
        } else {
            None
        }
    }

    /// The account with `amount` tokens staked in the split `split_id`.
    pub open spec fn with_stake(self, split_id: u32, amount: Balance) -> AccountView {
        AccountView { staking: Some(StakingStatus { split_id, amount }), ..self }
    }

    /// The account without its stake.
    pub open spec fn unstaked(self) -> AccountView {
        AccountView { staking: None, ..self }
    }

    /// The account with its next vesting transfer id set to `id`.
    pub open spec fn with_next_transfer_id(self, id: u64) -> AccountView {
        AccountView { next_vesting_transfer_id: id, ..self }
    }
}

impl View for AccountData {
    type V = AccountView;

    open spec fn view(&self) -> AccountView {
        AccountView {
            amount: self.amount,
            vesting: self.vesting_schedules.entries(),
            staking: self.split_staking_status,
            bloat_bond: self.bloat_bond,
            next_vesting_transfer_id: self.next_vesting_transfer_id,
        }
    }
}

impl Default for AccountData {
    /// An empty account without a bond.
    fn default() -> (r: Self)
        ensures
            r.wf(),
            r@ == AccountView::fresh(0, RepayableBloatBond { amount: 0, repayment_restricted_to: None }),
    {
        AccountData::new_with_amount_and_bond(0, RepayableBloatBond::new(0, None))
    }
}

impl AccountData {
    /// The schedules are stored in their canonical form.
    pub open spec fn wf(&self) -> bool {
        self.vesting_schedules.wf()
    }

    /// Two well-formed accounts with the same value are the same.
    pub proof fn lemma_ext_equal(a: AccountData, b: AccountData)
        requires
            a.wf(),
            b.wf(),
            a@ == b@,
        ensures
            a == b,
    {
        VestingSchedules::lemma_ext_equal(a.vesting_schedules, b.vesting_schedules);
    }

    /// The value of a well-formed account is well formed.
    pub proof fn lemma_view_wf(self)
        requires
            self.wf(),
        ensures
            self@.wf(),
    {
        self.vesting_schedules.lemma_wf();
    }

    /// An account with `amount` free tokens.
    pub fn new_with_amount_and_bond(amount: Balance, bloat_bond: RepayableBloatBond) -> (r: Self)
        ensures
            r.wf(),
            r@ == AccountView::fresh(amount, bloat_bond),
    {
        AccountData {
            amount,
            vesting_schedules: VestingSchedules::new(),
            split_staking_status: None,
            bloat_bond,
            next_vesting_transfer_id: 0,
        }
    }

    /// An account whose tokens are all under `schedule`.
    pub fn new_with_vesting_and_bond(
        source: VestingSource,
        schedule: VestingSchedule,
        bloat_bond: RepayableBloatBond,
    ) -> (r: Self)
        requires
            schedule.wf(),
        ensures
            r.wf(),
            r@ == AccountView::fresh_vesting(source, schedule, bloat_bond),
    {
        let mut vesting_schedules = VestingSchedules::new();
        vesting_schedules.insert(source, schedule);
        proof {
            assert(vesting_schedules.entries() =~= seq![VestingEntry { source, schedule }]) by {
                reveal_with_fuel(crate::schedules::rank_in, 1);
            }
        }
        AccountData {
            amount: schedule.total_amount(),
            vesting_schedules,
            split_staking_status: None,
            bloat_bond,
            next_vesting_transfer_id: 0,
        }
    }

    /// The amount staked in a revenue split.
    pub fn staked(&self) -> (r: Balance)
        ensures
            r == self@.staked(),
    {
        match self.split_staking_status {
            Some(s) => s.amount,
            None => 0,
        }
    }

    /// The amount under vesting locks at block `b`.
    pub fn total_locked(&self, b: BlockNumber) -> (r: Balance)
        requires
            self.wf(),
        ensures
            r == self@.total_locked(b),
    {
        self.vesting_schedules.total_locked(b)
    }

    /// The amount that can leave the account at block `b`.
    pub fn transferrable(&self, b: BlockNumber) -> (r: Balance)
        requires
            self.wf(),
        ensures
            r == self@.transferrable(b),
            r <= self.amount,
    {
        saturating_sub(self.amount, max_balance(self.total_locked(b), self.staked()))
    }

    /// Whether the account holds no token.
    pub fn is_empty(&self) -> (r: bool)
        ensures
            r == (self.amount == 0),
    {
        self.amount == 0
    }

    /// Decides what a decrease by `amount` does to the account under the
    /// existential deposit `existential_deposit`.
    pub fn decrease_with_existential_deposit(
        &self,
        existential_deposit: Balance,
        amount: Balance,
    ) -> (r: DecreaseOp)
        ensures
            r == self@.decrease_op(existential_deposit, amount),
            match r {
                DecreaseOp::Reduce(a) => a == amount && sat_sub(self.amount, amount)
                    >= existential_deposit,
                DecreaseOp::Remove(a, dust) => a == amount && dust == sat_sub(self.amount, amount)
                    && dust < existential_deposit,
            },
    {
        let left = saturating_sub(self.amount, amount);
        if left >= existential_deposit {
            DecreaseOp::Reduce(amount)
        } else {
            DecreaseOp::Remove(amount, left)
        }
    }

    /// `Ok` exactly when `amount` tokens can leave the account at `b`.
    pub fn ensure_can_transfer(&self, b: BlockNumber, amount: Balance) -> (r: Result<(), Error>)
        requires
            self.wf(),
        ensures
            r == (if self@.transferrable(b) >= amount {
                Ok::<(), Error>(())
            } else {
                Err(Error::InsufficientTransferrableBalance)
            }),
    {
        if self.transferrable(b) >= amount {
            Ok(())
        } else {
            Err(Error::InsufficientTransferrableBalance)
        }
    }

    /// Whether one more schedule under `source` can be taken at block `b`;
    /// on success, the finished schedule that has to make room for it.
    pub fn ensure_can_add_or_update_vesting_schedule(
        &self,
        b: BlockNumber,
        source: VestingSource,
    ) -> (r: Result<Option<VestingSource>, Error>)
        requires
            self.wf(),
        ensures
            r == self@.can_add_schedule(b, source),
    {
        if self.vesting_schedules.find(&source).is_some() || !self.vesting_schedules.is_full() {
            proof {
                self.vesting_schedules.lemma_wf();
            }
            Ok(None)
        } else {
            match self.vesting_schedules.cleanup_candidate(b) {
                Some(c) => Ok(Some(c)),
                None => Err(Error::MaxVestingSchedulesPerAccountPerTokenReached),
            }
        }
    }

    /// Takes the tokens of `schedule` in under `source`.
    pub fn add_or_update_vesting_schedule(
        &mut self,
        source: VestingSource,
        schedule: VestingSchedule,
        cleanup: Option<VestingSource>,
    )
        requires
            old(self).wf(),
            schedule.wf(),
            old(self)@.schedule_fits(source, schedule),
            !has_source(old(self)@.vesting, source) ==> (old(self)@.vesting.len()
                < MAX_VESTING_SCHEDULES || (cleanup.is_some() && has_source(
                old(self)@.vesting,
                cleanup.unwrap(),
            ))),
        ensures
            final(self).wf(),
            final(self)@ == old(self)@.with_schedule(source, schedule, cleanup),
    {
        proof {
            self.vesting_schedules.lemma_wf();
        }
        match self.vesting_schedules.find(&source) {
            Some(i) => {
                let own = self.vesting_schedules.get(i).schedule;
                match own.merged(&schedule) {
                    Some(m) => {
                        self.vesting_schedules.set(i, m);
                    },
                    None => {},
                }
            },
            None => {
                match cleanup {
                    Some(c) => {
                        match self.vesting_schedules.find(&c) {
                            Some(j) => {
                                proof {
                                    lemma_removed_sorted(self.vesting_schedules.entries(), j as int);
                                }
                                self.vesting_schedules.remove_at(j);
                            },
                            None => {},
                        }
                    },
                    None => {},
                }
                self.vesting_schedules.insert(source, schedule);
            },
        }
        self.amount = saturating_add(self.amount, schedule.total_amount());
    }

    /// Adds `amount` tokens, saturating.
    pub fn increase_amount_by(&mut self, amount: Balance)
        ensures
            final(self)@ == old(self)@.increased(amount),
            final(self).wf() == old(self).wf(),
    {
        self.amount = saturating_add(self.amount, amount);
    }

    /// Takes `amount` tokens, saturating.
    pub fn decrease_amount_by(&mut self, amount: Balance)
        ensures
            final(self)@ == old(self)@.decreased(amount),
            final(self).wf() == old(self).wf(),
    {
        self.amount = saturating_sub(self.amount, amount);
    }

    /// Burns `amount` tokens at block `b`, locked ones first.
    pub fn burn(&mut self, amount: Balance, b: BlockNumber)
        requires
            old(self).wf(),
        ensures
            final(self).wf(),
            final(self)@ == old(self)@.burned(amount, b),
    {
        let _rest = self.vesting_schedules.burn(amount, b);
        self.split_staking_status =
        match self.split_staking_status {
            Some(s) => Some(
                StakingStatus { split_id: s.split_id, amount: saturating_sub(s.amount, amount) },
            ),
            None => None,
        };
        self.amount = saturating_sub(self.amount, amount);
    }

    /// `Ok` exactly when `amount` tokens can be staked at block `b` in the
    /// split `split_id`.
    pub fn ensure_can_stake(&self, amount: Balance, b: BlockNumber, split_id: u32) -> (r: Result<(), Error>)
        requires
            self.wf(),
        ensures
            r == (match self@.stake_error(amount, b, split_id) {
                Some(e) => Err::<(), Error>(e),
                None => Ok::<(), Error>(()),
            }),
    {
        match self.split_staking_status {
            Some(status) => {
                if status.split_id == split_id {
                    return Err(Error::UserAlreadyParticipating);
                }
            },
            None => {},
        }
        let mut released = *self;
        released.unstake();
        if released.transferrable(b) < amount {
            return Err(Error::InsufficientBalanceForSplitParticipation);
        }
        Ok(())
    }

    /// Stakes `amount` tokens in the split `split_id`.
    pub fn stake(&mut self, split_id: u32, amount: Balance)
        ensures
            final(self)@ == old(self)@.with_stake(split_id, amount),
            final(self).wf() == old(self).wf(),
    {
        self.split_staking_status = Some(StakingStatus { split_id, amount });
    }

    /// Releases the stake.
    pub fn unstake(&mut self)
        ensures
            final(self)@ == old(self)@.unstaked(),
            final(self).wf() == old(self).wf(),
    {
        self.split_staking_status = None;
    }
}

} // verus!
