//! Revenue splits: issuing one, taking part, leaving and closing it.
use crate::account::{AccountId, AccountView, JoyBalance, MemberId, TokenId};
use crate::arith::{sat_sub, saturating_sub};
use crate::errors::Error;
use crate::events::Event;
use crate::joy::JoyAccountId;
use crate::ledger::{LedgerView, TokenLedger};
use crate::split::{
    compute_revenue_split_amount, spec_dividend, RevenueSplitInfo, RevenueSplitState, SplitTimeline,
    SplitTimelineParameters,
};
use crate::token::TokenData;
use crate::vesting::{sat_add_block, saturating_add_block, Balance, BlockNumber};
use vstd::prelude::*;

verus! {

/// The first block of a split asked for with the start `start`: the
/// earliest block allowed if none is given.
pub open spec fn split_start(s: LedgerView, start: Option<BlockNumber>) -> BlockNumber {
    match start {
        Some(b) => b,
        None => sat_add_block(s.block, s.parameters.min_revenue_split_time_to_start),
    }
}

/// The part of a revenue of `revenue` that the token `t` puts into a
/// split.
pub open spec fn allocation_of(s: LedgerView, t: TokenId, revenue: JoyBalance) -> JoyBalance {
    s.tokens[t].revenue_split_rate.of(revenue)
}

/// Why a revenue split of the token `t` cannot be issued, if it cannot.
pub open spec fn issue_revenue_split_error(
    s: LedgerView,
    t: TokenId,
    start: Option<BlockNumber>,
    duration: BlockNumber,
    source: AccountId,
    revenue: JoyBalance,
) -> Option<Error> {
    if !s.tokens.contains_key(t) {
        Some(Error::TokenDoesNotExist)
    } else if s.tokens[t].revenue_split != RevenueSplitState::Inactive {
        Some(Error::RevenueSplitAlreadyActiveForToken)
    } else if split_start(s, start) < sat_add_block(s.block, s.parameters.min_revenue_split_time_to_start) {
        Some(Error::RevenueSplitTimeToStartTooShort)
    } else {
        match (SplitTimelineParameters { start: split_start(s, start), duration }).spec_try_build(
            s.block,
            s.parameters.min_revenue_split_duration,
        ) {
            Err(e) => Some(e),
            Ok(_) => if allocation_of(s, t, revenue) == 0 {
                Some(Error::CannotIssueSplitWithZeroAllocationAmount)
            } else if !s.joy.can_transfer(JoyAccountId::Plain(source), allocation_of(s, t, revenue)) {
                Some(Error::InsufficientJoyBalance)
            } else if s.tokens[t].next_revenue_split_id == u32::MAX {
                Some(Error::ArithmeticError)
            } else {
                None
            },
        }
    }
}

/// The ledger after a revenue split of the token `t` was issued: the
/// token's share of the revenue lies in the token's treasury, and the
/// split is active with nothing paid out.
pub open spec fn split_issued(
    s: LedgerView,
    t: TokenId,
    start: Option<BlockNumber>,
    duration: BlockNumber,
    source: AccountId,
    revenue: JoyBalance,
) -> LedgerView {
    let d = s.tokens[t];
    let allocation = allocation_of(s, t, revenue);
    s.with_token(
        t,
        TokenData {
            revenue_split: RevenueSplitState::Active(
                RevenueSplitInfo {
                    allocation,
                    timeline: SplitTimeline { start: split_start(s, start), duration },
                    dividends_claimed: 0,
                },
            ),
            next_revenue_split_id: (d.next_revenue_split_id + 1) as u32,
            ..d
        },
    ).with_joy(s.joy.transferred(JoyAccountId::Plain(source), JoyAccountId::Treasury(t), allocation))
}

/// Whether the member's stake is in the split that the token has now.
pub open spec fn staked_in_current(a: AccountView, d: TokenData) -> bool {
    a.staking.is_some() && a.staking.unwrap().split_id == d.current_split_id()
}

/// The dividend that a stake of `amount` tokens of `t` by the member `m`
/// is paid at once, or why the stake is refused. A stake left over from
/// an earlier split is released by the new one, so it does not count
/// against what can be staked.
pub open spec fn participation_dividend(s: LedgerView, sender: AccountId, t: TokenId, m: MemberId, amount: Balance) -> Result<
    JoyBalance,
    Error,
> {
    if !s.authorized(sender, m) {
        Err(Error::OriginNotMemberController)
    } else if amount == 0 {
        Err(Error::CannotParticipateInSplitWithZeroAmount)
    } else if !s.tokens.contains_key(t) {
        Err(Error::TokenDoesNotExist)
    } else {
        match s.tokens[t].revenue_split {
            RevenueSplitState::Inactive => Err(Error::RevenueSplitNotActiveForToken),
            RevenueSplitState::Active(info) => if !info.timeline.spec_is_ongoing(s.block) {
                Err(Error::RevenueSplitNotOngoing)
            } else if !s.accounts.contains_key((t, m)) {
                Err(Error::AccountInformationDoesNotExist)
            } else if s.accounts[(t, m)].stake_error(amount, s.block, s.tokens[t].current_split_id()).is_some() {
                Err(s.accounts[(t, m)].stake_error(amount, s.block, s.tokens[t].current_split_id()).unwrap())
            } else if s.tokens[t].total_supply == 0 || spec_dividend(
                amount,
                s.tokens[t].total_supply,
                info.allocation,
            ) > u128::MAX {
                Err(Error::ArithmeticError)
            } else if s.joy.account(JoyAccountId::Treasury(t)).free < spec_dividend(
                amount,
                s.tokens[t].total_supply,
                info.allocation,
            ) {
                Err(Error::InsufficientJoyBalance)
            } else {
                Ok(spec_dividend(amount, s.tokens[t].total_supply, info.allocation) as u128)
            },
        }
    }
}

/// The ledger after the member `m` staked `amount` tokens of `t` and was
/// paid `dividend` out of the token's treasury.
pub open spec fn participated(s: LedgerView, sender: AccountId, t: TokenId, m: MemberId, amount: Balance, dividend: JoyBalance) -> LedgerView {
    let d = s.tokens[t];
    s.with_account(t, m, s.accounts[(t, m)].with_stake(d.current_split_id(), amount)).with_token(
        t,
        TokenData { revenue_split: d.revenue_split.with_dividend(dividend), ..d },
    ).with_joy(s.joy.transferred(JoyAccountId::Treasury(t), JoyAccountId::Plain(sender), dividend))
}

/// What releasing the stake of the member `m` in a split of the token
/// `t` gives.
pub open spec fn exit_revenue_split_result(s: LedgerView, sender: AccountId, t: TokenId, m: MemberId) -> Result<
    LedgerView,
    Error,
> {
    if !s.authorized(sender, m) {
        Err(Error::OriginNotMemberController)
    } else if !s.tokens.contains_key(t) {
        Err(Error::TokenDoesNotExist)
    } else if !s.accounts.contains_key((t, m)) {
        Err(Error::AccountInformationDoesNotExist)
    } else if s.accounts[(t, m)].staking.is_none() {
        Err(Error::UserNotParticipantingInAnySplit)
    } else if (match s.tokens[t].revenue_split {
        RevenueSplitState::Active(info) => staked_in_current(s.accounts[(t, m)], s.tokens[t])
            && !info.timeline.spec_is_ended(s.block),
        RevenueSplitState::Inactive => false,
    }) {
        Err(Error::RevenueSplitDidNotEnd)
    } else {
        Ok(s.with_account(t, m, s.accounts[(t, m)].unstaked()))
    }
}

/// What of the allocation of the active split of the token `t` is given
/// back when the split is closed, or why it cannot be closed.
pub open spec fn finalize_leftovers(s: LedgerView, t: TokenId) -> Result<JoyBalance, Error> {
    if !s.tokens.contains_key(t) {
        Err(Error::TokenDoesNotExist)
    } else {
        match s.tokens[t].revenue_split {
            RevenueSplitState::Inactive => Err(Error::RevenueSplitNotActiveForToken),
            RevenueSplitState::Active(info) => if !info.timeline.spec_is_ended(s.block) {
                Err(Error::RevenueSplitDidNotEnd)
            } else if s.joy.account(JoyAccountId::Treasury(t)).free < info.spec_leftovers() {
                Err(Error::InsufficientJoyBalance)
            } else {
                Ok(info.spec_leftovers())
            },
        }
    }
}

/// The ledger after the split of the token `t` was closed and
/// `leftovers` went from the token's treasury to `account`.
pub open spec fn split_finalized(s: LedgerView, t: TokenId, account: AccountId, leftovers: JoyBalance) -> LedgerView {
    s.with_token(t, TokenData { revenue_split: RevenueSplitState::Inactive, ..s.tokens[t] }).with_joy(
        s.joy.transferred(JoyAccountId::Treasury(t), JoyAccountId::Plain(account), leftovers),
    )
}

/// What `issue_revenue_split` leaves behind, the ledger `after` and the result `r`,
/// given the ledger `before` that it was called on.
pub open spec fn issue_revenue_split_outcome(
    before: LedgerView,
    after: LedgerView,
    token_id: TokenId,
    start: Option<BlockNumber>,
    duration: BlockNumber,
    revenue_source_account: AccountId,
    revenue_amount: JoyBalance,
    r: Result<JoyBalance, Error>,
) -> bool {
    match issue_revenue_split_error(
        before,
        token_id,
        start,
        duration,
        revenue_source_account,
        revenue_amount,
    ) {
        Some(e) => r == Err::<JoyBalance, Error>(e) && after == before,
        None => r == Ok::<JoyBalance, Error>(
            sat_sub(revenue_amount, allocation_of(before, token_id, revenue_amount)),
        ) && split_issued(
            before,
            token_id,
            start,
            duration,
            revenue_source_account,
            revenue_amount,
        ).plus_event(after) && after.events.last() == Event::RevenueSplitIssued(
            token_id,
            split_start(before, start),
            duration,
            allocation_of(before, token_id, revenue_amount),
        ),
    }
}

/// What `participate_in_split` leaves behind, the ledger `after` and the result `r`,
/// given the ledger `before` that it was called on.
pub open spec fn participate_in_split_outcome(
    before: LedgerView,
    after: LedgerView,
    sender: AccountId,
    token_id: TokenId,
    member_id: MemberId,
    amount: Balance,
    r: Result<(), Error>,
) -> bool {
    match participation_dividend(before, sender, token_id, member_id, amount) {
        Err(e) => r == Err::<(), Error>(e) && after == before,
        Ok(dividend) => r == Ok::<(), Error>(()) && participated(
            before,
            sender,
            token_id,
            member_id,
            amount,
            dividend,
        ).plus_event(after) && after.events.last() == Event::UserParticipatedInSplit(
            token_id,
            member_id,
            amount,
            dividend,
            before.tokens[token_id].current_split_id(),
        ),
    }
}

/// What `exit_revenue_split` leaves behind, the ledger `after` and the result `r`,
/// given the ledger `before` that it was called on.
pub open spec fn exit_revenue_split_outcome(
    before: LedgerView,
    after: LedgerView,
    sender: AccountId,
    token_id: TokenId,
    member_id: MemberId,
    r: Result<(), Error>,
) -> bool {
    match exit_revenue_split_result(before, sender, token_id, member_id) {
        Err(e) => r == Err::<(), Error>(e) && after == before,
        Ok(post) => r == Ok::<(), Error>(()) && post.plus_event(after)
            && after.events.last() == Event::RevenueSplitLeft(
            token_id,
            member_id,
            before.accounts[(token_id, member_id)].staked(),
        ),
    }
}

/// What `finalize_revenue_split` leaves behind, the ledger `after` and the result `r`,
/// given the ledger `before` that it was called on.
pub open spec fn finalize_revenue_split_outcome(
    before: LedgerView,
    after: LedgerView,
    token_id: TokenId,
    account_id: AccountId,
    r: Result<(), Error>,
) -> bool {
    match finalize_leftovers(before, token_id) {
        Err(e) => r == Err::<(), Error>(e) && after == before,
        Ok(leftovers) => r == Ok::<(), Error>(()) && split_finalized(
            before,
            token_id,
            account_id,
            leftovers,
        ).plus_event(after) && after.events.last() == Event::RevenueSplitFinalized(
            token_id,
            account_id,
            leftovers,
        ),
    }
}

impl TokenLedger {
    /// Issues a revenue split for the token `token_id`: the token's
    /// share of `revenue_amount` moves from `revenue_source_account` to
    /// the token's treasury. Returns what of the revenue stays with the
    /// source.
    pub fn issue_revenue_split(
        &mut self,
        token_id: TokenId,
        start: Option<BlockNumber>,
        duration: BlockNumber,
        revenue_source_account: AccountId,
        revenue_amount: JoyBalance,
    ) -> (r: Result<JoyBalance, Error>)
        requires
            old(self).wf(),
        ensures
            final(self).wf(),
            issue_revenue_split_outcome(old(self)@, final(self)@, token_id, start, duration, revenue_source_account, revenue_amount, r),
    {
        let d = match self.get_token(token_id) {
            Ok(d) => d,
            Err(e) => {
                return Err(e);
            },
        };
        match d.revenue_split.ensure_inactive() {
            Err(e) => {
                return Err(e);
            },
            Ok(_) => {},
        }
        let earliest = saturating_add_block(
            self.block_number,
            self.parameters.min_revenue_split_time_to_start,
        );
        let start_block = match start {
            Some(b) => b,
            None => earliest,
        };
        if start_block < earliest {
            return Err(Error::RevenueSplitTimeToStartTooShort);
        }
        let timeline = match SplitTimelineParameters::new(start_block, duration).try_build(
            self.block_number,
            self.parameters.min_revenue_split_duration,
        ) {
            Ok(t) => t,
            Err(e) => {
                return Err(e);
            },
        };
        let allocation = d.revenue_split_rate.mul_floor(revenue_amount);
        if allocation == 0 {
            return Err(Error::CannotIssueSplitWithZeroAllocationAmount);
        }
        let source = JoyAccountId::Plain(revenue_source_account);
        if !self.joy.can_transfer(source, allocation) {
            return Err(Error::InsufficientJoyBalance);
        }
        if d.next_revenue_split_id == u32::MAX {
            return Err(Error::ArithmeticError);
        }
        let mut state = d.revenue_split;
        state.activate(allocation, timeline);
        let updated = TokenData {
            revenue_split: state,
            next_revenue_split_id: d.next_revenue_split_id + 1,
            ..d
        };
        proof {
            self@.lemma_inv_token_data(token_id, updated);
        }
        self.put_token(token_id, updated);
        let _moved = self.joy.transfer(source, JoyAccountId::Treasury(token_id), allocation);
        let ghost mid = self@;
        proof {
            old(self)@.with_token(token_id, updated).lemma_inv_frame(mid);
        }
        self.push_event(Event::RevenueSplitIssued(token_id, start_block, duration, allocation));
        proof {
            mid.lemma_inv_frame(self@);
        }
        Ok(saturating_sub(revenue_amount, allocation))
    }

    /// Stakes `amount` tokens of the member `member_id`, whom `sender`
    /// controls, in the ongoing split of the token `token_id`, and pays
    /// the member's share of the allocation at once.
    pub fn participate_in_split(
        &mut self,
        sender: AccountId,
        token_id: TokenId,
        member_id: MemberId,
        amount: Balance,
    ) -> (r: Result<(), Error>)
        requires
            old(self).wf(),
        ensures
            final(self).wf(),
            participate_in_split_outcome(old(self)@, final(self)@, sender, token_id, member_id, amount, r),
    {
        match self.ensure_authorized(sender, member_id) {
            Err(e) => {
                return Err(e);
            },
            Ok(_) => {},
        }
        if amount == 0 {
            return Err(Error::CannotParticipateInSplitWithZeroAmount);
        }
        let d = match self.get_token(token_id) {
            Ok(d) => d,
            Err(e) => {
                return Err(e);
            },
        };
        let info = match d.revenue_split.ensure_active() {
            Ok(i) => i,
            Err(e) => {
                return Err(e);
            },
        };
        if !info.timeline.is_ongoing(self.block_number) {
            return Err(Error::RevenueSplitNotOngoing);
        }
        let mut account = match self.get_account(token_id, member_id) {
            Ok(a) => a,
            Err(e) => {
                return Err(e);
            },
        };
        let split_id = d.split_id();
        match account.ensure_can_stake(amount, self.block_number, split_id) {
            Err(e) => {
                return Err(e);
            },
            Ok(_) => {},
        }
        let dividend = match compute_revenue_split_amount(amount, d.total_supply, info.allocation) {
            Some(v) => v,
            None => {
                return Err(Error::ArithmeticError);
            },
        };
        let treasury = JoyAccountId::Treasury(token_id);
        if self.joy.free_balance(treasury) < dividend {
            return Err(Error::InsufficientJoyBalance);
        }
        account.stake(split_id, amount);
        let mut state = d.revenue_split;
        state.account_for_dividend(dividend);
        let updated = TokenData { revenue_split: state, ..d };
        proof {
            account.lemma_view_wf();
            assert(self@.token_inv(token_id));
            self@.lemma_inv_account_set(token_id, member_id, account@, updated);
        }
        self.put_account(token_id, member_id, account);
        self.put_token(token_id, updated);
        let _moved = self.joy.transfer(treasury, JoyAccountId::Plain(sender), dividend);
        let ghost mid = self@;
        proof {
            old(self)@.with_account(token_id, member_id, account@).with_token(token_id, updated).lemma_inv_frame(
                mid,
            );
        }
        self.push_event(
            Event::UserParticipatedInSplit(token_id, member_id, amount, dividend, split_id),
        );
        proof {
            mid.lemma_inv_frame(self@);
        }
        Ok(())
    }

    /// Releases the stake of the member `member_id`, whom `sender`
    /// controls. A stake in the split that the token has now is held
    /// until that split's window has passed.
    pub fn exit_revenue_split(&mut self, sender: AccountId, token_id: TokenId, member_id: MemberId) -> (r:
        Result<(), Error>)
        requires
            old(self).wf(),
        ensures
            final(self).wf(),
            exit_revenue_split_outcome(old(self)@, final(self)@, sender, token_id, member_id, r),
    {
        match self.ensure_authorized(sender, member_id) {
            Err(e) => {
                return Err(e);
            },
            Ok(_) => {},
        }
        let d = match self.get_token(token_id) {
            Ok(d) => d,
            Err(e) => {
                return Err(e);
            },
        };
        let mut account = match self.get_account(token_id, member_id) {
            Ok(a) => a,
            Err(e) => {
                return Err(e);
            },
        };
        let status = match account.split_staking_status {
            Some(s) => s,
            None => {
                return Err(Error::UserNotParticipantingInAnySplit);
            },
        };
        match d.revenue_split {
            RevenueSplitState::Active(info) => {
                if status.split_id == d.split_id() && !info.timeline.is_ended(self.block_number) {
                    return Err(Error::RevenueSplitDidNotEnd);
                }
            },
            RevenueSplitState::Inactive => {},
        }
        account.unstake();
        proof {
            account.lemma_view_wf();
            assert(self@.token_inv(token_id));
            self@.lemma_inv_account_set(token_id, member_id, account@, d);
            assert(self@.with_account(token_id, member_id, account@).with_token(token_id, d)
                == self@.with_account(token_id, member_id, account@)) by {
                assert(self@.tokens.insert(token_id, d) =~= self@.tokens);
            }
        }
        self.put_account(token_id, member_id, account);
        let ghost mid = self@;
        self.push_event(Event::RevenueSplitLeft(token_id, member_id, status.amount));
        proof {
            mid.lemma_inv_frame(self@);
        }
        Ok(())
    }

    /// Closes the split of the token `token_id` once its window has
    /// passed, and gives what was not paid out to `account_id`.
    pub fn finalize_revenue_split(&mut self, token_id: TokenId, account_id: AccountId) -> (r: Result<(), Error>)
        requires
            old(self).wf(),
        ensures
            final(self).wf(),
            finalize_revenue_split_outcome(old(self)@, final(self)@, token_id, account_id, r),
    {
        let d = match self.get_token(token_id) {
            Ok(d) => d,
            Err(e) => {
                return Err(e);
            },
        };
        let info = match d.revenue_split.ensure_active() {
            Ok(i) => i,
            Err(e) => {
                return Err(e);
            },
        };
        if !info.timeline.is_ended(self.block_number) {
            return Err(Error::RevenueSplitDidNotEnd);
        }
        let leftovers = info.leftovers();
        let treasury = JoyAccountId::Treasury(token_id);
        if self.joy.free_balance(treasury) < leftovers {
            return Err(Error::InsufficientJoyBalance);
        }
        let updated = TokenData { revenue_split: RevenueSplitState::Inactive, ..d };
        proof {
            self@.lemma_inv_token_data(token_id, updated);
        }
        self.put_token(token_id, updated);
        let _moved = self.joy.transfer(treasury, JoyAccountId::Plain(account_id), leftovers);
        let ghost mid = self@;
        proof {
            old(self)@.with_token(token_id, updated).lemma_inv_frame(mid);
        }
        self.push_event(Event::RevenueSplitFinalized(token_id, account_id, leftovers));
        proof {
            mid.lemma_inv_frame(self@);
        }
        Ok(())
    }
}

} // verus!
