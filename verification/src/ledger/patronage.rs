//! Patronage: the credit that minting accrues to the issuer.
use crate::account::{MemberId, TokenId};
use crate::arith::{checked_add, sat_add, saturating_add};
use crate::errors::Error;
use crate::events::Event;
use crate::ledger::{LedgerView, TokenLedger};
use crate::split::RevenueSplitState;
use crate::supply::lemma_held_bounded;
use crate::token::{PatronageData, TokenData, YearlyRate};
use crate::vesting::Balance;
use vstd::prelude::*;

verus! {

/// The token after `amount` tokens were minted: the supply grows by the
/// amount, the patronage credit by the rate's share of it, and the
/// tokens issued by both.
pub open spec fn minted(d: TokenData, amount: Balance) -> TokenData {
    let credit = d.patronage_info.rate.0.of(amount);
    TokenData {
        total_supply: sat_add(d.total_supply, amount),
        tokens_issued: sat_add(d.tokens_issued, sat_add(amount, credit)),
        patronage_info: PatronageData {
            outstanding_credit: sat_add(d.patronage_info.outstanding_credit, credit),
            ..d.patronage_info
        },
        ..d
    }
}

/// What lowering the patronage rate of the token `t` to `target` gives.
pub open spec fn reduce_patronage_rate_result(s: LedgerView, t: TokenId, target: YearlyRate) -> Result<
    LedgerView,
    Error,
> {
    match s.token(t) {
        Err(e) => Err(e),
        Ok(d) => if target.0.parts > d.patronage_info.rate.0.parts {
            Err(Error::TargetPatronageRateIsHigherThanCurrentRate)
        } else {
            Ok(
                s.with_token(
                    t,
                    TokenData {
                        patronage_info: PatronageData {
                            rate: target,
                            last_tally_block: s.block,
                            ..d.patronage_info
                        },
                        ..d
                    },
                ),
            )
        },
    }
}

/// Whether a claim of the patronage credit of the token `t` leaves
/// everything as it is: there is no credit to claim.
pub open spec fn claim_is_noop(s: LedgerView, t: TokenId) -> bool {
    s.tokens[t].patronage_info.outstanding_credit == 0
}

/// What claiming the patronage credit of the token `t` into the account
/// of the member `m` gives: the credit enters the account and the supply,
/// and is reset.
pub open spec fn claim_patronage_credit_result(s: LedgerView, t: TokenId, m: MemberId) -> Result<
    LedgerView,
    Error,
> {
    if !s.tokens.contains_key(t) {
        Err(Error::TokenDoesNotExist)
    } else if !s.accounts.contains_key((t, m)) {
        Err(Error::AccountInformationDoesNotExist)
    } else if s.tokens[t].revenue_split != RevenueSplitState::Inactive {
        Err(Error::CannotModifySupplyWhenRevenueSplitsAreActive)
    } else if claim_is_noop(s, t) {
        Ok(s)
    } else if s.tokens[t].total_supply + s.tokens[t].patronage_info.outstanding_credit > u128::MAX {
        Err(Error::ArithmeticError)
    } else {
        let d = s.tokens[t];
        let credit = d.patronage_info.outstanding_credit;
        Ok(
            s.with_account(t, m, s.accounts[(t, m)].increased(credit)).with_token(
                t,
                TokenData {
                    total_supply: (d.total_supply + credit) as u128,
                    patronage_info: PatronageData {
                        outstanding_credit: 0,
                        last_tally_block: s.block,
                        ..d.patronage_info
                    },
                    ..d
                },
            ),
        )
    }
}

/// What `reduce_patronage_rate_to` leaves behind, the ledger `after` and the result `r`,
/// given the ledger `before` that it was called on.
pub open spec fn reduce_patronage_rate_to_outcome(
    before: LedgerView,
    after: LedgerView,
    token_id: TokenId,
    target_rate: YearlyRate,
    r: Result<(), Error>,
) -> bool {
    match reduce_patronage_rate_result(before, token_id, target_rate) {
        Err(e) => r == Err::<(), Error>(e) && after == before,
        Ok(post) => r == Ok::<(), Error>(()) && post.plus_event(after)
            && after.events.last() == Event::PatronageRateDecreasedTo(token_id, target_rate)
            && after.tokens[token_id].patronage_info.rate.0.parts
            <= before.tokens[token_id].patronage_info.rate.0.parts,
    }
}

/// What `claim_patronage_credit` leaves behind, the ledger `after` and the result `r`,
/// given the ledger `before` that it was called on.
pub open spec fn claim_patronage_credit_outcome(
    before: LedgerView,
    after: LedgerView,
    token_id: TokenId,
    member_id: MemberId,
    r: Result<(), Error>,
) -> bool {
    match claim_patronage_credit_result(before, token_id, member_id) {
        Err(e) => r == Err::<(), Error>(e) && after == before,
        Ok(post) => r == Ok::<(), Error>(()) && (if claim_is_noop(before, token_id) {
            after == before
        } else {
            post.plus_event(after) && after.events.last()
                == Event::PatronageCreditClaimed(
                token_id,
                before.tokens[token_id].patronage_info.outstanding_credit,
                member_id,
            )
        }),
    }
}

impl TokenLedger {
    /// The token data after `amount` tokens were minted.
    pub fn do_mint(d: TokenData, amount: Balance) -> (r: TokenData)
        ensures
            r == minted(d, amount),
    {
        let credit = d.patronage_info.rate.0.mul_floor(amount);
        TokenData {
            total_supply: saturating_add(d.total_supply, amount),
            tokens_issued: saturating_add(d.tokens_issued, saturating_add(amount, credit)),
            patronage_info: PatronageData {
                outstanding_credit: saturating_add(d.patronage_info.outstanding_credit, credit),
                ..d.patronage_info
            },
            ..d
        }
    }

    /// Lowers the patronage rate of the token `token_id` to
    /// `target_rate`. The rate never goes up.
    pub fn reduce_patronage_rate_to(&mut self, token_id: TokenId, target_rate: YearlyRate) -> (r: Result<
        (),
        Error,
    >)
        requires
            old(self).wf(),
        ensures
            final(self).wf(),
            reduce_patronage_rate_to_outcome(old(self)@, final(self)@, token_id, target_rate, r),
    {
        let d = match self.get_token(token_id) {
            Ok(d) => d,
            Err(e) => {
                return Err(e);
            },
        };
        if target_rate.0.parts > d.patronage_info.rate.0.parts {
            return Err(Error::TargetPatronageRateIsHigherThanCurrentRate);
        }
        let updated = TokenData {
            patronage_info: PatronageData {
                rate: target_rate,
                last_tally_block: self.block_number,
                ..d.patronage_info
            },
            ..d
        };
        proof {
            self@.lemma_inv_token_data(token_id, updated);
        }
        self.put_token(token_id, updated);
        let ghost mid = self@;
        self.push_event(Event::PatronageRateDecreasedTo(token_id, target_rate));
        proof {
            mid.lemma_inv_frame(self@);
        }
        Ok(())
    }

    /// The patronage credit that the token `token_id` has accrued.
    pub fn get_patronage_credit(&self, token_id: TokenId) -> (r: Result<Balance, Error>)
        ensures
            r == (match self@.token(token_id) {
                Ok(d) => Ok::<Balance, Error>(d.patronage_info.outstanding_credit),
                Err(e) => Err::<Balance, Error>(e),
            }),
    {
        match self.get_token(token_id) {
            Ok(d) => Ok(d.patronage_info.outstanding_credit),
            Err(e) => Err(e),
        }
    }

    /// Pays the patronage credit of the token `token_id` into the account
    /// of the member `member_id` and resets it. Without credit nothing
    /// changes.
    pub fn claim_patronage_credit(&mut self, token_id: TokenId, member_id: MemberId) -> (r: Result<(), Error>)
        requires
            old(self).wf(),
        ensures
            final(self).wf(),
            claim_patronage_credit_outcome(old(self)@, final(self)@, token_id, member_id, r),
    {
        let d = match self.get_token(token_id) {
            Ok(d) => d,
            Err(e) => {
                return Err(e);
            },
        };
        let mut account = match self.get_account(token_id, member_id) {
            Ok(a) => a,
            Err(e) => {
                return Err(e);
            },
        };
        if !d.revenue_split.is_inactive() {
            return Err(Error::CannotModifySupplyWhenRevenueSplitsAreActive);
        }
        let credit = d.patronage_info.outstanding_credit;
        if credit == 0 {
            return Ok(());
        }
        let supply = match checked_add(d.total_supply, credit) {
            Some(v) => v,
            None => {
                return Err(Error::ArithmeticError);
            },
        };
        account.increase_amount_by(credit);
        let updated = TokenData {
            total_supply: supply,
            patronage_info: PatronageData {
                outstanding_credit: 0,
                last_tally_block: self.block_number,
                ..d.patronage_info
            },
            ..d
        };
        proof {
            account.lemma_view_wf();
            lemma_held_bounded(self@.accounts, token_id, member_id);
            assert(self@.token_inv(token_id));
            self@.lemma_inv_account_set(token_id, member_id, account@, updated);
        }
        self.put_account(token_id, member_id, account);
        self.put_token(token_id, updated);
        let ghost mid = self@;
        self.push_event(Event::PatronageCreditClaimed(token_id, credit, member_id));
        proof {
            mid.lemma_inv_frame(self@);
        }
        Ok(())
    }
}

} // verus!
