//! The domain events: one is appended to the ledger's event list by each
//! operation that succeeds and changes something.
use crate::account::{AccountId, JoyBalance, MemberId, TokenId};
use crate::amm::AmmCurve;
use crate::sale::TokenSale;
use crate::token::{TokenIssuanceParameters, TransferPolicy, YearlyRate};
use crate::vesting::{Balance, BlockNumber, VestingScheduleParams, VestingSource};
use vstd::prelude::*;

verus! {

/// A transfer destination, with what validation found of its account.
#[derive(Clone, Copy, Debug, PartialEq, Eq, Structural)]
pub enum Validated {
    /// The member has an account for the token.
    Existing(MemberId),
    /// The member has none: the transfer creates it.
    NonExisting(MemberId),
}

/// One output of a transfer, as it was carried out.
#[derive(Clone, Copy, Debug, PartialEq, Eq, Structural)]
pub struct ValidatedPayment {
    pub destination: Validated,
    pub amount: Balance,
    /// The vesting that the tokens arrive under, if any.
    pub vesting_schedule: Option<VestingScheduleParams>,
    /// The finished schedule that was dropped to make room, if any.
    pub vesting_cleanup_candidate: Option<VestingSource>,
}

/// What happened.
#[derive(Clone, Debug, PartialEq, Eq)]
pub enum Event {
    /// A token was issued: its id and what it was issued with.
    TokenIssued(TokenId, TokenIssuanceParameters),
    /// A token was removed.
    TokenDeissued(TokenId),
    /// Tokens moved: token, source member, outputs, metadata.
    TokenAmountTransferred(TokenId, MemberId, Vec<ValidatedPayment>, Vec<u8>),
    /// The issuer moved tokens: token, source member, outputs, metadata.
    TokenAmountTransferredByIssuer(TokenId, MemberId, Vec<ValidatedPayment>, Vec<u8>),
    /// The patronage rate went down: token, new rate.
    PatronageRateDecreasedTo(TokenId, YearlyRate),
    /// Patronage credit was claimed: token, amount, receiving member.
    PatronageCreditClaimed(TokenId, Balance, MemberId),
    /// A revenue split was issued: token, start, duration, allocation.
    RevenueSplitIssued(TokenId, BlockNumber, BlockNumber, JoyBalance),
    /// A revenue split was closed: token, receiver, amount given back.
    RevenueSplitFinalized(TokenId, AccountId, JoyBalance),
    /// A member staked in a split: token, member, stake, dividend, split.
    UserParticipatedInSplit(TokenId, MemberId, Balance, JoyBalance, u32),
    /// A member released its stake: token, member, amount released.
    RevenueSplitLeft(TokenId, MemberId, Balance),
    /// A member joined the whitelist: token, member, policy.
    MemberJoinedWhitelist(TokenId, MemberId, TransferPolicy),
    /// An account was removed: token, member, who removed it, policy.
    AccountDustedBy(TokenId, MemberId, AccountId, TransferPolicy),
    /// A sale was set up: token, sale id, sale.
    TokenSaleInitialized(TokenId, u32, TokenSale),
    /// A sale that had not started was changed: token, sale id, new
    /// start, new duration.
    UpcomingTokenSaleUpdated(TokenId, u32, Option<BlockNumber>, Option<BlockNumber>),
    /// Tokens were bought on sale: token, sale id, amount, buyer.
    TokensPurchasedOnSale(TokenId, u32, Balance, MemberId),
    /// A sale was closed: token, sale id, tokens recovered, funds
    /// collected.
    TokenSaleFinalized(TokenId, u32, Balance, JoyBalance),
    /// The token can now be held by anyone.
    TransferPolicyChangedToPermissionless(TokenId),
    /// Tokens were burned: token, member, amount.
    TokensBurned(TokenId, MemberId, Balance),
    /// A bonding curve was opened: token, member, curve.
    AmmActivated(TokenId, MemberId, AmmCurve),
    /// Tokens were minted by the curve: token, member, amount, cost.
    TokensBoughtOnAmm(TokenId, MemberId, Balance, JoyBalance),
    /// Tokens were sold to the curve: token, member, amount, payout.
    TokensSoldOnAmm(TokenId, MemberId, Balance, JoyBalance),
    /// The bonding curve was closed: token, member, reserve destroyed.
    AmmDeactivated(TokenId, MemberId, JoyBalance),
}

impl Validated {
    /// The member that the destination names.
    pub open spec fn member(self) -> MemberId {
        match self {
            Validated::Existing(m) => m,
            Validated::NonExisting(m) => m,
        }
    }

    /// The member that the destination names.
    pub fn member_id(&self) -> (r: MemberId)
        ensures
            r == self.member(),
    {
        match self {
            Validated::Existing(m) => *m,
            Validated::NonExisting(m) => *m,
        }
    }
}

} // verus!
