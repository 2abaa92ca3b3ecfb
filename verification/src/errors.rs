//! The typed failures of the ledger's operations.
use vstd::prelude::*;

verus! {

/// Why an operation was rejected. A rejected operation changes nothing.
#[derive(Clone, Copy, Debug, PartialEq, Eq, Structural)]
pub enum Error {
    /// An amount computation does not fit the balance type.
    ArithmeticError,
    /// The account's transferrable balance is below the amount asked for.
    InsufficientTransferrableBalance,
    /// The token does not exist.
    TokenDoesNotExist,
    /// The token symbol is taken by another token.
    TokenSymbolAlreadyInUse,
    /// An initial allocation names a member that does not exist.
    InitialAllocationToNonExistingMember,
    /// The member has no account for the token.
    AccountInformationDoesNotExist,
    /// A transfer destination is not a member.
    TransferDestinationMemberDoesNotExist,
    /// The merkle proof does not lead to the whitelist commitment.
    MerkleProofVerificationFailure,
    /// The target patronage rate is above the current one.
    TargetPatronageRateIsHigherThanCurrentRate,
    /// The token has tokens on sale, in a bonding curve or otherwise busy.
    TokenIssuanceNotInIdleState,
    /// The reserve-currency balance cannot cover the payment.
    InsufficientJoyBalance,
    /// The sale would start before the current block.
    SaleStartingBlockInThePast,
    /// The sale's upper bound quantity is zero.
    SaleUpperBoundQuantityIsZero,
    /// The sale's per-member cap is zero.
    SaleCapPerMemberIsZero,
    /// The sale lasts fewer blocks than the configured minimum.
    SaleDurationTooShort,
    /// The sale lasts no block at all.
    SaleDurationIsZero,
    /// The sale's unit price is zero.
    SaleUnitPriceIsZero,
    /// A purchase of zero tokens.
    SalePurchaseAmountIsZero,
    /// The token has no sale that is yet to start.
    NoUpcomingSale,
    /// The token has no sale in progress.
    NoActiveSale,
    /// The sale has fewer tokens left than the purchase asks for.
    NotEnoughTokensOnSale,
    /// The purchase would take the member over the sale's cap.
    SalePurchaseCapExceeded,
    /// The account cannot hold one more vesting schedule.
    MaxVestingSchedulesPerAccountPerTokenReached,
    /// An earlier sale still holds tokens that were not recovered.
    PreviousSaleNotFinalized,
    /// There is no sale to recover tokens from.
    NoTokensToRecover,
    /// The revenue split lasts fewer blocks than the configured minimum.
    RevenueSplitDurationTooShort,
    /// The split's start lies before the current block.
    StartingBlockLowerThanCurrentBlock,
    /// The token already has an active revenue split.
    RevenueSplitAlreadyActiveForToken,
    /// The token has no active revenue split.
    RevenueSplitNotActiveForToken,
    /// The revenue split has not reached its end.
    RevenueSplitDidNotEnd,
    /// The current block is outside the revenue split's window.
    RevenueSplitNotOngoing,
    /// The member already staked in the current revenue split.
    UserAlreadyParticipating,
    /// The transferrable balance is below the amount to stake.
    InsufficientBalanceForSplitParticipation,
    /// The member has no stake to release.
    UserNotParticipantingInAnySplit,
    /// A stake of zero tokens.
    CannotParticipateInSplitWithZeroAmount,
    /// The split's share of the revenue is zero.
    CannotIssueSplitWithZeroAllocationAmount,
    /// The supply cannot change while a revenue split is active.
    CannotModifySupplyWhenRevenueSplitsAreActive,
    /// The token's revenue split rate is zero.
    RevenueSplitRateIsZero,
    /// The split would start sooner than the configured lead time.
    RevenueSplitTimeToStartTooShort,
    /// A burn of zero tokens.
    BurnAmountIsZero,
    /// The burn asks for more tokens than the account holds.
    BurnAmountGreaterThanAccountTokensAmount,
    /// The token is not traded on a bonding curve.
    NotInAmmState,
    /// The curve's slope is below the configured minimum.
    CurveSlopeParametersTooLow,
    /// The price moved past the caller's tolerance.
    SlippageToleranceExceeded,
    /// The account holds fewer transferrable tokens than the sale asks for.
    InsufficientTokenBalance,
    /// Too many curve-minted tokens are outstanding to close the curve.
    OutstandingAmmProvidedSupplyTooLarge,
    /// The token has accounts left.
    CannotDeissueTokenWithOutstandingAccounts,
    /// A whitelist can only be joined under a permissioned policy.
    CannotJoinWhitelistInPermissionlessMode,
    /// The member already has an account for the token.
    AccountAlreadyExists,
    /// Only empty accounts can be removed.
    AttemptToRemoveNonEmptyAccount,
    /// Under a permissioned policy only the owner removes an account.
    AttemptToRemoveNonOwnedAccountUnderPermissionedMode,
    /// The location does not fit the token's transfer policy.
    LocationIncompatibleWithCurrentPolicy,
    /// A transfer names the same destination twice.
    TransferDestinationRepeated,
    /// The signer does not control the member it acts for.
    OriginNotMemberController,
}

/// The kinds of failure.
#[derive(Clone, Copy, Debug, PartialEq, Eq, Structural)]
pub enum ErrorKind {
    /// A token or an account is absent.
    NotFound,
    /// A balance, a reserve or a parameter does not allow the operation.
    PreconditionViolated,
    /// The token is in the wrong state for the operation.
    StateMachineViolation,
    /// The operation comes too early or too late.
    TemporalViolation,
    /// A cap or a bound would be exceeded.
    LimitExceeded,
    /// An amount computation does not fit the balance type.
    Arithmetic,
    /// The caller may not act for the member or on the account.
    AuthorizationFailure,
}

impl Error {
    /// The kind of failure that the error is.
    pub open spec fn spec_kind(self) -> ErrorKind {
        match self {
            Error::TokenDoesNotExist
            | Error::AccountInformationDoesNotExist
            | Error::TransferDestinationMemberDoesNotExist
            | Error::InitialAllocationToNonExistingMember
            | Error::NoTokensToRecover
            | Error::UserNotParticipantingInAnySplit => ErrorKind::NotFound,
            Error::ArithmeticError => ErrorKind::Arithmetic,
            Error::OriginNotMemberController
            | Error::AttemptToRemoveNonOwnedAccountUnderPermissionedMode
            | Error::MerkleProofVerificationFailure => ErrorKind::AuthorizationFailure,
            Error::TokenIssuanceNotInIdleState
            | Error::NoUpcomingSale
            | Error::NoActiveSale
            | Error::PreviousSaleNotFinalized
            | Error::RevenueSplitAlreadyActiveForToken
            | Error::RevenueSplitNotActiveForToken
            | Error::UserAlreadyParticipating
            | Error::CannotModifySupplyWhenRevenueSplitsAreActive
            | Error::NotInAmmState
            | Error::CannotJoinWhitelistInPermissionlessMode
            | Error::AccountAlreadyExists
            | Error::LocationIncompatibleWithCurrentPolicy => ErrorKind::StateMachineViolation,
            Error::SaleStartingBlockInThePast
            | Error::StartingBlockLowerThanCurrentBlock
            | Error::RevenueSplitDidNotEnd
            | Error::RevenueSplitNotOngoing
            | Error::RevenueSplitTimeToStartTooShort => ErrorKind::TemporalViolation,
            Error::SalePurchaseCapExceeded
            | Error::MaxVestingSchedulesPerAccountPerTokenReached
            | Error::OutstandingAmmProvidedSupplyTooLarge
            | Error::NotEnoughTokensOnSale
            | Error::SlippageToleranceExceeded => ErrorKind::LimitExceeded,
            _ => ErrorKind::PreconditionViolated,
        }
    }

    /// The kind of failure that the error is.
    pub fn kind(&self) -> (r: ErrorKind)
        ensures
            r == self.spec_kind(),
    {
        match self {
            Error::TokenDoesNotExist
            | Error::AccountInformationDoesNotExist
            | Error::TransferDestinationMemberDoesNotExist
            | Error::InitialAllocationToNonExistingMember
            | Error::NoTokensToRecover
            | Error::UserNotParticipantingInAnySplit => ErrorKind::NotFound,
            Error::ArithmeticError => ErrorKind::Arithmetic,
            Error::OriginNotMemberController
            | Error::AttemptToRemoveNonOwnedAccountUnderPermissionedMode
            | Error::MerkleProofVerificationFailure => ErrorKind::AuthorizationFailure,
            Error::TokenIssuanceNotInIdleState
            | Error::NoUpcomingSale
            | Error::NoActiveSale
            | Error::PreviousSaleNotFinalized
            | Error::RevenueSplitAlreadyActiveForToken
            | Error::RevenueSplitNotActiveForToken
            | Error::UserAlreadyParticipating
            | Error::CannotModifySupplyWhenRevenueSplitsAreActive
            | Error::NotInAmmState
            | Error::CannotJoinWhitelistInPermissionlessMode
            | Error::AccountAlreadyExists
            | Error::LocationIncompatibleWithCurrentPolicy => ErrorKind::StateMachineViolation,
            Error::SaleStartingBlockInThePast
            | Error::StartingBlockLowerThanCurrentBlock
            | Error::RevenueSplitDidNotEnd
            | Error::RevenueSplitNotOngoing
            | Error::RevenueSplitTimeToStartTooShort => ErrorKind::TemporalViolation,
            Error::SalePurchaseCapExceeded
            | Error::MaxVestingSchedulesPerAccountPerTokenReached
            | Error::OutstandingAmmProvidedSupplyTooLarge
            | Error::NotEnoughTokensOnSale
            | Error::SlippageToleranceExceeded => ErrorKind::LimitExceeded,
            _ => ErrorKind::PreconditionViolated,
        }
    }

    /// The error in words.
    pub open spec fn spec_message(self) -> Seq<char> {
        match self {
            Error::OriginNotMemberController => "origin signer not a member controller account"@,
            Error::ArithmeticError => "an amount computation does not fit the balance type"@,
            Error::TokenDoesNotExist => "the token does not exist"@,
            Error::AccountInformationDoesNotExist => "the member has no account for the token"@,
            Error::InsufficientJoyBalance => "the reserve-currency balance cannot cover the payment"@,
            Error::InsufficientTransferrableBalance => "the transferrable balance is below the amount"@,
            _ => "the operation is refused"@,
        }
    }

    /// The error in words.
    pub fn message(&self) -> (r: &'static str)
        ensures
            r@ == self.spec_message(),
    {
        match self {
            Error::OriginNotMemberController => "origin signer not a member controller account",
            Error::ArithmeticError => "an amount computation does not fit the balance type",
            Error::TokenDoesNotExist => "the token does not exist",
            Error::AccountInformationDoesNotExist => "the member has no account for the token",
            Error::InsufficientJoyBalance => "the reserve-currency balance cannot cover the payment",
            Error::InsufficientTransferrableBalance => "the transferrable balance is below the amount",
            _ => "the operation is refused",
        }
    }
}

} // verus!
