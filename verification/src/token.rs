//! The data kept for each token.
use crate::account::MemberId;
use crate::amm::AmmCurve;
use crate::arith::Permill;
use crate::merkle::H256;
use crate::sale::TokenSale;
use crate::split::RevenueSplitState;
use crate::vesting::{Balance, BlockNumber, VestingScheduleParams};
use vstd::prelude::*;

verus! {

/// Who can hold a token.
#[derive(Clone, Copy, Debug, PartialEq, Eq)]
pub enum TransferPolicy {
    /// Anyone: a transfer to a new member creates its account.
    Permissionless,
    /// Only members that proved to be under the whitelist commitment.
    Permissioned(H256),
}

/// The whitelist that a permissioned token is issued with.
#[derive(Clone, Copy, Debug, PartialEq, Eq)]
pub struct WhitelistParams {
    /// The merkle root over the whitelisted member ids.
    pub commitment: H256,
}

/// The transfer policy that a token is issued with.
#[derive(Clone, Copy, Debug, PartialEq, Eq)]
pub enum TransferPolicyParams {
    Permissionless,
    Permissioned(WhitelistParams),
}

/// A patronage rate, as a fraction per year.
#[derive(Clone, Copy, Debug, PartialEq, Eq, Structural)]
pub struct YearlyRate(pub Permill);

/// The patronage that the issuer is owed.
#[derive(Clone, Copy, Debug, PartialEq, Eq, Structural)]
pub struct PatronageData {
    /// The rate at which minting accrues credit.
    pub rate: YearlyRate,
    /// The credit accrued and not yet claimed.
    pub outstanding_credit: Balance,
    /// The block at which the credit was last claimed or the rate changed.
    pub last_tally_block: BlockNumber,
}

/// What one member gets when a token is issued.
#[derive(Clone, Copy, Debug, PartialEq, Eq, Structural)]
pub struct TokenAllocation {
    pub amount: Balance,
    pub vesting_schedule_params: Option<VestingScheduleParams>,
}

/// What a token is issued with.
#[derive(Clone, Debug, PartialEq, Eq)]
pub struct TokenIssuanceParameters {
    /// The first holders, each member at most once.
    pub initial_allocation: Vec<(MemberId, TokenAllocation)>,
    /// The hash of the token's symbol.
    pub symbol: H256,
    pub transfer_policy: TransferPolicyParams,
    pub patronage_rate: YearlyRate,
    /// The share of a revenue that goes into a revenue split.
    pub revenue_split_rate: Permill,
    /// The balance below which an account is removed.
    pub existential_deposit: Balance,
}

/// Everything kept for one token.
#[derive(Clone, Copy, Debug, PartialEq, Eq)]
pub struct TokenData {
    /// The tokens held in accounts or on sale.
    pub total_supply: Balance,
    /// The tokens ever issued, burned ones and unclaimed credit included.
    pub tokens_issued: Balance,
    /// The balance below which an account is removed.
    pub existential_deposit: Balance,
    /// The hash of the token's symbol.
    pub symbol: H256,
    pub transfer_policy: TransferPolicy,
    /// The number of accounts of the token.
    pub accounts_number: u64,
    pub patronage_info: PatronageData,
    /// The sale of the token, from its start to its finalization.
    pub sale: Option<TokenSale>,
    /// The id that the next sale gets.
    pub next_sale_id: u32,
    pub revenue_split: RevenueSplitState,
    /// The share of a revenue that goes into a revenue split.
    pub revenue_split_rate: Permill,
    /// The bonding curve, while one is open.
    pub amm_curve: Option<AmmCurve>,
    /// The id that the next revenue split gets.
    pub next_revenue_split_id: u32,
}

/// How a token is being issued at a given block.
#[derive(Clone, Copy, Debug, PartialEq, Eq, Structural)]
pub enum IssuanceState {
    /// Neither on sale nor on a bonding curve.
    Idle,
    /// A sale is scheduled and has not started.
    UpcomingSale(TokenSale),
    /// A sale is in progress.
    Sale(TokenSale),
    /// A bonding curve is open.
    Amm(AmmCurve),
}

impl TransferPolicyParams {
    /// The policy that the parameters stand for.
    pub open spec fn policy(self) -> TransferPolicy {
        match self {
            TransferPolicyParams::Permissionless => TransferPolicy::Permissionless,
            TransferPolicyParams::Permissioned(w) => TransferPolicy::Permissioned(w.commitment),
        }
    }

    /// The policy that the parameters stand for.
    pub fn to_policy(&self) -> (r: TransferPolicy)
        ensures
            r == self.policy(),
    {
        match self {
            TransferPolicyParams::Permissionless => TransferPolicy::Permissionless,
            TransferPolicyParams::Permissioned(w) => TransferPolicy::Permissioned(w.commitment),
        }
    }
}

impl TransferPolicy {
    /// Whether anyone can hold the token.
    pub open spec fn spec_is_permissionless(self) -> bool {
        self is Permissionless
    }

    /// Whether anyone can hold the token.
    pub fn is_permissionless(&self) -> (r: bool)
        ensures
            r == self.spec_is_permissionless(),
    {
        match self {
            TransferPolicy::Permissionless => true,
            TransferPolicy::Permissioned(_) => false,
        }
    }
}

impl IssuanceState {
    /// The state of `token` at block `now`: a sale counts from its start
    /// block to its end block, a bonding curve while it is open.
    pub open spec fn spec_of(token: TokenData, now: BlockNumber) -> IssuanceState {
        match token.sale {
            Some(sale) => if sale.spec_is_upcoming(now) {
                IssuanceState::UpcomingSale(sale)
            } else if sale.spec_is_active(now) {
                IssuanceState::Sale(sale)
            } else {
                match token.amm_curve {
                    Some(curve) => IssuanceState::Amm(curve),
                    None => IssuanceState::Idle,
                }
            },
            None => match token.amm_curve {
                Some(curve) => IssuanceState::Amm(curve),
                None => IssuanceState::Idle,
            },
        }
    }

    /// The state of `token` at block `now`.
    pub fn of(token: &TokenData, now: BlockNumber) -> (r: IssuanceState)
        ensures
            r == Self::spec_of(*token, now),
    {
        match token.sale {
            Some(sale) => {
                if sale.is_upcoming(now) {
                    return IssuanceState::UpcomingSale(sale);
                }
                if sale.is_active(now) {
                    return IssuanceState::Sale(sale);
                }
            },
            None => {},
        }
        match token.amm_curve {
            Some(curve) => IssuanceState::Amm(curve),
            None => IssuanceState::Idle,
        }
    }

    /// Whether the token is neither on sale nor on a bonding curve.
    pub fn is_idle(&self) -> (r: bool)
        ensures
            r == (*self == IssuanceState::Idle),
    {
        match self {
            IssuanceState::Idle => true,
            _ => false,
        }
    }
}

impl TokenData {
    /// The tokens that the sale holds in escrow.
    pub open spec fn escrow(self) -> Balance {
        match self.sale {
            Some(s) => s.quantity_left,
            None => 0,
        }
    }

    /// A token does not have a sale and a bonding curve at once.
    pub open spec fn exclusive(self) -> bool {
        !(self.sale.is_some() && self.amm_curve.is_some())
    }

    /// The id of the sale that the token has now or had last.
    pub open spec fn current_sale_id(self) -> u32 {
        if self.next_sale_id == 0 {
            0
        } else {
            (self.next_sale_id - 1) as u32
        }
    }

    /// The id of the revenue split that the token has now or had last.
    pub open spec fn current_split_id(self) -> u32 {
        if self.next_revenue_split_id == 0 {
            0
        } else {
            (self.next_revenue_split_id - 1) as u32
        }
    }

    /// The id of the sale that the token has now or had last.
    pub fn sale_id(&self) -> (r: u32)
        ensures
            r == self.current_sale_id(),
    {
        if self.next_sale_id == 0 {
            0
        } else {
            self.next_sale_id - 1
        }
    }

    /// The id of the revenue split that the token has now or had last.
    pub fn split_id(&self) -> (r: u32)
        ensures
            r == self.current_split_id(),
    {
        if self.next_revenue_split_id == 0 {
            0
        } else {
            self.next_revenue_split_id - 1
        }
    }
}

} // verus!
