//! One command type for every operation of the ledger, and the single
//! dispatcher that processes them.
use crate::account::{AccountId, JoyBalance, MemberId, TokenId};
use crate::amm::{AmmParams, SlippageTolerance};
use crate::arith::sat_sub;
use crate::errors::Error;
use crate::ledger::amm_ops::{
    activate_amm_outcome, buy_on_amm_outcome, deactivate_amm_outcome, sell_on_amm_outcome,
};
use crate::ledger::canonical::{
    burn_outcome, change_to_permissionless_outcome, dust_account_outcome, join_whitelist_outcome,
};
use crate::ledger::issuance::{deissue_token_outcome, issue_token_outcome};
use crate::ledger::patronage::{claim_patronage_credit_outcome, reduce_patronage_rate_to_outcome};
use crate::ledger::sale_ops::{
    finalize_token_sale_outcome, init_token_sale_outcome, purchase_tokens_on_sale_outcome,
    update_upcoming_sale_outcome,
};
use crate::ledger::split_ops::{
    allocation_of, exit_revenue_split_outcome, finalize_revenue_split_outcome,
    issue_revenue_split_outcome, participate_in_split_outcome,
};
use crate::ledger::transfer::{issuer_transfer_outcome, transfer_outcome};
use crate::ledger::{LedgerView, TokenLedger};
use crate::merkle::MerkleProof;
use crate::sale::TokenSaleParams;
use crate::token::{TokenIssuanceParameters, YearlyRate};
use crate::vesting::{Balance, BlockNumber, VestingScheduleParams};
use vstd::prelude::*;

verus! {

/// A call of one operation of the ledger, with its arguments.
#[allow(inconsistent_fields)]
#[derive(Clone, Debug, PartialEq, Eq)]
pub enum Call {
    IssueToken { issuer_account: AccountId, issuance_parameters: TokenIssuanceParameters },
    DeissueToken { token_id: TokenId },
    Transfer {
        sender: AccountId,
        src_member_id: MemberId,
        token_id: TokenId,
        outputs: Vec<(MemberId, Balance)>,
        metadata: Vec<u8>,
    },
    IssuerTransfer {
        token_id: TokenId,
        src_member_id: MemberId,
        bloat_bond_payer: AccountId,
        outputs: Vec<(MemberId, Balance, Option<VestingScheduleParams>)>,
        metadata: Vec<u8>,
    },
    Burn { sender: AccountId, token_id: TokenId, member_id: MemberId, amount: Balance },
    DustAccount { sender: AccountId, token_id: TokenId, member_id: MemberId },
    JoinWhitelist { sender: AccountId, member_id: MemberId, token_id: TokenId, proof: MerkleProof },
    ChangeToPermissionless { token_id: TokenId },
    ReducePatronageRateTo { token_id: TokenId, target_rate: YearlyRate },
    ClaimPatronageCredit { token_id: TokenId, member_id: MemberId },
    InitTokenSale {
        token_id: TokenId,
        member_id: MemberId,
        earnings_destination: Option<AccountId>,
        auto_finalize: bool,
        sale_params: TokenSaleParams,
    },
    UpdateUpcomingSale {
        token_id: TokenId,
        new_start_block: Option<BlockNumber>,
        new_duration: Option<BlockNumber>,
    },
    PurchaseTokensOnSale { sender: AccountId, token_id: TokenId, member_id: MemberId, amount: Balance },
    FinalizeTokenSale { token_id: TokenId },
    IssueRevenueSplit {
        token_id: TokenId,
        start: Option<BlockNumber>,
        duration: BlockNumber,
        revenue_source_account: AccountId,
        revenue_amount: JoyBalance,
    },
    ParticipateInSplit { sender: AccountId, token_id: TokenId, member_id: MemberId, amount: Balance },
    ExitRevenueSplit { sender: AccountId, token_id: TokenId, member_id: MemberId },
    FinalizeRevenueSplit { token_id: TokenId, account_id: AccountId },
    ActivateAmm { token_id: TokenId, member_id: MemberId, params: AmmParams },
    BuyOnAmm {
        sender: AccountId,
        token_id: TokenId,
        member_id: MemberId,
        amount: Balance,
        slippage_tolerance: SlippageTolerance,
    },
    SellOnAmm {
        sender: AccountId,
        token_id: TokenId,
        member_id: MemberId,
        amount: Balance,
        slippage_tolerance: SlippageTolerance,
    },
    DeactivateAmm { token_id: TokenId, member_id: MemberId },
}

/// The result `r` with the value `v` in place of its unit.
pub open spec fn carrying<V>(r: Result<(), Error>, v: V) -> Result<V, Error> {
    match r {
        Ok(_) => Ok(v),
        Err(e) => Err(e),
    }
}

/// What dispatching `call` leaves behind: what the operation that it
/// names leaves behind on its arguments.
pub open spec fn dispatched(before: LedgerView, after: LedgerView, call: Call, r: Result<(), Error>) -> bool {
    match call {
        Call::IssueToken { issuer_account, issuance_parameters } => issue_token_outcome(
            before,
            after,
            issuer_account,
            issuance_parameters,
            carrying(r, before.next_token_id),
        ),
        Call::DeissueToken { token_id } => deissue_token_outcome(before, after, token_id, r),
        Call::Transfer { sender, src_member_id, token_id, outputs, metadata } => transfer_outcome(
            before,
            after,
            sender,
            src_member_id,
            token_id,
            outputs,
            metadata,
            r,
        ),
        Call::IssuerTransfer {
            token_id,
            src_member_id,
            bloat_bond_payer,
            outputs,
            metadata,
        } => issuer_transfer_outcome(
            before,
            after,
            token_id,
            src_member_id,
            bloat_bond_payer,
            outputs,
            metadata,
            r,
        ),
        Call::Burn { sender, token_id, member_id, amount } => burn_outcome(
            before,
            after,
            sender,
            token_id,
            member_id,
            amount,
            r,
        ),
        Call::DustAccount { sender, token_id, member_id } => dust_account_outcome(
            before,
            after,
            sender,
            token_id,
            member_id,
            r,
        ),
        Call::JoinWhitelist { sender, member_id, token_id, proof } => join_whitelist_outcome(
            before,
            after,
            sender,
            member_id,
            token_id,
            proof,
            r,
        ),
        Call::ChangeToPermissionless { token_id } => change_to_permissionless_outcome(
            before,
            after,
            token_id,
            r,
        ),
        Call::ReducePatronageRateTo { token_id, target_rate } => reduce_patronage_rate_to_outcome(
            before,
            after,
            token_id,
            target_rate,
            r,
        ),
        Call::ClaimPatronageCredit { token_id, member_id } => claim_patronage_credit_outcome(
            before,
            after,
            token_id,
            member_id,
            r,
        ),
        Call::InitTokenSale {
            token_id,
            member_id,
            earnings_destination,
            auto_finalize,
            sale_params,
        } => init_token_sale_outcome(
            before,
            after,
            token_id,
            member_id,
            earnings_destination,
            auto_finalize,
            sale_params,
            r,
        ),
        Call::UpdateUpcomingSale { token_id, new_start_block, new_duration } => update_upcoming_sale_outcome(
            before,
            after,
            token_id,
            new_start_block,
            new_duration,
            r,
        ),
        Call::PurchaseTokensOnSale { sender, token_id, member_id, amount } => purchase_tokens_on_sale_outcome(
            before,
            after,
            sender,
            token_id,
            member_id,
            amount,
            r,
        ),
        Call::FinalizeTokenSale { token_id } => finalize_token_sale_outcome(
            before,
            after,
            token_id,
            carrying(r, before.tokens[token_id].sale.unwrap().funds_collected),
        ),
        Call::IssueRevenueSplit {
            token_id,
            start,
            duration,
            revenue_source_account,
            revenue_amount,
        } => issue_revenue_split_outcome(
            before,
            after,
            token_id,
            start,
            duration,
            revenue_source_account,
            revenue_amount,
            carrying(r, sat_sub(revenue_amount, allocation_of(before, token_id, revenue_amount))),
        ),
        Call::ParticipateInSplit { sender, token_id, member_id, amount } => participate_in_split_outcome(
            before,
            after,
            sender,
            token_id,
            member_id,
            amount,
            r,
        ),
        Call::ExitRevenueSplit { sender, token_id, member_id } => exit_revenue_split_outcome(
            before,
            after,
            sender,
            token_id,
            member_id,
            r,
        ),
        Call::FinalizeRevenueSplit { token_id, account_id } => finalize_revenue_split_outcome(
            before,
            after,
            token_id,
            account_id,
            r,
        ),
        Call::ActivateAmm { token_id, member_id, params } => activate_amm_outcome(
            before,
            after,
            token_id,
            member_id,
            params,
            r,
        ),
        Call::BuyOnAmm { sender, token_id, member_id, amount, slippage_tolerance } => buy_on_amm_outcome(
            before,
            after,
            sender,
            token_id,
            member_id,
            amount,
            slippage_tolerance,
            r,
        ),
        Call::SellOnAmm { sender, token_id, member_id, amount, slippage_tolerance } => sell_on_amm_outcome(
            before,
            after,
            sender,
            token_id,
            member_id,
            amount,
            slippage_tolerance,
            r,
        ),
        Call::DeactivateAmm { token_id, member_id } => deactivate_amm_outcome(
            before,
            after,
            token_id,
            member_id,
            r,
        ),
    }
}

/// Whether the events of `after` are those of `before` and one more.
pub open spec fn changed_with_one_event(before: LedgerView, after: LedgerView) -> bool {
    &&& after.events.len() == before.events.len() + 1
    &&& after.events.drop_last() == before.events
}

fn unit<V>(r: Result<V, Error>) -> (u: Result<(), Error>)
    ensures
        match r {
            Ok(v) => u == Ok::<(), Error>(()) && r == carrying(u, v),
            Err(e) => u == Err::<(), Error>(e) && forall|v: V| r == carrying(u, v),
        },
{
    match r {
        Ok(_) => Ok(()),
        Err(e) => Err(e),
    }
}

impl TokenLedger {
    /// Processes one call: the operation that it names runs to its end,
    /// and either succeeds, recording at most one event, or is rejected
    /// and changes nothing.
    pub fn dispatch(&mut self, call: Call) -> (r: Result<(), Error>)
        requires
            old(self).wf(),
        ensures
            final(self).wf(),
            dispatched(old(self)@, final(self)@, call, r),
            r.is_err() ==> final(self)@ == old(self)@,
            r.is_ok() ==> final(self)@ == old(self)@ || changed_with_one_event(old(self)@, final(self)@),
    {
        match call {
            Call::IssueToken { issuer_account, issuance_parameters } => unit(
                self.issue_token(issuer_account, issuance_parameters),
            ),
            Call::DeissueToken { token_id } => self.deissue_token(token_id),
            Call::Transfer { sender, src_member_id, token_id, outputs, metadata } => self.transfer(
                sender,
                src_member_id,
                token_id,
                outputs,
                metadata,
            ),
            Call::IssuerTransfer {
                token_id,
                src_member_id,
                bloat_bond_payer,
                outputs,
                metadata,
            } => self.issuer_transfer(token_id, src_member_id, bloat_bond_payer, outputs, metadata),
            Call::Burn { sender, token_id, member_id, amount } => self.burn(
                sender,
                token_id,
                member_id,
                amount,
            ),
            Call::DustAccount { sender, token_id, member_id } => self.dust_account(
                sender,
                token_id,
                member_id,
            ),
            Call::JoinWhitelist { sender, member_id, token_id, proof } => self.join_whitelist(
                sender,
                member_id,
                token_id,
                &proof,
            ),
            Call::ChangeToPermissionless { token_id } => self.change_to_permissionless(token_id),
            Call::ReducePatronageRateTo { token_id, target_rate } => self.reduce_patronage_rate_to(
                token_id,
                target_rate,
            ),
            Call::ClaimPatronageCredit { token_id, member_id } => self.claim_patronage_credit(
                token_id,
                member_id,
            ),
            Call::InitTokenSale {
                token_id,
                member_id,
                earnings_destination,
                auto_finalize,
                sale_params,
            } => self.init_token_sale(token_id, member_id, earnings_destination, auto_finalize, sale_params),
            Call::UpdateUpcomingSale { token_id, new_start_block, new_duration } => self.update_upcoming_sale(
                token_id,
                new_start_block,
                new_duration,
            ),
            Call::PurchaseTokensOnSale { sender, token_id, member_id, amount } => self.purchase_tokens_on_sale(
                sender,
                token_id,
                member_id,
                amount,
            ),
            Call::FinalizeTokenSale { token_id } => unit(self.finalize_token_sale(token_id)),
            Call::IssueRevenueSplit {
                token_id,
                start,
                duration,
                revenue_source_account,
                revenue_amount,
            } => unit(
                self.issue_revenue_split(token_id, start, duration, revenue_source_account, revenue_amount),
            ),
            Call::ParticipateInSplit { sender, token_id, member_id, amount } => self.participate_in_split(
                sender,
                token_id,
                member_id,
                amount,
            ),
            Call::ExitRevenueSplit { sender, token_id, member_id } => self.exit_revenue_split(
                sender,
                token_id,
                member_id,
            ),
            Call::FinalizeRevenueSplit { token_id, account_id } => self.finalize_revenue_split(
                token_id,
                account_id,
            ),
            Call::ActivateAmm { token_id, member_id, params } => self.activate_amm(
                token_id,
                member_id,
                params,
            ),
            Call::BuyOnAmm { sender, token_id, member_id, amount, slippage_tolerance } => self.buy_on_amm(
                sender,
                token_id,
                member_id,
                amount,
                slippage_tolerance,
            ),
            Call::SellOnAmm { sender, token_id, member_id, amount, slippage_tolerance } => self.sell_on_amm(
                sender,
                token_id,
                member_id,
                amount,
                slippage_tolerance,
            ),
            Call::DeactivateAmm { token_id, member_id } => self.deactivate_amm(token_id, member_id),
        }
    }
}

} // verus!
