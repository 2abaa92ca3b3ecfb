//! Burning, dusting, joining a whitelist and opening a token to everyone.
use crate::account::{AccountData, AccountId, AccountView, MemberId, RepayableBloatBond, TokenId};
use crate::arith::{sat_sub, saturating_sub};
use crate::errors::Error;
use crate::events::Event;
use crate::joy::{bond_at, bond_for, JoyAccountId};
use crate::ledger::{LedgerView, TokenLedger};
use crate::merkle::{merkle_verifies, MerkleProof};
use crate::split::RevenueSplitState;
use crate::supply::{held, lemma_held_bounded, lemma_present_counted};
use crate::token::{TokenData, TransferPolicy};
use crate::vesting::Balance;
use vstd::prelude::*;

verus! {

/// What changing the token `t` to the permissionless policy gives.
pub open spec fn change_to_permissionless_result(s: LedgerView, t: TokenId) -> Result<LedgerView, Error> {
    match s.token(t) {
        Err(e) => Err(e),
        Ok(d) => Ok(s.with_token(t, TokenData { transfer_policy: TransferPolicy::Permissionless, ..d })),
    }
}

/// What a burn of `amount` tokens of `t` by the member `m`, signed by
/// `sender`, gives: the tokens leave the account, locked ones first, and
/// the supply.
pub open spec fn burn_result(s: LedgerView, sender: AccountId, t: TokenId, m: MemberId, amount: Balance) -> Result<
    LedgerView,
    Error,
> {
    if !s.authorized(sender, m) {
        Err(Error::OriginNotMemberController)
    } else if !s.tokens.contains_key(t) {
        Err(Error::TokenDoesNotExist)
    } else if amount == 0 {
        Err(Error::BurnAmountIsZero)
    } else if !s.accounts.contains_key((t, m)) {
        Err(Error::AccountInformationDoesNotExist)
    } else if s.accounts[(t, m)].amount < amount {
        Err(Error::BurnAmountGreaterThanAccountTokensAmount)
    } else if s.tokens[t].revenue_split != RevenueSplitState::Inactive {
        Err(Error::CannotModifySupplyWhenRevenueSplitsAreActive)
    } else {
        let d = s.tokens[t];
        Ok(
            s.with_account(t, m, s.accounts[(t, m)].burned(amount, s.block)).with_token(
                t,
                TokenData { total_supply: sat_sub(d.total_supply, amount), ..d },
            ),
        )
    }
}

/// Who gets the bond of the account of the member `m` back: the account
/// that the bond is restricted to, else the member's controller, else
/// `fallback`.
pub open spec fn bond_receiver(s: LedgerView, bond: RepayableBloatBond, m: MemberId, fallback: AccountId) -> AccountId {
    match bond.repayment_restricted_to {
        Some(a) => a,
        None => if s.members.contains_key(m) {
            s.members[m]
        } else {
            fallback
        },
    }
}

/// Whether the member `m` has tokens of `t` in the escrow of a sale.
pub open spec fn has_escrow(d: TokenData, m: MemberId) -> bool {
    d.escrow() > 0 && d.sale.unwrap().tokens_source == m
}

/// What removing the empty account of the member `m` for the token `t`,
/// asked for by `sender`, gives: the account is gone and its bond is
/// back with its receiver, out of the token's treasury.
pub open spec fn dust_account_result(s: LedgerView, sender: AccountId, t: TokenId, m: MemberId) -> Result<
    LedgerView,
    Error,
> {
    if !s.tokens.contains_key(t) {
        Err(Error::TokenDoesNotExist)
    } else if !s.accounts.contains_key((t, m)) {
        Err(Error::AccountInformationDoesNotExist)
    } else if !s.tokens[t].transfer_policy.spec_is_permissionless() && !s.authorized(sender, m) {
        Err(Error::AttemptToRemoveNonOwnedAccountUnderPermissionedMode)
    } else if s.accounts[(t, m)].amount != 0 || has_escrow(s.tokens[t], m) {
        Err(Error::AttemptToRemoveNonEmptyAccount)
    } else {
        let d = s.tokens[t];
        let bond = s.accounts[(t, m)].bloat_bond;
        Ok(
            s.without_account(t, m).with_token(
                t,
                TokenData { accounts_number: (d.accounts_number - 1) as u64, ..d },
            ).with_joy(
                s.joy.transferred(
                    JoyAccountId::Treasury(t),
                    JoyAccountId::Plain(bond_receiver(s, bond, m, sender)),
                    bond.amount,
                ),
            ),
        )
    }
}

/// What joining the whitelist of the token `t` as the member `m`, signed
/// by `sender`, gives: an empty account, paid for by the sender's bond.
pub open spec fn join_whitelist_result(
    s: LedgerView,
    sender: AccountId,
    m: MemberId,
    t: TokenId,
    path: Seq<(crate::merkle::H256, crate::merkle::MerkleSide)>,
) -> Result<LedgerView, Error> {
    if !s.authorized(sender, m) {
        Err(Error::OriginNotMemberController)
    } else if !s.tokens.contains_key(t) {
        Err(Error::TokenDoesNotExist)
    } else if s.accounts.contains_key((t, m)) {
        Err(Error::AccountAlreadyExists)
    } else {
        match s.tokens[t].transfer_policy {
            TransferPolicy::Permissionless => Err(Error::CannotJoinWhitelistInPermissionlessMode),
            TransferPolicy::Permissioned(root) => if !merkle_verifies(m, path, root) {
                Err(Error::MerkleProofVerificationFailure)
            } else if !s.joy.can_pay_bond(JoyAccountId::Plain(sender), s.parameters.bloat_bond) {
                Err(Error::InsufficientJoyBalance)
            } else if s.tokens[t].accounts_number == u64::MAX {
                Err(Error::ArithmeticError)
            } else {
                let d = s.tokens[t];
                let bond = s.parameters.bloat_bond;
                let locked = s.joy.locked_used(JoyAccountId::Plain(sender), bond);
                Ok(
                    s.with_account(t, m, AccountView::fresh(0, bond_at(sender, bond, locked, 0))).with_token(
                        t,
                        TokenData { accounts_number: (d.accounts_number + 1) as u64, ..d },
                    ).with_joy(
                        s.joy.transferred(JoyAccountId::Plain(sender), JoyAccountId::Treasury(t), bond),
                    ),
                )
            },
        }
    }
}

/// What `change_to_permissionless` leaves behind, the ledger `after` and the result `r`,
/// given the ledger `before` that it was called on.
pub open spec fn change_to_permissionless_outcome(
    before: LedgerView,
    after: LedgerView,
    token_id: TokenId,
    r: Result<(), Error>,
) -> bool {
    match change_to_permissionless_result(before, token_id) {
        Err(e) => r == Err::<(), Error>(e) && after == before,
        Ok(post) => r == Ok::<(), Error>(()) && post.plus_event(after)
            && after.events.last() == Event::TransferPolicyChangedToPermissionless(token_id)
            && after.tokens[token_id].transfer_policy == TransferPolicy::Permissionless,
    }
}

/// What `burn` leaves behind, the ledger `after` and the result `r`,
/// given the ledger `before` that it was called on.
pub open spec fn burn_outcome(
    before: LedgerView,
    after: LedgerView,
    sender: AccountId,
    token_id: TokenId,
    member_id: MemberId,
    amount: Balance,
    r: Result<(), Error>,
) -> bool {
    match burn_result(before, sender, token_id, member_id, amount) {
        Err(e) => r == Err::<(), Error>(e) && after == before,
        Ok(post) => r == Ok::<(), Error>(()) && post.plus_event(after)
            && after.events.last() == Event::TokensBurned(token_id, member_id, amount),
    }
}

/// What `dust_account` leaves behind, the ledger `after` and the result `r`,
/// given the ledger `before` that it was called on.
pub open spec fn dust_account_outcome(
    before: LedgerView,
    after: LedgerView,
    sender: AccountId,
    token_id: TokenId,
    member_id: MemberId,
    r: Result<(), Error>,
) -> bool {
    match dust_account_result(before, sender, token_id, member_id) {
        Err(e) => r == Err::<(), Error>(e) && after == before,
        Ok(post) => r == Ok::<(), Error>(()) && post.plus_event(after)
            && after.events.last() == Event::AccountDustedBy(
            token_id,
            member_id,
            sender,
            before.tokens[token_id].transfer_policy,
        ),
    }
}

/// What `join_whitelist` leaves behind, the ledger `after` and the result `r`,
/// given the ledger `before` that it was called on.
pub open spec fn join_whitelist_outcome(
    before: LedgerView,
    after: LedgerView,
    sender: AccountId,
    member_id: MemberId,
    token_id: TokenId,
    proof_path: MerkleProof,
    r: Result<(), Error>,
) -> bool {
    match join_whitelist_result(before, sender, member_id, token_id, proof_path.path()) {
        Err(e) => r == Err::<(), Error>(e) && after == before,
        Ok(post) => r == Ok::<(), Error>(()) && post.plus_event(after)
            && after.events.last() == Event::MemberJoinedWhitelist(
            token_id,
            member_id,
            before.tokens[token_id].transfer_policy,
        ),
    }
}

impl TokenLedger {
    /// Opens the token `token_id` to every member. There is no way back.
    pub fn change_to_permissionless(&mut self, token_id: TokenId) -> (r: Result<(), Error>)
        requires
            old(self).wf(),
        ensures
            final(self).wf(),
            change_to_permissionless_outcome(old(self)@, final(self)@, token_id, r),
    {
        let d = match self.get_token(token_id) {
            Ok(d) => d,
            Err(e) => {
                return Err(e);
            },
        };
        let updated = TokenData { transfer_policy: TransferPolicy::Permissionless, ..d };
        proof {
            self@.lemma_inv_token_data(token_id, updated);
        }
        self.put_token(token_id, updated);
        let ghost mid = self@;
        self.push_event(Event::TransferPolicyChangedToPermissionless(token_id));
        proof {
            mid.lemma_inv_frame(self@);
        }
        Ok(())
    }

    /// Burns `amount` tokens of `token_id` held by the member
    /// `member_id`, whom `sender` controls.
    pub fn burn(&mut self, sender: AccountId, token_id: TokenId, member_id: MemberId, amount: Balance) -> (r:
        Result<(), Error>)
        requires
            old(self).wf(),
        ensures
            final(self).wf(),
            burn_outcome(old(self)@, final(self)@, sender, token_id, member_id, amount, r),
    {
        match self.ensure_authorized(sender, member_id) {
            Err(e) => {
                return Err(e);
            },
            Ok(_) => {},
        }
        let d = match self.get_token(token_id) {
            Ok(d) => d,
            Err(e) => {
                return Err(e);
            },
        };
        if amount == 0 {
            return Err(Error::BurnAmountIsZero);
        }
        let mut account = match self.get_account(token_id, member_id) {
            Ok(a) => a,
            Err(e) => {
                return Err(e);
            },
        };
        if account.amount < amount {
            return Err(Error::BurnAmountGreaterThanAccountTokensAmount);
        }
        if !d.revenue_split.is_inactive() {
            return Err(Error::CannotModifySupplyWhenRevenueSplitsAreActive);
        }
        let now = self.block_number;
        account.burn(amount, now);
        let updated = TokenData { total_supply: saturating_sub(d.total_supply, amount), ..d };
        proof {
            account.lemma_view_wf();
            lemma_held_bounded(self@.accounts, token_id, member_id);
            assert(self@.token_inv(token_id));
            self@.lemma_inv_account_set(token_id, member_id, account@, updated);
        }
        self.put_account(token_id, member_id, account);
        self.put_token(token_id, updated);
        let ghost mid = self@;
        self.push_event(Event::TokensBurned(token_id, member_id, amount));
        proof {
            mid.lemma_inv_frame(self@);
        }
        Ok(())
    }

    /// Removes the empty account of the member `member_id` for the token
    /// `token_id` and gives its bond back. Under a permissioned policy
    /// only the member's controller can ask for it.
    pub fn dust_account(&mut self, sender: AccountId, token_id: TokenId, member_id: MemberId) -> (r: Result<
        (),
        Error,
    >)
        requires
            old(self).wf(),
        ensures
            final(self).wf(),
            dust_account_outcome(old(self)@, final(self)@, sender, token_id, member_id, r),
    {
        let d = match self.get_token(token_id) {
            Ok(d) => d,
            Err(e) => {
                return Err(e);
            },
        };
        let account = match self.get_account(token_id, member_id) {
            Ok(a) => a,
            Err(e) => {
                return Err(e);
            },
        };
        if !d.transfer_policy.is_permissionless() && !self.members.is_member_controller_account(
            member_id,
            sender,
        ) {
            return Err(Error::AttemptToRemoveNonOwnedAccountUnderPermissionedMode);
        }
        let escrowed = match d.sale {
            Some(sale) => sale.quantity_left > 0 && sale.tokens_source == member_id,
            None => false,
        };
        if !account.is_empty() || escrowed {
            return Err(Error::AttemptToRemoveNonEmptyAccount);
        }
        let receiver = match account.bloat_bond.repayment_restricted_to {
            Some(a) => a,
            None => match self.members.controller_account_id(member_id) {
                Some(c) => c,
                None => sender,
            },
        };
        proof {
            assert(self@.token_inv(token_id));
            lemma_present_counted(self@.accounts, token_id, member_id);
        }
        let updated = TokenData { accounts_number: d.accounts_number - 1, ..d };
        proof {
            self@.lemma_inv_account_removed(token_id, member_id, updated);
        }
        self.drop_account(token_id, member_id);
        self.put_token(token_id, updated);
        let _moved = self.joy.transfer(
            JoyAccountId::Treasury(token_id),
            JoyAccountId::Plain(receiver),
            account.bloat_bond.amount,
        );
        let ghost mid = self@;
        proof {
            old(self)@.without_account(token_id, member_id).with_token(token_id, updated).lemma_inv_frame(mid);
        }
        self.push_event(Event::AccountDustedBy(token_id, member_id, sender, d.transfer_policy));
        proof {
            mid.lemma_inv_frame(self@);
        }
        Ok(())
    }

    /// Creates the account of the member `member_id`, whom `sender`
    /// controls, for the permissioned token `token_id`, on a proof that
    /// the member is under the token's whitelist commitment.
    pub fn join_whitelist(
        &mut self,
        sender: AccountId,
        member_id: MemberId,
        token_id: TokenId,
        proof_path: &MerkleProof,
    ) -> (r: Result<(), Error>)
        requires
            old(self).wf(),
        ensures
            final(self).wf(),
            join_whitelist_outcome(old(self)@, final(self)@, sender, member_id, token_id, *proof_path, r),
    {
        match self.ensure_authorized(sender, member_id) {
            Err(e) => {
                return Err(e);
            },
            Ok(_) => {},
        }
        let d = match self.get_token(token_id) {
            Ok(d) => d,
            Err(e) => {
                return Err(e);
            },
        };
        if self.has_account(token_id, member_id) {
            return Err(Error::AccountAlreadyExists);
        }
        let root = match d.transfer_policy {
            TransferPolicy::Permissionless => {
                return Err(Error::CannotJoinWhitelistInPermissionlessMode);
            },
            TransferPolicy::Permissioned(root) => root,
        };
        if !proof_path.verify(member_id, &root) {
            return Err(Error::MerkleProofVerificationFailure);
        }
        let bond = self.parameters.bloat_bond;
        let payer = JoyAccountId::Plain(sender);
        if !self.joy.can_pay_bond(payer, bond) {
            return Err(Error::InsufficientJoyBalance);
        }
        if d.accounts_number == u64::MAX {
            return Err(Error::ArithmeticError);
        }
        let locked = self.joy.locked_used(payer, bond);
        let account = AccountData::new_with_amount_and_bond(0, bond_for(sender, bond, locked, 0));
        let updated = TokenData { accounts_number: d.accounts_number + 1, ..d };
        proof {
            account.lemma_view_wf();
            assert(self@.token_inv(token_id));
            self@.lemma_inv_account_set(token_id, member_id, account@, updated);
        }
        self.put_account(token_id, member_id, account);
        self.put_token(token_id, updated);
        let _moved = self.joy.transfer(payer, JoyAccountId::Treasury(token_id), bond);
        let ghost mid = self@;
        proof {
            old(self)@.with_account(token_id, member_id, account@).with_token(token_id, updated).lemma_inv_frame(
                mid,
            );
        }
        self.push_event(Event::MemberJoinedWhitelist(token_id, member_id, d.transfer_policy));
        proof {
            mid.lemma_inv_frame(self@);
        }
        Ok(())
    }
}

} // verus!
