//! Trading a token on its bonding curve.
use crate::account::{AccountData, AccountId, AccountView, JoyBalance, MemberId, RepayableBloatBond, TokenId};
use crate::amm::{ensure_within_tolerance, within_tolerance, AmmCurve, AmmOperation, AmmParams, SlippageTolerance};
use crate::arith::{checked_add, sat_sub, saturating_sub};
use crate::errors::Error;
use crate::events::Event;
use crate::joy::{JoyAccountId, JoyView};
use crate::ledger::patronage::minted;
use crate::ledger::{LedgerView, TokenLedger};
use crate::split::RevenueSplitState;
use crate::supply::lemma_held_bounded;
use crate::token::{IssuanceState, TokenData};
use crate::vesting::Balance;
use vstd::prelude::*;

verus! {

/// The reserve currency after the balance of `id` was brought up to the
/// existential deposit, if it was below.
pub open spec fn topped_up(joy: JoyView, id: JoyAccountId) -> JoyView {
    if joy.account(id).free < joy.existential_deposit {
        joy.minted(id, sat_sub(joy.existential_deposit, joy.account(id).free))
    } else {
        joy
    }
}

/// What of the balance of `id` lies above the existential deposit.
pub open spec fn surplus(joy: JoyView, id: JoyAccountId) -> JoyBalance {
    sat_sub(joy.account(id).free, joy.existential_deposit)
}

/// What opening a bonding curve for the token `t` gives: a curve that
/// has provided nothing, and a curve treasury that holds at least the
/// existential deposit.
pub open spec fn activate_amm_result(s: LedgerView, t: TokenId, params: AmmParams) -> Result<LedgerView, Error> {
    if !s.tokens.contains_key(t) {
        Err(Error::TokenDoesNotExist)
    } else if IssuanceState::spec_of(s.tokens[t], s.block) != IssuanceState::Idle {
        Err(Error::TokenIssuanceNotInIdleState)
    } else if s.tokens[t].sale.is_some() {
        Err(Error::PreviousSaleNotFinalized)
    } else if s.tokens[t].revenue_split != RevenueSplitState::Inactive {
        Err(Error::CannotModifySupplyWhenRevenueSplitsAreActive)
    } else if params.slope.parts < s.parameters.min_amm_slope.parts {
        Err(Error::CurveSlopeParametersTooLow)
    } else {
        Ok(
            s.with_token(
                t,
                TokenData {
                    amm_curve: Some(
                        AmmCurve { slope: params.slope, intercept: params.intercept, provided_supply: 0 },
                    ),
                    ..s.tokens[t]
                },
            ).with_joy(topped_up(s.joy, JoyAccountId::AmmTreasury(t))),
        )
    }
}

/// The curve of a token whose state is that of a bonding curve.
pub open spec fn curve_of(s: LedgerView, t: TokenId) -> Result<AmmCurve, Error> {
    if !s.tokens.contains_key(t) {
        Err(Error::TokenDoesNotExist)
    } else {
        match IssuanceState::spec_of(s.tokens[t], s.block) {
            IssuanceState::Amm(curve) => Ok(curve),
            _ => Err(Error::NotInAmmState),
        }
    }
}

/// The bond that a trade or purchase by the member `m` costs: none if
/// the member has an account for the token `t`.
pub open spec fn bond_due(s: LedgerView, t: TokenId, m: MemberId) -> JoyBalance {
    if s.accounts.contains_key((t, m)) {
        0
    } else {
        s.parameters.bloat_bond
    }
}

/// What a purchase of `amount` tokens of `t` from its curve costs, or
/// why the purchase is refused.
pub open spec fn buy_price(
    s: LedgerView,
    sender: AccountId,
    t: TokenId,
    m: MemberId,
    amount: Balance,
    tolerance: SlippageTolerance,
) -> Result<JoyBalance, Error> {
    if !s.authorized(sender, m) {
        Err(Error::OriginNotMemberController)
    } else {
        match curve_of(s, t) {
            Err(e) => Err(e),
            Ok(curve) => if s.tokens[t].revenue_split != RevenueSplitState::Inactive {
                Err(Error::CannotModifySupplyWhenRevenueSplitsAreActive)
            } else {
                match curve.spec_eval(amount, AmmOperation::Buy) {
                    Err(e) => Err(e),
                    Ok(price) => if !within_tolerance(price, AmmOperation::Buy, tolerance) {
                        Err(Error::SlippageToleranceExceeded)
                    } else if !s.accounts.contains_key((t, m))
                        && !s.tokens[t].transfer_policy.spec_is_permissionless() {
                        Err(Error::AccountInformationDoesNotExist)
                    } else if price + bond_due(s, t, m) > u128::MAX {
                        Err(Error::ArithmeticError)
                    } else if !s.joy.can_transfer(
                        JoyAccountId::Plain(sender),
                        (price + bond_due(s, t, m)) as u128,
                    ) {
                        Err(Error::InsufficientJoyBalance)
                    } else if s.tokens[t].total_supply + amount > u128::MAX || curve.provided_supply + amount
                        > u128::MAX || s.tokens[t].accounts_number == u64::MAX {
                        Err(Error::ArithmeticError)
                    } else {
                        Ok(price)
                    },
                }
            },
        }
    }
}

/// The ledger after the member `m` bought `amount` tokens of `t` from
/// the curve for `price`: the tokens are minted into the member's
/// account, which is created if need be, and the price lies in the
/// curve's treasury.
pub open spec fn bought(s: LedgerView, sender: AccountId, t: TokenId, m: MemberId, amount: Balance, price: JoyBalance) -> LedgerView {
    let d = s.tokens[t];
    let curve = d.amm_curve.unwrap();
    let exists = s.accounts.contains_key((t, m));
    let account = if exists {
        s.accounts[(t, m)].increased(amount)
    } else {
        AccountView::fresh(
            amount,
            RepayableBloatBond { amount: s.parameters.bloat_bond, repayment_restricted_to: None },
        )
    };
    let paid = s.joy.transferred(JoyAccountId::Plain(sender), JoyAccountId::AmmTreasury(t), price);
    s.with_account(t, m, account).with_token(
        t,
        TokenData {
            accounts_number: if exists {
                d.accounts_number
            } else {
                (d.accounts_number + 1) as u64
            },
            amm_curve: Some(curve.with_supply((curve.provided_supply + amount) as u128)),
            ..minted(d, amount)
        },
    ).with_joy(
        if exists {
            paid
        } else {
            paid.transferred(JoyAccountId::Plain(sender), JoyAccountId::Treasury(t), s.parameters.bloat_bond)
        },
    )
}

/// What a sale of `amount` tokens of `t` to its curve pays, or why the
/// sale is refused.
pub open spec fn sell_price(
    s: LedgerView,
    sender: AccountId,
    t: TokenId,
    m: MemberId,
    amount: Balance,
    tolerance: SlippageTolerance,
) -> Result<JoyBalance, Error> {
    if !s.authorized(sender, m) {
        Err(Error::OriginNotMemberController)
    } else {
        match curve_of(s, t) {
            Err(e) => Err(e),
            Ok(curve) => if !s.accounts.contains_key((t, m)) {
                Err(Error::AccountInformationDoesNotExist)
            } else if s.tokens[t].revenue_split != RevenueSplitState::Inactive {
                Err(Error::CannotModifySupplyWhenRevenueSplitsAreActive)
            } else if s.accounts[(t, m)].transferrable(s.block) < amount {
                Err(Error::InsufficientTokenBalance)
            } else if curve.provided_supply < amount {
                Err(Error::ArithmeticError)
            } else {
                match curve.spec_eval(amount, AmmOperation::Sell) {
                    Err(e) => Err(e),
                    Ok(price) => if !within_tolerance(price, AmmOperation::Sell, tolerance) {
                        Err(Error::SlippageToleranceExceeded)
                    } else if !s.joy.can_transfer(JoyAccountId::AmmTreasury(t), price) {
                        Err(Error::InsufficientJoyBalance)
                    } else {
                        Ok(price)
                    },
                }
            },
        }
    }
}

/// The ledger after the member `m` sold `amount` tokens of `t` to the
/// curve for `price`: the tokens left the account and the supply, and
/// the price left the curve's treasury for the seller.
pub open spec fn sold(s: LedgerView, sender: AccountId, t: TokenId, m: MemberId, amount: Balance, price: JoyBalance) -> LedgerView {
    let d = s.tokens[t];
    let curve = d.amm_curve.unwrap();
    s.with_account(t, m, s.accounts[(t, m)].decreased(amount)).with_token(
        t,
        TokenData {
            total_supply: sat_sub(d.total_supply, amount),
            amm_curve: Some(curve.with_supply(sat_sub(curve.provided_supply, amount))),
            ..d
        },
    ).with_joy(s.joy.transferred(JoyAccountId::AmmTreasury(t), JoyAccountId::Plain(sender), price))
}

/// What closing the bonding curve of the token `t` gives: no curve, and
/// a curve treasury emptied down to the existential deposit.
pub open spec fn deactivate_amm_result(s: LedgerView, t: TokenId) -> Result<LedgerView, Error> {
    match curve_of(s, t) {
        Err(e) => Err(e),
        Ok(curve) => if curve.provided_supply > s.parameters.amm_deactivation_threshold.of(
            s.tokens[t].total_supply,
        ) {
            Err(Error::OutstandingAmmProvidedSupplyTooLarge)
        } else {
            Ok(
                s.with_token(t, TokenData { amm_curve: None, ..s.tokens[t] }).with_joy(
                    s.joy.burned(JoyAccountId::AmmTreasury(t), surplus(s.joy, JoyAccountId::AmmTreasury(t))),
                ),
            )
        },
    }
}

/// What `activate_amm` leaves behind, the ledger `after` and the result `r`,
/// given the ledger `before` that it was called on.
pub open spec fn activate_amm_outcome(
    before: LedgerView,
    after: LedgerView,
    token_id: TokenId,
    member_id: MemberId,
    params: AmmParams,
    r: Result<(), Error>,
) -> bool {
    match activate_amm_result(before, token_id, params) {
        Err(e) => r == Err::<(), Error>(e) && after == before,
        Ok(post) => r == Ok::<(), Error>(()) && post.plus_event(after)
            && after.events.last() == Event::AmmActivated(
            token_id,
            member_id,
            AmmCurve { slope: params.slope, intercept: params.intercept, provided_supply: 0 },
        ),
    }
}

/// What `buy_on_amm` leaves behind, the ledger `after` and the result `r`,
/// given the ledger `before` that it was called on.
pub open spec fn buy_on_amm_outcome(
    before: LedgerView,
    after: LedgerView,
    sender: AccountId,
    token_id: TokenId,
    member_id: MemberId,
    amount: Balance,
    slippage_tolerance: SlippageTolerance,
    r: Result<(), Error>,
) -> bool {
    &&& (amount == 0 ==> r == Ok::<(), Error>(()) && after == before)
    &&& (amount != 0 ==> match buy_price(before, sender, token_id, member_id, amount, slippage_tolerance) {
        Err(e) => r == Err::<(), Error>(e) && after == before,
        Ok(price) => r == Ok::<(), Error>(()) && bought(
            before,
            sender,
            token_id,
            member_id,
            amount,
            price,
        ).plus_event(after) && after.events.last() == Event::TokensBoughtOnAmm(
            token_id,
            member_id,
            amount,
            price,
        ),
    })
}

/// What `sell_on_amm` leaves behind, the ledger `after` and the result `r`,
/// given the ledger `before` that it was called on.
pub open spec fn sell_on_amm_outcome(
    before: LedgerView,
    after: LedgerView,
    sender: AccountId,
    token_id: TokenId,
    member_id: MemberId,
    amount: Balance,
    slippage_tolerance: SlippageTolerance,
    r: Result<(), Error>,
) -> bool {
    &&& (amount == 0 ==> r == Ok::<(), Error>(()) && after == before)
    &&& (amount != 0 ==> match sell_price(before, sender, token_id, member_id, amount, slippage_tolerance) {
        Err(e) => r == Err::<(), Error>(e) && after == before,
        Ok(price) => r == Ok::<(), Error>(()) && sold(
            before,
            sender,
            token_id,
            member_id,
            amount,
            price,
        ).plus_event(after) && after.events.last() == Event::TokensSoldOnAmm(
            token_id,
            member_id,
            amount,
            price,
        ),
    })
}

/// What `deactivate_amm` leaves behind, the ledger `after` and the result `r`,
/// given the ledger `before` that it was called on.
pub open spec fn deactivate_amm_outcome(
    before: LedgerView,
    after: LedgerView,
    token_id: TokenId,
    member_id: MemberId,
    r: Result<(), Error>,
) -> bool {
    match deactivate_amm_result(before, token_id) {
        Err(e) => r == Err::<(), Error>(e) && after == before,
        Ok(post) => r == Ok::<(), Error>(()) && post.plus_event(after)
            && after.events.last() == Event::AmmDeactivated(
            token_id,
            member_id,
            surplus(before.joy, JoyAccountId::AmmTreasury(token_id)),
        ) && after.tokens[token_id].amm_curve.is_none(),
    }
}

impl TokenLedger {
    fn get_curve(&self, t: TokenId) -> (r: Result<(TokenData, AmmCurve), Error>)
        ensures
            match r {
                Ok((d, curve)) => curve_of(self@, t) == Ok::<AmmCurve, Error>(curve) && self@.tokens.contains_key(t)
                    && d == self@.tokens[t] && d.amm_curve == Some(curve),
                Err(e) => curve_of(self@, t) == Err::<AmmCurve, Error>(e),
            },
    {
        let d = match self.get_token(t) {
            Ok(d) => d,
            Err(e) => {
                return Err(e);
            },
        };
        match IssuanceState::of(&d, self.block_number) {
            IssuanceState::Amm(curve) => Ok((d, curve)),
            _ => Err(Error::NotInAmmState),
        }
    }

    /// Opens a bonding curve for the idle token `token_id`.
    pub fn activate_amm(&mut self, token_id: TokenId, member_id: MemberId, params: AmmParams) -> (r: Result<
        (),
        Error,
    >)
        requires
            old(self).wf(),
        ensures
            final(self).wf(),
            activate_amm_outcome(old(self)@, final(self)@, token_id, member_id, params, r),
    {
        let d = match self.get_token(token_id) {
            Ok(d) => d,
            Err(e) => {
                return Err(e);
            },
        };
        if !IssuanceState::of(&d, self.block_number).is_idle() {
            return Err(Error::TokenIssuanceNotInIdleState);
        }
        if d.sale.is_some() {
            return Err(Error::PreviousSaleNotFinalized);
        }
        if !d.revenue_split.is_inactive() {
            return Err(Error::CannotModifySupplyWhenRevenueSplitsAreActive);
        }
        if params.slope.parts < self.parameters.min_amm_slope.parts {
            return Err(Error::CurveSlopeParametersTooLow);
        }
        let curve = AmmCurve::from_params(params);
        let updated = TokenData { amm_curve: Some(curve), ..d };
        proof {
            self@.lemma_inv_token_data(token_id, updated);
        }
        self.put_token(token_id, updated);
        let treasury = JoyAccountId::AmmTreasury(token_id);
        let free = self.joy.free_balance(treasury);
        let deposit = self.joy.existential_deposit();
        if free < deposit {
            self.joy.deposit(treasury, saturating_sub(deposit, free));
        }
        let ghost mid = self@;
        proof {
            old(self)@.with_token(token_id, updated).lemma_inv_frame(mid);
        }
        self.push_event(Event::AmmActivated(token_id, member_id, curve));
        proof {
            mid.lemma_inv_frame(self@);
        }
        Ok(())
    }

    /// Mints `amount` tokens of `token_id` to the member `member_id`,
    /// whom `sender` controls, at the price of the bonding curve. A
    /// purchase of nothing changes nothing.
    pub fn buy_on_amm(
        &mut self,
        sender: AccountId,
        token_id: TokenId,
        member_id: MemberId,
        amount: Balance,
        slippage_tolerance: SlippageTolerance,
    ) -> (r: Result<(), Error>)
        requires
            old(self).wf(),
        ensures
            final(self).wf(),
            buy_on_amm_outcome(old(self)@, final(self)@, sender, token_id, member_id, amount, slippage_tolerance, r),
    {
        if amount == 0 {
            return Ok(());
        }
        match self.ensure_authorized(sender, member_id) {
            Err(e) => {
                return Err(e);
            },
            Ok(_) => {},
        }
        let (d, curve) = match self.get_curve(token_id) {
            Ok(v) => v,
            Err(e) => {
                return Err(e);
            },
        };
        if !d.revenue_split.is_inactive() {
            return Err(Error::CannotModifySupplyWhenRevenueSplitsAreActive);
        }
        let price = match curve.eval(amount, AmmOperation::Buy) {
            Ok(p) => p,
            Err(e) => {
                return Err(e);
            },
        };
        match ensure_within_tolerance(price, AmmOperation::Buy, slippage_tolerance) {
            Err(e) => {
                return Err(e);
            },
            Ok(_) => {},
        }
        let exists = self.has_account(token_id, member_id);
        if !exists && !d.transfer_policy.is_permissionless() {
            return Err(Error::AccountInformationDoesNotExist);
        }
        let bond = if exists {
            0
        } else {
            self.parameters.bloat_bond
        };
        let cost = match checked_add(price, bond) {
            Some(c) => c,
            None => {
                return Err(Error::ArithmeticError);
            },
        };
        let payer = JoyAccountId::Plain(sender);
        if !self.joy.can_transfer(payer, cost) {
            return Err(Error::InsufficientJoyBalance);
        }
        if d.total_supply > u128::MAX - amount || curve.provided_supply > u128::MAX - amount
            || d.accounts_number == u64::MAX {
            return Err(Error::ArithmeticError);
        }
        let account = if exists {
            let mut a = match self.get_account(token_id, member_id) {
                Ok(a) => a,
                Err(e) => {
                    return Err(e);
                },
            };
            a.increase_amount_by(amount);
            a
        } else {
            AccountData::new_with_amount_and_bond(amount, RepayableBloatBond::new(bond, None))
        };
        let m = Self::do_mint(d, amount);
        let updated = TokenData {
            accounts_number: if exists {
                d.accounts_number
            } else {
                d.accounts_number + 1
            },
            amm_curve: Some(
                AmmCurve {
                    slope: curve.slope,
                    intercept: curve.intercept,
                    provided_supply: curve.provided_supply + amount,
                },
            ),
            ..m
        };
        proof {
            account.lemma_view_wf();
            lemma_held_bounded(self@.accounts, token_id, member_id);
            assert(self@.token_inv(token_id));
            self@.lemma_inv_account_set(token_id, member_id, account@, updated);
        }
        self.put_account(token_id, member_id, account);
        self.put_token(token_id, updated);
        let _paid = self.joy.transfer(payer, JoyAccountId::AmmTreasury(token_id), price);
        if !exists {
            let _bonded = self.joy.transfer(payer, JoyAccountId::Treasury(token_id), bond);
        }
        let ghost mid = self@;
        proof {
            old(self)@.with_account(token_id, member_id, account@).with_token(token_id, updated).lemma_inv_frame(
                mid,
            );
        }
        self.push_event(Event::TokensBoughtOnAmm(token_id, member_id, amount, price));
        proof {
            mid.lemma_inv_frame(self@);
        }
        Ok(())
    }

    /// Burns `amount` tokens of `token_id` of the member `member_id`,
    /// whom `sender` controls, for the payout of the bonding curve. A
    /// sale of nothing changes nothing.
    pub fn sell_on_amm(
        &mut self,
        sender: AccountId,
        token_id: TokenId,
        member_id: MemberId,
        amount: Balance,
        slippage_tolerance: SlippageTolerance,
    ) -> (r: Result<(), Error>)
        requires
            old(self).wf(),
        ensures
            final(self).wf(),
            sell_on_amm_outcome(old(self)@, final(self)@, sender, token_id, member_id, amount, slippage_tolerance, r),
    {
        if amount == 0 {
            return Ok(());
        }
        match self.ensure_authorized(sender, member_id) {
            Err(e) => {
                return Err(e);
            },
            Ok(_) => {},
        }
        let (d, curve) = match self.get_curve(token_id) {
            Ok(v) => v,
            Err(e) => {
                return Err(e);
            },
        };
        let mut account = match self.get_account(token_id, member_id) {
            Ok(a) => a,
            Err(e) => {
                return Err(e);
            },
        };
        if !d.revenue_split.is_inactive() {
            return Err(Error::CannotModifySupplyWhenRevenueSplitsAreActive);
        }
        if account.transferrable(self.block_number) < amount {
            return Err(Error::InsufficientTokenBalance);
        }
        if curve.provided_supply < amount {
            return Err(Error::ArithmeticError);
        }
        let price = match curve.eval(amount, AmmOperation::Sell) {
            Ok(p) => p,
            Err(e) => {
                return Err(e);
            },
        };
        match ensure_within_tolerance(price, AmmOperation::Sell, slippage_tolerance) {
            Err(e) => {
                return Err(e);
            },
            Ok(_) => {},
        }
        let treasury = JoyAccountId::AmmTreasury(token_id);
        if !self.joy.can_transfer(treasury, price) {
            return Err(Error::InsufficientJoyBalance);
        }
        account.decrease_amount_by(amount);
        let updated = TokenData {
            total_supply: saturating_sub(d.total_supply, amount),
            amm_curve: Some(
                AmmCurve {
                    slope: curve.slope,
                    intercept: curve.intercept,
                    provided_supply: saturating_sub(curve.provided_supply, amount),
                },
            ),
            ..d
        };
        proof {
            account.lemma_view_wf();
            lemma_held_bounded(self@.accounts, token_id, member_id);
            assert(self@.token_inv(token_id));
            self@.lemma_inv_account_set(token_id, member_id, account@, updated);
        }
        self.put_account(token_id, member_id, account);
        self.put_token(token_id, updated);
        let _paid = self.joy.transfer(treasury, JoyAccountId::Plain(sender), price);
        let ghost mid = self@;
        proof {
            old(self)@.with_account(token_id, member_id, account@).with_token(token_id, updated).lemma_inv_frame(
                mid,
            );
        }
        self.push_event(Event::TokensSoldOnAmm(token_id, member_id, amount, price));
        proof {
            mid.lemma_inv_frame(self@);
        }
        Ok(())
    }

    /// Closes the bonding curve of the token `token_id`, which may still
    /// provide at most the configured share of the supply.
    pub fn deactivate_amm(&mut self, token_id: TokenId, member_id: MemberId) -> (r: Result<(), Error>)
        requires
            old(self).wf(),
        ensures
            final(self).wf(),
            deactivate_amm_outcome(old(self)@, final(self)@, token_id, member_id, r),
    {
        let (d, curve) = match self.get_curve(token_id) {
            Ok(v) => v,
            Err(e) => {
                return Err(e);
            },
        };
        if curve.provided_supply > self.parameters.amm_deactivation_threshold.mul_floor(d.total_supply) {
            return Err(Error::OutstandingAmmProvidedSupplyTooLarge);
        }
        let updated = TokenData { amm_curve: None, ..d };
        proof {
            self@.lemma_inv_token_data(token_id, updated);
        }
        self.put_token(token_id, updated);
        let treasury = JoyAccountId::AmmTreasury(token_id);
        let above = saturating_sub(self.joy.free_balance(treasury), self.joy.existential_deposit());
        let burned = self.joy.burn(treasury, above);
        let ghost mid = self@;
        proof {
            old(self)@.with_token(token_id, updated).lemma_inv_frame(mid);
        }
        self.push_event(Event::AmmDeactivated(token_id, member_id, burned));
        proof {
            mid.lemma_inv_frame(self@);
        }
        Ok(())
    }
}

} // verus!
