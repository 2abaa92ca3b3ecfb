//! The public sale of a token: setting it up, changing it before it
//! starts, buying, and closing it.
use crate::account::{AccountData, AccountId, AccountView, JoyBalance, MemberId, RepayableBloatBond, TokenId};
use crate::arith::{checked_add, sat_add, sat_sub, saturating_add, saturating_sub};
use crate::errors::Error;
use crate::events::Event;
use crate::joy::{JoyAccountId, JoyView};
use crate::ledger::amm_ops::bond_due;
use crate::ledger::{LedgerView, TokenLedger};
use crate::sale::{ensure_valid_timing, timing_error, TokenSale, TokenSaleParams};
use crate::schedules::{has_source, index_of};
use crate::supply::lemma_held_bounded;
use crate::token::{IssuanceState, TokenData};
use crate::vesting::{Balance, BlockNumber, VestingSource};
use vstd::prelude::*;

verus! {

/// Why a sale of the token `t` out of the account of the member `m`
/// cannot be set up, if it cannot.
pub open spec fn init_token_sale_error(s: LedgerView, t: TokenId, m: MemberId, params: TokenSaleParams) -> Option<
    Error,
> {
    if !s.tokens.contains_key(t) {
        Some(Error::TokenDoesNotExist)
    } else {
        match params.error(s.block, s.parameters.min_sale_duration) {
            Some(e) => Some(e),
            None => if IssuanceState::spec_of(s.tokens[t], s.block) != IssuanceState::Idle {
                Some(Error::TokenIssuanceNotInIdleState)
            } else if s.tokens[t].sale.is_some() {
                Some(Error::PreviousSaleNotFinalized)
            } else if !s.accounts.contains_key((t, m)) {
                Some(Error::AccountInformationDoesNotExist)
            } else if s.accounts[(t, m)].transferrable(s.block) < params.upper_bound_quantity {
                Some(Error::InsufficientTransferrableBalance)
            } else if s.tokens[t].next_sale_id == u32::MAX {
                Some(Error::ArithmeticError)
            } else {
                None
            },
        }
    }
}

/// The ledger after the sale was set up: the quantity on sale left the
/// member's account for the sale's escrow.
pub open spec fn sale_initialized(
    s: LedgerView,
    t: TokenId,
    m: MemberId,
    earnings_destination: Option<AccountId>,
    auto_finalize: bool,
    params: TokenSaleParams,
) -> LedgerView {
    let d = s.tokens[t];
    s.with_account(t, m, s.accounts[(t, m)].decreased(params.upper_bound_quantity)).with_token(
        t,
        TokenData {
            sale: Some(params.sale(m, earnings_destination, auto_finalize, s.block)),
            next_sale_id: (d.next_sale_id + 1) as u32,
            ..d
        },
    )
}

/// The sale of the token `t` that has not started yet, with what it is
/// changed to, or why it cannot be changed.
pub open spec fn update_upcoming_sale_result(
    s: LedgerView,
    t: TokenId,
    new_start: Option<BlockNumber>,
    new_duration: Option<BlockNumber>,
) -> Result<LedgerView, Error> {
    if !s.tokens.contains_key(t) {
        Err(Error::TokenDoesNotExist)
    } else {
        match IssuanceState::spec_of(s.tokens[t], s.block) {
            IssuanceState::UpcomingSale(sale) => {
                let start = match new_start {
                    Some(b) => b,
                    None => sale.start_block,
                };
                let duration = match new_duration {
                    Some(b) => b,
                    None => sale.duration,
                };
                match timing_error(start, duration, s.block, s.parameters.min_sale_duration) {
                    Some(e) => Err(e),
                    None => Ok(
                        s.with_token(
                            t,
                            TokenData {
                                sale: Some(TokenSale { start_block: start, duration, ..sale }),
                                ..s.tokens[t]
                            },
                        ),
                    ),
                }
            },
            _ => Err(Error::NoUpcomingSale),
        }
    }
}

/// What the member bought so far in the sale with the id `sale_id`.
pub open spec fn purchased_in(a: AccountView, sale_id: u32) -> Balance {
    if has_source(a.vesting, VestingSource::Sale(sale_id)) {
        a.vesting[index_of(a.vesting, VestingSource::Sale(sale_id))].schedule.spec_total_amount()
    } else {
        0
    }
}

/// What the member `m` has bought so far in the sale that the token `t`
/// has now.
pub open spec fn purchased_so_far(s: LedgerView, t: TokenId, m: MemberId) -> Balance {
    if s.accounts.contains_key((t, m)) {
        purchased_in(s.accounts[(t, m)], s.tokens[t].current_sale_id())
    } else {
        0
    }
}

/// What a purchase of `amount` tokens of `t` on sale costs, or why the
/// purchase is refused.
pub open spec fn purchase_price(s: LedgerView, sender: AccountId, t: TokenId, m: MemberId, amount: Balance) -> Result<
    JoyBalance,
    Error,
> {
    if !s.authorized(sender, m) {
        Err(Error::OriginNotMemberController)
    } else if !s.tokens.contains_key(t) {
        Err(Error::TokenDoesNotExist)
    } else {
        match IssuanceState::spec_of(s.tokens[t], s.block) {
            IssuanceState::Sale(sale) => if amount == 0 {
                Err(Error::SalePurchaseAmountIsZero)
            } else if sale.quantity_left < amount {
                Err(Error::NotEnoughTokensOnSale)
            } else if !s.accounts.contains_key((t, m)) && !s.tokens[t].transfer_policy.spec_is_permissionless() {
                Err(Error::AccountInformationDoesNotExist)
            } else if s.accounts.contains_key((t, m)) && s.accounts[(t, m)].can_add_schedule(
                s.block,
                VestingSource::Sale(s.tokens[t].current_sale_id()),
            ).is_err() {
                Err(Error::MaxVestingSchedulesPerAccountPerTokenReached)
            } else if purchased_so_far(s, t, m) + amount > u128::MAX {
                Err(Error::ArithmeticError)
            } else if sale.cap_per_member.is_some() && purchased_so_far(s, t, m) + amount
                > sale.cap_per_member.unwrap() {
                Err(Error::SalePurchaseCapExceeded)
            } else if sale.unit_price * amount > u128::MAX || sale.unit_price * amount + bond_due(s, t, m)
                > u128::MAX {
                Err(Error::ArithmeticError)
            } else if !s.joy.can_transfer(
                JoyAccountId::Plain(sender),
                (sale.unit_price * amount + bond_due(s, t, m)) as u128,
            ) {
                Err(Error::InsufficientJoyBalance)
            } else if s.tokens[t].accounts_number == u64::MAX {
                Err(Error::ArithmeticError)
            } else {
                Ok((sale.unit_price * amount) as u128)
            },
            _ => Err(Error::NoActiveSale),
        }
    }
}

/// The reserve currency after `sender` paid `price` for a purchase: the
/// platform's share is destroyed and the rest goes to `destination`, or
/// everything is destroyed if there is no destination.
pub open spec fn price_paid(
    joy: JoyView,
    sender: AccountId,
    destination: Option<AccountId>,
    price: JoyBalance,
    fee: JoyBalance,
) -> JoyView {
    match destination {
        Some(a) => joy.transferred(JoyAccountId::Plain(sender), JoyAccountId::Plain(a), sat_sub(price, fee)).burned(
            JoyAccountId::Plain(sender),
            fee,
        ),
        None => joy.burned(JoyAccountId::Plain(sender), price),
    }
}

/// The sale after `amount` tokens were bought for `price`: `None` if
/// that sold everything and the sale closes by itself.
pub open spec fn sale_after(sale: TokenSale, amount: Balance, price: JoyBalance) -> Option<TokenSale> {
    if sale.quantity_left == amount && sale.auto_finalize {
        None
    } else {
        Some(
            TokenSale {
                quantity_left: sat_sub(sale.quantity_left, amount),
                funds_collected: sat_add(sale.funds_collected, price),
                ..sale
            },
        )
    }
}

/// The ledger after the member `m` bought `amount` tokens of `t` on sale
/// for `price`: the tokens left the escrow for the member's account,
/// under the sale's vesting schedule.
pub open spec fn purchased(s: LedgerView, sender: AccountId, t: TokenId, m: MemberId, amount: Balance, price: JoyBalance) -> LedgerView {
    let d = s.tokens[t];
    let sale = d.sale.unwrap();
    let source = VestingSource::Sale(d.current_sale_id());
    let schedule = sale.spec_vesting_schedule(amount);
    let exists = s.accounts.contains_key((t, m));
    let account = if exists {
        let a = s.accounts[(t, m)];
        a.with_schedule(source, schedule, a.can_add_schedule(s.block, source).unwrap())
    } else {
        AccountView::fresh_vesting(
            source,
            schedule,
            RepayableBloatBond { amount: s.parameters.bloat_bond, repayment_restricted_to: None },
        )
    };
    let paid = price_paid(
        s.joy,
        sender,
        sale.earnings_destination,
        price,
        s.parameters.sale_platform_fee.of(price),
    );
    s.with_account(t, m, account).with_token(
        t,
        TokenData {
            accounts_number: if exists {
                d.accounts_number
            } else {
                (d.accounts_number + 1) as u64
            },
            sale: sale_after(sale, amount, price),
            ..d
        },
    ).with_joy(
        if exists {
            paid
        } else {
            paid.transferred(JoyAccountId::Plain(sender), JoyAccountId::Treasury(t), s.parameters.bloat_bond)
        },
    )
}

/// The sale of the token `t` that can be closed, or why none can: a
/// sale can be closed once its window has passed or everything is sold.
pub open spec fn finalizable_sale(s: LedgerView, t: TokenId) -> Result<TokenSale, Error> {
    if !s.tokens.contains_key(t) {
        Err(Error::TokenDoesNotExist)
    } else {
        match s.tokens[t].sale {
            None => Err(Error::NoTokensToRecover),
            Some(sale) => if s.block < sale.spec_end_block() && sale.quantity_left != 0 {
                Err(Error::TokenIssuanceNotInIdleState)
            } else {
                Ok(sale)
            },
        }
    }
}

/// The ledger after the sale `sale` of the token `t` was closed: what
/// was not sold is back in the account that it came from.
pub open spec fn sale_finalized(s: LedgerView, t: TokenId, sale: TokenSale) -> LedgerView {
    let d = s.tokens[t];
    let m = sale.tokens_source;
    if s.accounts.contains_key((t, m)) {
        s.with_account(t, m, s.accounts[(t, m)].increased(sale.quantity_left)).with_token(
            t,
            TokenData { sale: None, ..d },
        )
    } else {
        s.with_token(t, TokenData { sale: None, ..d })
    }
}

/// What `init_token_sale` leaves behind, the ledger `after` and the result `r`,
/// given the ledger `before` that it was called on.
pub open spec fn init_token_sale_outcome(
    before: LedgerView,
    after: LedgerView,
    token_id: TokenId,
    member_id: MemberId,
    earnings_destination: Option<AccountId>,
    auto_finalize: bool,
    sale_params: TokenSaleParams,
    r: Result<(), Error>,
) -> bool {
    match init_token_sale_error(before, token_id, member_id, sale_params) {
        Some(e) => r == Err::<(), Error>(e) && after == before,
        None => r == Ok::<(), Error>(()) && sale_initialized(
            before,
            token_id,
            member_id,
            earnings_destination,
            auto_finalize,
            sale_params,
        ).plus_event(after) && after.events.last() == Event::TokenSaleInitialized(
            token_id,
            before.tokens[token_id].next_sale_id,
            sale_params.sale(member_id, earnings_destination, auto_finalize, before.block),
        ),
    }
}

/// What `update_upcoming_sale` leaves behind, the ledger `after` and the result `r`,
/// given the ledger `before` that it was called on.
pub open spec fn update_upcoming_sale_outcome(
    before: LedgerView,
    after: LedgerView,
    token_id: TokenId,
    new_start_block: Option<BlockNumber>,
    new_duration: Option<BlockNumber>,
    r: Result<(), Error>,
) -> bool {
    match update_upcoming_sale_result(before, token_id, new_start_block, new_duration) {
        Err(e) => r == Err::<(), Error>(e) && after == before,
        Ok(post) => r == Ok::<(), Error>(()) && post.plus_event(after)
            && after.events.last() == Event::UpcomingTokenSaleUpdated(
            token_id,
            before.tokens[token_id].current_sale_id(),
            new_start_block,
            new_duration,
        ),
    }
}

/// What `purchase_tokens_on_sale` leaves behind, the ledger `after` and the result `r`,
/// given the ledger `before` that it was called on.
pub open spec fn purchase_tokens_on_sale_outcome(
    before: LedgerView,
    after: LedgerView,
    sender: AccountId,
    token_id: TokenId,
    member_id: MemberId,
    amount: Balance,
    r: Result<(), Error>,
) -> bool {
    match purchase_price(before, sender, token_id, member_id, amount) {
        Err(e) => r == Err::<(), Error>(e) && after == before,
        Ok(price) => r == Ok::<(), Error>(()) && purchased(
            before,
            sender,
            token_id,
            member_id,
            amount,
            price,
        ).plus_event(after) && after.events.last() == Event::TokensPurchasedOnSale(
            token_id,
            before.tokens[token_id].current_sale_id(),
            amount,
            member_id,
        ),
    }
}

/// What `finalize_token_sale` leaves behind, the ledger `after` and the result `r`,
/// given the ledger `before` that it was called on.
pub open spec fn finalize_token_sale_outcome(
    before: LedgerView,
    after: LedgerView,
    token_id: TokenId,
    r: Result<JoyBalance, Error>,
) -> bool {
    match finalizable_sale(before, token_id) {
        Err(e) => r == Err::<JoyBalance, Error>(e) && after == before,
        Ok(sale) => r == Ok::<JoyBalance, Error>(sale.funds_collected) && sale_finalized(
            before,
            token_id,
            sale,
        ).plus_event(after) && after.events.last() == Event::TokenSaleFinalized(
            token_id,
            before.tokens[token_id].current_sale_id(),
            sale.quantity_left,
            sale.funds_collected,
        ) && after.tokens[token_id].sale.is_none(),
    }
}

impl TokenLedger {
    /// Puts `sale_params.upper_bound_quantity` tokens of the member
    /// `member_id` on sale.
    pub fn init_token_sale(
        &mut self,
        token_id: TokenId,
        member_id: MemberId,
        earnings_destination: Option<AccountId>,
        auto_finalize: bool,
        sale_params: TokenSaleParams,
    ) -> (r: Result<(), Error>)
        requires
            old(self).wf(),
        ensures
            final(self).wf(),
            init_token_sale_outcome(old(self)@, final(self)@, token_id, member_id, earnings_destination, auto_finalize, sale_params, r),
    {
        let d = match self.get_token(token_id) {
            Ok(d) => d,
            Err(e) => {
                return Err(e);
            },
        };
        let sale = match TokenSale::try_from_params(
            sale_params,
            member_id,
            earnings_destination,
            auto_finalize,
            self.block_number,
            self.parameters.min_sale_duration,
        ) {
            Ok(s) => s,
            Err(e) => {
                return Err(e);
            },
        };
        if !IssuanceState::of(&d, self.block_number).is_idle() {
            return Err(Error::TokenIssuanceNotInIdleState);
        }
        if d.sale.is_some() {
            return Err(Error::PreviousSaleNotFinalized);
        }
        let mut account = match self.get_account(token_id, member_id) {
            Ok(a) => a,
            Err(e) => {
                return Err(e);
            },
        };
        match account.ensure_can_transfer(self.block_number, sale_params.upper_bound_quantity) {
            Err(e) => {
                return Err(e);
            },
            Ok(_) => {},
        }
        if d.next_sale_id == u32::MAX {
            return Err(Error::ArithmeticError);
        }
        account.decrease_amount_by(sale_params.upper_bound_quantity);
        let updated = TokenData { sale: Some(sale), next_sale_id: d.next_sale_id + 1, ..d };
        proof {
            account.lemma_view_wf();
            assert(self@.token_inv(token_id));
            self@.lemma_inv_account_set(token_id, member_id, account@, updated);
        }
        self.put_account(token_id, member_id, account);
        self.put_token(token_id, updated);
        let ghost mid = self@;
        self.push_event(Event::TokenSaleInitialized(token_id, d.next_sale_id, sale));
        proof {
            mid.lemma_inv_frame(self@);
        }
        Ok(())
    }

    /// Changes the start or the duration of the sale of the token
    /// `token_id`, which has not started yet.
    pub fn update_upcoming_sale(
        &mut self,
        token_id: TokenId,
        new_start_block: Option<BlockNumber>,
        new_duration: Option<BlockNumber>,
    ) -> (r: Result<(), Error>)
        requires
            old(self).wf(),
        ensures
            final(self).wf(),
            update_upcoming_sale_outcome(old(self)@, final(self)@, token_id, new_start_block, new_duration, r),
    {
        let d = match self.get_token(token_id) {
            Ok(d) => d,
            Err(e) => {
                return Err(e);
            },
        };
        let sale = match IssuanceState::of(&d, self.block_number) {
            IssuanceState::UpcomingSale(sale) => sale,
            _ => {
                return Err(Error::NoUpcomingSale);
            },
        };
        let start = match new_start_block {
            Some(b) => b,
            None => sale.start_block,
        };
        let duration = match new_duration {
            Some(b) => b,
            None => sale.duration,
        };
        match ensure_valid_timing(start, duration, self.block_number, self.parameters.min_sale_duration) {
            Err(e) => {
                return Err(e);
            },
            Ok(_) => {},
        }
        let updated = TokenData { sale: Some(TokenSale { start_block: start, duration, ..sale }), ..d };
        proof {
            self@.lemma_inv_token_data(token_id, updated);
        }
        self.put_token(token_id, updated);
        let ghost mid = self@;
        self.push_event(
            Event::UpcomingTokenSaleUpdated(token_id, d.sale_id(), new_start_block, new_duration),
        );
        proof {
            mid.lemma_inv_frame(self@);
        }
        Ok(())
    }

    /// Buys `amount` tokens of `token_id` on sale for the member
    /// `member_id`, whom `sender` controls.
    pub fn purchase_tokens_on_sale(
        &mut self,
        sender: AccountId,
        token_id: TokenId,
        member_id: MemberId,
        amount: Balance,
    ) -> (r: Result<(), Error>)
        requires
            old(self).wf(),
        ensures
            final(self).wf(),
            purchase_tokens_on_sale_outcome(old(self)@, final(self)@, sender, token_id, member_id, amount, r),
    {
        match self.ensure_authorized(sender, member_id) {
            Err(e) => {
                return Err(e);
            },
            Ok(_) => {},
        }
        let d = match self.get_token(token_id) {
            Ok(d) => d,
            Err(e) => {
                return Err(e);
            },
        };
        let now = self.block_number;
        let sale = match IssuanceState::of(&d, now) {
            IssuanceState::Sale(sale) => sale,
            _ => {
                return Err(Error::NoActiveSale);
            },
        };
        if amount == 0 {
            return Err(Error::SalePurchaseAmountIsZero);
        }
        if sale.quantity_left < amount {
            return Err(Error::NotEnoughTokensOnSale);
        }
        let sale_id = d.sale_id();
        let source = VestingSource::Sale(sale_id);
        let existing = match self.get_account(token_id, member_id) {
            Ok(a) => Some(a),
            Err(_) => None,
        };
        let exists = existing.is_some();
        if !exists && !d.transfer_policy.is_permissionless() {
            return Err(Error::AccountInformationDoesNotExist);
        }
        let mut cleanup: Option<VestingSource> = None;
        let mut bought_before: Balance = 0;
        match existing {
            Some(a) => {
                cleanup =
                match a.ensure_can_add_or_update_vesting_schedule(now, source) {
                    Ok(c) => c,
                    Err(e) => {
                        return Err(e);
                    },
                };
                bought_before =
                match a.vesting_schedules.schedule_of(&source) {
                    Some(own) => own.total_amount(),
                    None => 0,
                };
            },
            None => {},
        }
        let bought = match checked_add(bought_before, amount) {
            Some(b) => b,
            None => {
                return Err(Error::ArithmeticError);
            },
        };
        match sale.cap_per_member {
            Some(cap) => {
                if bought > cap {
                    return Err(Error::SalePurchaseCapExceeded);
                }
            },
            None => {},
        }
        let price = match sale.price_of(amount) {
            Some(p) => p,
            None => {
                return Err(Error::ArithmeticError);
            },
        };
        let bond = if exists {
            0
        } else {
            self.parameters.bloat_bond
        };
        let cost = match checked_add(price, bond) {
            Some(c) => c,
            None => {
                return Err(Error::ArithmeticError);
            },
        };
        let payer = JoyAccountId::Plain(sender);
        if !self.joy.can_transfer(payer, cost) {
            return Err(Error::InsufficientJoyBalance);
        }
        if d.accounts_number == u64::MAX {
            return Err(Error::ArithmeticError);
        }
        let schedule = sale.get_vesting_schedule(amount);
        let account = match existing {
            Some(a) => {
                let mut a = a;
                proof {
                    a.vesting_schedules.lemma_wf();
                    let es = a@.vesting;
                    if has_source(es, source) {
                        let own = es[index_of(es, source)].schedule;
                        assert(own.wf());
                    } else if es.len() >= crate::vesting::MAX_VESTING_SCHEDULES {
                        let i = crate::schedules::first_finished_upto(es, now, es.len());
                        assert(es[i as int].source == cleanup.unwrap());
                    }
                }
                a.add_or_update_vesting_schedule(source, schedule, cleanup);
                a
            },
            None => AccountData::new_with_vesting_and_bond(
                source,
                schedule,
                RepayableBloatBond::new(bond, None),
            ),
        };
        let sold_out = sale.quantity_left == amount && sale.auto_finalize;
        let sale_now = if sold_out {
            None
        } else {
            Some(
                TokenSale {
                    quantity_left: saturating_sub(sale.quantity_left, amount),
                    funds_collected: saturating_add(sale.funds_collected, price),
                    ..sale
                },
            )
        };
        let updated = TokenData {
            accounts_number: if exists {
                d.accounts_number
            } else {
                d.accounts_number + 1
            },
            sale: sale_now,
            ..d
        };
        proof {
            account.lemma_view_wf();
            lemma_held_bounded(self@.accounts, token_id, member_id);
            assert(self@.token_inv(token_id));
            self@.lemma_inv_account_set(token_id, member_id, account@, updated);
        }
        self.put_account(token_id, member_id, account);
        self.put_token(token_id, updated);
        let fee = self.parameters.sale_platform_fee.mul_floor(price);
        match sale.earnings_destination {
            Some(destination) => {
                let _earned = self.joy.transfer(
                    payer,
                    JoyAccountId::Plain(destination),
                    saturating_sub(price, fee),
                );
                let _fee = self.joy.burn(payer, fee);
            },
            None => {
                let _burned = self.joy.burn(payer, price);
            },
        }
        if !exists {
            let _bonded = self.joy.transfer(payer, JoyAccountId::Treasury(token_id), bond);
        }
        let ghost mid = self@;
        proof {
            old(self)@.with_account(token_id, member_id, account@).with_token(token_id, updated).lemma_inv_frame(
                mid,
            );
        }
        self.push_event(Event::TokensPurchasedOnSale(token_id, sale_id, amount, member_id));
        proof {
            mid.lemma_inv_frame(self@);
        }
        Ok(())
    }

    /// Closes the sale of the token `token_id` and gives what was not
    /// sold back to the account that it came from. Returns the funds
    /// that the sale collected.
    pub fn finalize_token_sale(&mut self, token_id: TokenId) -> (r: Result<JoyBalance, Error>)
        requires
            old(self).wf(),
        ensures
            final(self).wf(),
            finalize_token_sale_outcome(old(self)@, final(self)@, token_id, r),
    {
        let d = match self.get_token(token_id) {
            Ok(d) => d,
            Err(e) => {
                return Err(e);
            },
        };
        let sale = match d.sale {
            Some(s) => s,
            None => {
                return Err(Error::NoTokensToRecover);
            },
        };
        if self.block_number < sale.end_block() && sale.quantity_left != 0 {
            return Err(Error::TokenIssuanceNotInIdleState);
        }
        let updated = TokenData { sale: None, ..d };
        proof {
            assert(self@.token_inv(token_id));
        }
        match self.get_account(token_id, sale.tokens_source) {
            Ok(a) => {
                let mut a = a;
                a.increase_amount_by(sale.quantity_left);
                proof {
                    a.lemma_view_wf();
                    lemma_held_bounded(self@.accounts, token_id, sale.tokens_source);
                    self@.lemma_inv_account_set(token_id, sale.tokens_source, a@, updated);
                }
                self.put_account(token_id, sale.tokens_source, a);
            },
            Err(_) => {
                proof {
                    self@.lemma_inv_token_data(token_id, TokenData { sale: d.sale, ..updated });
                    self@.lemma_inv_sale_cleared(token_id);
                }
            },
        }
        self.put_token(token_id, updated);
        let ghost mid = self@;
        self.push_event(
            Event::TokenSaleFinalized(token_id, d.sale_id(), sale.quantity_left, sale.funds_collected),
        );
        proof {
            mid.lemma_inv_frame(self@);
        }
        Ok(sale.funds_collected)
    }
}

} // verus!
