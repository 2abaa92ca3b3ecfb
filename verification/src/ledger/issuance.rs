//! Issuing a token with its first accounts, and removing a token.
use crate::account::{AccountData, AccountId, AccountView, JoyBalance, MemberId, RepayableBloatBond, TokenId};
use crate::arith::{checked_add, checked_mul};
use crate::errors::Error;
use crate::events::Event;
use crate::joy::{bond_at, bond_for, JoyAccountId};
use crate::ledger::{LedgerView, TokenLedger};
use crate::merkle::{hash_eq, H256};
use crate::split::RevenueSplitState;
use crate::supply::{
    accounts_count, lemma_account_set, lemma_no_accounts, lemma_present_counted, total_held,
    Accounts,
};
use crate::token::{PatronageData, TokenAllocation, TokenData, TokenIssuanceParameters};
use crate::vesting::{Balance, BlockNumber, VestingSchedule, VestingSource};
use vstd::prelude::*;

verus! {

/// The first holders of a token, each with what it gets.
pub type Allocations = Seq<(MemberId, TokenAllocation)>;

/// Whether every member that the first `n` allocations name exists.
pub open spec fn members_exist(members: Map<MemberId, AccountId>, allocs: Allocations, n: nat) -> bool {
    forall|i: int| 0 <= i < n ==> members.contains_key((#[trigger] allocs[i]).0)
}

/// Whether no member is named twice.
pub open spec fn members_distinct(allocs: Allocations) -> bool {
    forall|i: int, j: int| 0 <= i < j < allocs.len() ==> (#[trigger] allocs[i]).0 != (#[trigger] allocs[j]).0
}

/// The sum of the first `n` allocations.
pub open spec fn total_allocated(allocs: Allocations, n: nat) -> nat
    recommends
        n <= allocs.len(),
    decreases n,
{
    if n == 0 {
        0
    } else {
        total_allocated(allocs, (n - 1) as nat) + allocs[n - 1].1.amount as nat
    }
}

/// The account that an allocation makes at block `now`, paid for by
/// `bond`.
pub open spec fn allocation_account(alloc: TokenAllocation, now: BlockNumber, bond: RepayableBloatBond) -> AccountView {
    match alloc.vesting_schedule_params {
        Some(p) => AccountView::fresh_vesting(
            VestingSource::InitialIssuance,
            VestingSchedule::spec_from_params(now, alloc.amount, p),
            bond,
        ),
        None => AccountView::fresh(alloc.amount, bond),
    }
}

/// The accounts after the first `n` allocations of the token `t` were
/// made at block `now`, paid for by `payer` with `locked` of the bonds
/// out of locked funds.
pub open spec fn allocated(
    accounts: Accounts,
    t: TokenId,
    allocs: Allocations,
    payer: AccountId,
    bond: JoyBalance,
    locked: JoyBalance,
    now: BlockNumber,
    n: nat,
) -> Accounts
    recommends
        n <= allocs.len(),
    decreases n,
{
    if n == 0 {
        accounts
    } else {
        allocated(accounts, t, allocs, payer, bond, locked, now, (n - 1) as nat).insert(
            (t, allocs[n - 1].0),
            allocation_account(allocs[n - 1].1, now, bond_at(payer, bond, locked, (n - 1) as nat)),
        )
    }
}

/// Why a token cannot be issued, if it cannot.
pub open spec fn issue_token_error(s: LedgerView, issuer: AccountId, params: TokenIssuanceParameters) -> Option<
    Error,
> {
    let allocs = params.initial_allocation@;
    if params.revenue_split_rate.parts == 0 {
        Some(Error::RevenueSplitRateIsZero)
    } else if !members_exist(s.members, allocs, allocs.len()) {
        Some(Error::InitialAllocationToNonExistingMember)
    } else if !members_distinct(allocs) {
        Some(Error::AccountAlreadyExists)
    } else if total_allocated(allocs, allocs.len()) > u128::MAX {
        Some(Error::ArithmeticError)
    } else if s.symbols.contains(params.symbol) {
        Some(Error::TokenSymbolAlreadyInUse)
    } else if allocs.len() * s.parameters.bloat_bond > u128::MAX {
        Some(Error::ArithmeticError)
    } else if !s.joy.can_pay_bond(
        JoyAccountId::Plain(issuer),
        (allocs.len() * s.parameters.bloat_bond) as u128,
    ) {
        Some(Error::InsufficientJoyBalance)
    } else if s.next_token_id == u64::MAX {
        Some(Error::ArithmeticError)
    } else {
        None
    }
}

/// The data of a token that was just issued at block `now`.
pub open spec fn issued_token(params: TokenIssuanceParameters, now: BlockNumber) -> TokenData {
    let allocs = params.initial_allocation@;
    TokenData {
        total_supply: total_allocated(allocs, allocs.len()) as u128,
        tokens_issued: total_allocated(allocs, allocs.len()) as u128,
        existential_deposit: params.existential_deposit,
        symbol: params.symbol,
        transfer_policy: params.transfer_policy.policy(),
        accounts_number: allocs.len() as u64,
        patronage_info: PatronageData {
            rate: params.patronage_rate,
            outstanding_credit: 0,
            last_tally_block: now,
        },
        sale: None,
        next_sale_id: 0,
        revenue_split: RevenueSplitState::Inactive,
        revenue_split_rate: params.revenue_split_rate,
        amm_curve: None,
        next_revenue_split_id: 0,
    }
}

/// The ledger after the token was issued: the token has the next id, its
/// first holders have their accounts, and their bonds lie in the token's
/// treasury.
pub open spec fn token_issued(s: LedgerView, issuer: AccountId, params: TokenIssuanceParameters) -> LedgerView {
    let allocs = params.initial_allocation@;
    let t = s.next_token_id;
    let bond = s.parameters.bloat_bond;
    let total_bond = (allocs.len() * bond) as u128;
    let locked = s.joy.locked_used(JoyAccountId::Plain(issuer), total_bond);
    LedgerView {
        tokens: s.tokens.insert(t, issued_token(params, s.block)),
        accounts: allocated(s.accounts, t, allocs, issuer, bond, locked, s.block, allocs.len()),
        next_token_id: (t + 1) as u64,
        symbols: s.symbols.push(params.symbol),
        joy: s.joy.transferred(JoyAccountId::Plain(issuer), JoyAccountId::Treasury(t), total_bond),
        ..s
    }
}

/// The symbols other than `symbol` among the first `n` of `symbols`.
pub open spec fn symbols_kept(symbols: Seq<H256>, symbol: H256, n: nat) -> Seq<H256>
    recommends
        n <= symbols.len(),
    decreases n,
{
    if n == 0 {
        Seq::empty()
    } else if symbols[n - 1] == symbol {
        symbols_kept(symbols, symbol, (n - 1) as nat)
    } else {
        symbols_kept(symbols, symbol, (n - 1) as nat).push(symbols[n - 1])
    }
}

/// What removing the token `t` gives: the token is gone and its symbol
/// is free. A token with accounts cannot be removed.
pub open spec fn deissue_token_result(s: LedgerView, t: TokenId) -> Result<LedgerView, Error> {
    if !s.tokens.contains_key(t) {
        Err(Error::TokenDoesNotExist)
    } else if s.tokens[t].accounts_number != 0 {
        Err(Error::CannotDeissueTokenWithOutstandingAccounts)
    } else {
        Ok(
            LedgerView {
                tokens: s.tokens.remove(t),
                symbols: symbols_kept(s.symbols, s.tokens[t].symbol, s.symbols.len()),
                ..s
            },
        )
    }
}

proof fn lemma_total_allocated_grows(allocs: Allocations, i: nat, n: nat)
    requires
        i <= n <= allocs.len(),
    ensures
        total_allocated(allocs, i) <= total_allocated(allocs, n),
    decreases n,
{
    if i < n {
        lemma_total_allocated_grows(allocs, i, (n - 1) as nat);
    }
}

/// What the allocations do to the sums: the accounts of other tokens are
/// untouched, and the new token holds what was allocated in as many
/// accounts as there are allocations.
proof fn lemma_allocated(
    accounts: Accounts,
    t: TokenId,
    allocs: Allocations,
    payer: AccountId,
    bond: JoyBalance,
    locked: JoyBalance,
    now: BlockNumber,
    n: nat,
)
    requires
        n <= allocs.len(),
        members_distinct(allocs),
        forall|m: MemberId| !accounts.contains_key((t, m)),
        total_allocated(allocs, allocs.len()) <= u128::MAX,
    ensures
        ({
            let after = allocated(accounts, t, allocs, payer, bond, locked, now, n);
            &&& total_held(after, t) == total_allocated(allocs, n)
            &&& accounts_count(after, t) == n
            &&& forall|x: TokenId| x != t ==> #[trigger] total_held(after, x) == total_held(accounts, x)
            &&& forall|x: TokenId| x != t ==> #[trigger] accounts_count(after, x) == accounts_count(accounts, x)
            &&& forall|x: TokenId, m: MemberId|
                x != t ==> (#[trigger] after.contains_key((x, m)) == accounts.contains_key((x, m)))
            &&& forall|x: TokenId, m: MemberId|
                x != t && accounts.contains_key((x, m)) ==> #[trigger] after[(x, m)] == accounts[(x, m)]
            &&& forall|m: MemberId| #[trigger]
                after.contains_key((t, m)) <==> exists|i: int| 0 <= i < n && allocs[i].0 == m
            &&& forall|m: MemberId| #[trigger] after.contains_key((t, m)) ==> after[(t, m)].wf()
        }),
    decreases n,
{
    if n == 0 {
        lemma_no_accounts(accounts, t);
    } else {
        let before = allocated(accounts, t, allocs, payer, bond, locked, now, (n - 1) as nat);
        lemma_allocated(accounts, t, allocs, payer, bond, locked, now, (n - 1) as nat);
        let m0 = allocs[n - 1].0;
        let a = allocation_account(allocs[n - 1].1, now, bond_at(payer, bond, locked, (n - 1) as nat));
        let after = before.insert((t, m0), a);
        lemma_account_set(before, t, m0, a);
        assert(!before.contains_key((t, m0))) by {
            if before.contains_key((t, m0)) {
                let i = choose|i: int| 0 <= i < n - 1 && allocs[i].0 == m0;
                assert(allocs[i].0 != allocs[n - 1].0);
            }
        }
        lemma_total_allocated_grows(allocs, n, allocs.len());
        assert(a.amount == allocs[n - 1].1.amount) by {
            match allocs[n - 1].1.vesting_schedule_params {
                Some(p) => {
                    lemma_from_params_total(now, allocs[n - 1].1.amount, p);
                },
                None => {},
            }
        }
        assert(a.wf()) by {
            match allocs[n - 1].1.vesting_schedule_params {
                Some(p) => {
                    lemma_from_params_total(now, allocs[n - 1].1.amount, p);
                    let e = a.vesting[0];
                    assert(a.vesting.len() == 1);
                },
                None => {},
            }
        }
        assert forall|m: MemberId| #[trigger] after.contains_key((t, m)) <==> exists|i: int|
            0 <= i < n && allocs[i].0 == m by {
            if after.contains_key((t, m)) {
                if m == m0 {
                    assert(allocs[n - 1].0 == m);
                } else {
                    assert(before.contains_key((t, m)));
                    let i = choose|i: int| 0 <= i < n - 1 && allocs[i].0 == m;
                    assert(0 <= i < n && allocs[i].0 == m);
                }
            }
            if exists|i: int| 0 <= i < n && allocs[i].0 == m {
                let i = choose|i: int| 0 <= i < n && allocs[i].0 == m;
                if i < n - 1 {
                    assert(before.contains_key((t, m)));
                }
            }
        }
    }
}

/// A schedule made from parameters holds the whole amount.
pub proof fn lemma_from_params_total(now: BlockNumber, amount: Balance, p: crate::vesting::VestingScheduleParams)
    ensures
        VestingSchedule::spec_from_params(now, amount, p).wf(),
        VestingSchedule::spec_from_params(now, amount, p).spec_total_amount() == amount,
{
    if p.cliff_amount_percentage.wf() {
        crate::arith::lemma_mul_floor_bounded(p.cliff_amount_percentage.parts, amount);
    }
}

/// What `issue_token` leaves behind, the ledger `after` and the result `r`,
/// given the ledger `before` that it was called on.
pub open spec fn issue_token_outcome(
    before: LedgerView,
    after: LedgerView,
    issuer_account: AccountId,
    issuance_parameters: TokenIssuanceParameters,
    r: Result<TokenId, Error>,
) -> bool {
    match issue_token_error(before, issuer_account, issuance_parameters) {
        Some(e) => r == Err::<TokenId, Error>(e) && after == before,
        None => r == Ok::<TokenId, Error>(before.next_token_id) && token_issued(
            before,
            issuer_account,
            issuance_parameters,
        ).plus_event(after) && (match after.events.last() {
            Event::TokenIssued(t, p) => t == before.next_token_id && p == issuance_parameters,
            _ => false,
        }),
    }
}

/// What `deissue_token` leaves behind, the ledger `after` and the result `r`,
/// given the ledger `before` that it was called on.
pub open spec fn deissue_token_outcome(
    before: LedgerView,
    after: LedgerView,
    token_id: TokenId,
    r: Result<(), Error>,
) -> bool {
    match deissue_token_result(before, token_id) {
        Err(e) => r == Err::<(), Error>(e) && after == before,
        Ok(post) => r == Ok::<(), Error>(()) && post.plus_event(after)
            && after.events.last() == Event::TokenDeissued(token_id)
            && !after.tokens.contains_key(token_id),
    }
}

impl TokenLedger {
    fn check_members_exist(&self, allocs: &Vec<(MemberId, TokenAllocation)>) -> (r: bool)
        ensures
            r == members_exist(self@.members, allocs@, allocs@.len()),
    {
        let mut i: usize = 0;
        while i < allocs.len()
            invariant
                i <= allocs.len(),
                members_exist(self@.members, allocs@, i as nat),
            decreases allocs.len() - i,
        {
            if !self.members.is_member(allocs[i].0) {
                return false;
            }
            i += 1;
        }
        true
    }

    fn check_members_distinct(allocs: &Vec<(MemberId, TokenAllocation)>) -> (r: bool)
        ensures
            r == members_distinct(allocs@),
    {
        let mut j: usize = 0;
        while j < allocs.len()
            invariant
                j <= allocs.len(),
                forall|a: int, b: int| 0 <= a < b < j ==> (#[trigger] allocs@[a]).0 != (#[trigger] allocs@[b]).0,
            decreases allocs.len() - j,
        {
            let mut i: usize = 0;
            while i < j
                invariant
                    i <= j < allocs.len(),
                    forall|a: int| 0 <= a < i ==> (#[trigger] allocs@[a]).0 != allocs@[j as int].0,
                decreases j - i,
            {
                if allocs[i].0 == allocs[j].0 {
                    return false;
                }
                i += 1;
            }
            j += 1;
        }
        true
    }

    fn sum_allocations(allocs: &Vec<(MemberId, TokenAllocation)>) -> (r: Option<Balance>)
        ensures
            r == (if total_allocated(allocs@, allocs@.len()) <= u128::MAX {
                Some(total_allocated(allocs@, allocs@.len()) as u128)
            } else {
                None
            }),
    {
        let mut sum: Balance = 0;
        let mut i: usize = 0;
        while i < allocs.len()
            invariant
                i <= allocs.len(),
                sum == total_allocated(allocs@, i as nat),
            decreases allocs.len() - i,
        {
            sum =
            match checked_add(sum, allocs[i].1.amount) {
                Some(v) => v,
                None => {
                    proof {
                        lemma_total_allocated_grows(allocs@, (i + 1) as nat, allocs@.len());
                    }
                    return None;
                },
            };
            i += 1;
        }
        Some(sum)
    }

    /// Issues a token with its first holders, whose bonds
    /// `issuer_account` pays. Returns the id of the token.
    pub fn issue_token(&mut self, issuer_account: AccountId, issuance_parameters: TokenIssuanceParameters) -> (r:
        Result<TokenId, Error>)
        requires
            old(self).wf(),
        ensures
            final(self).wf(),
            issue_token_outcome(old(self)@, final(self)@, issuer_account, issuance_parameters, r),
    {
        if issuance_parameters.revenue_split_rate.is_zero() {
            return Err(Error::RevenueSplitRateIsZero);
        }
        if !self.check_members_exist(&issuance_parameters.initial_allocation) {
            return Err(Error::InitialAllocationToNonExistingMember);
        }
        if !Self::check_members_distinct(&issuance_parameters.initial_allocation) {
            return Err(Error::AccountAlreadyExists);
        }
        let total = match Self::sum_allocations(&issuance_parameters.initial_allocation) {
            Some(v) => v,
            None => {
                return Err(Error::ArithmeticError);
            },
        };
        if self.symbol_used(&issuance_parameters.symbol) {
            return Err(Error::TokenSymbolAlreadyInUse);
        }
        let n = issuance_parameters.initial_allocation.len();
        let bond = self.parameters.bloat_bond;
        let total_bond = match checked_mul(n as u128, bond) {
            Some(v) => v,
            None => {
                return Err(Error::ArithmeticError);
            },
        };
        let payer = JoyAccountId::Plain(issuer_account);
        if !self.joy.can_pay_bond(payer, total_bond) {
            return Err(Error::InsufficientJoyBalance);
        }
        if self.next_token_id == u64::MAX {
            return Err(Error::ArithmeticError);
        }
        let token_id = self.next_token_id;
        let now = self.block_number;
        let locked = self.joy.locked_used(payer, total_bond);
        let ghost allocs = issuance_parameters.initial_allocation@;
        let ghost before = self@;
        proof {
            assert forall|m: MemberId| !before.accounts.contains_key((token_id, m)) by {
                if before.accounts.contains_key((token_id, m)) {
                    assert(before.account_inv(token_id, m));
                    assert(before.token_inv(token_id));
                }
            }
        }
        let mut i: usize = 0;
        while i < n
            invariant
                i <= n,
                n == allocs.len(),
                allocs == issuance_parameters.initial_allocation@,
                self.stored_wf(),
                self@ == (LedgerView {
                    accounts: allocated(
                        before.accounts,
                        token_id,
                        allocs,
                        issuer_account,
                        bond,
                        locked,
                        now,
                        i as nat,
                    ),
                    ..before
                }),
            decreases n - i,
        {
            let (member_id, allocation) = issuance_parameters.initial_allocation[i];
            let account_bond = bond_for(issuer_account, bond, locked, i);
            let account = match allocation.vesting_schedule_params {
                Some(p) => AccountData::new_with_vesting_and_bond(
                    VestingSource::InitialIssuance,
                    VestingSchedule::from_params(now, allocation.amount, p),
                    account_bond,
                ),
                None => AccountData::new_with_amount_and_bond(allocation.amount, account_bond),
            };
            self.put_account(token_id, member_id, account);
            i += 1;
        }
        let data = TokenData {
            total_supply: total,
            tokens_issued: total,
            existential_deposit: issuance_parameters.existential_deposit,
            symbol: issuance_parameters.symbol,
            transfer_policy: issuance_parameters.transfer_policy.to_policy(),
            accounts_number: n as u64,
            patronage_info: PatronageData {
                rate: issuance_parameters.patronage_rate,
                outstanding_credit: 0,
                last_tally_block: now,
            },
            sale: None,
            next_sale_id: 0,
            revenue_split: RevenueSplitState::Inactive,
            revenue_split_rate: issuance_parameters.revenue_split_rate,
            amm_curve: None,
            next_revenue_split_id: 0,
        };
        self.put_token(token_id, data);
        self.symbols_used.push(issuance_parameters.symbol);
        self.next_token_id = token_id + 1;
        let _moved = self.joy.transfer(payer, JoyAccountId::Treasury(token_id), total_bond);
        let ghost mid = self@;
        proof {
            lemma_allocated(
                before.accounts,
                token_id,
                allocs,
                issuer_account,
                bond,
                locked,
                now,
                allocs.len(),
            );
            assert(mid == token_issued(before, issuer_account, issuance_parameters));
            assert(mid.token_inv(token_id));
            before.lemma_inv_one_token(mid, token_id);
        }
        self.push_event(Event::TokenIssued(token_id, issuance_parameters));
        proof {
            mid.lemma_inv_frame(self@);
        }
        Ok(token_id)
    }

    /// Removes the token `token_id`, which has no account left, and
    /// frees its symbol.
    pub fn deissue_token(&mut self, token_id: TokenId) -> (r: Result<(), Error>)
        requires
            old(self).wf(),
        ensures
            final(self).wf(),
            deissue_token_outcome(old(self)@, final(self)@, token_id, r),
    {
        let d = match self.get_token(token_id) {
            Ok(d) => d,
            Err(e) => {
                return Err(e);
            },
        };
        if d.accounts_number != 0 {
            return Err(Error::CannotDeissueTokenWithOutstandingAccounts);
        }
        let ghost before = self@;
        let mut kept: Vec<H256> = Vec::new();
        let mut i: usize = 0;
        while i < self.symbols_used.len()
            invariant
                i <= self.symbols_used.len(),
                *self == *old(self),
                kept@ == symbols_kept(self.symbols_used@, d.symbol, i as nat),
            decreases self.symbols_used.len() - i,
        {
            if !hash_eq(&self.symbols_used[i], &d.symbol) {
                kept.push(self.symbols_used[i]);
            }
            i += 1;
        }
        self.symbols_used = kept;
        self.drop_token(token_id);
        let ghost mid = self@;
        proof {
            assert(before.token_inv(token_id));
            assert forall|m: MemberId| !before.accounts.contains_key((token_id, m)) by {
                lemma_present_counted(before.accounts, token_id, m);
            }
            before.lemma_inv_one_token(mid, token_id);
        }
        self.push_event(Event::TokenDeissued(token_id));
        proof {
            mid.lemma_inv_frame(self@);
        }
        Ok(())
    }
}

} // verus!
