//! Moving tokens between members.
use crate::account::{
    AccountData, AccountId, AccountView, DecreaseOp, JoyBalance, MemberId, RepayableBloatBond, TokenId,
};
use crate::arith::{checked_add, checked_mul, sat_sub, saturating_sub};
use crate::errors::Error;
use crate::events::{Event, Validated, ValidatedPayment};
use crate::joy::{bond_at, bond_for, JoyAccountId};
use crate::ledger::canonical::{bond_receiver, has_escrow};
use crate::ledger::issuance::lemma_from_params_total;
use crate::ledger::{LedgerView, TokenLedger};
use crate::schedules::{first_finished_upto, has_source};
use crate::supply::{
    accounts_count, held, lemma_account_removed, lemma_account_set, lemma_held_bounded, total_held,
    Accounts,
};
use crate::token::TokenData;
use crate::vesting::{Balance, BlockNumber, VestingSchedule, VestingScheduleParams, VestingSource};
use vstd::prelude::*;

verus! {

/// One output of a transfer.
#[derive(Clone, Copy, Debug, PartialEq, Eq, Structural)]
pub struct Payment {
    /// The member that receives.
    pub dst: MemberId,
    pub amount: Balance,
    /// The vesting that the tokens arrive under, if any.
    pub vesting_schedule: Option<VestingScheduleParams>,
}

/// The outputs of a transfer, in order.
pub type Payments = Seq<Payment>;

/// The sum of the first `n` payments.
pub open spec fn total_paid(ps: Payments, n: nat) -> nat
    recommends
        n <= ps.len(),
    decreases n,
{
    if n == 0 {
        0
    } else {
        total_paid(ps, (n - 1) as nat) + ps[n - 1].amount as nat
    }
}

/// Whether no destination is named twice.
pub open spec fn dsts_distinct(ps: Payments) -> bool {
    forall|i: int, j: int| 0 <= i < j < ps.len() ==> (#[trigger] ps[i]).dst != (#[trigger] ps[j]).dst
}

/// Whether one of the first `n` payments goes to the member `m`.
pub open spec fn is_dst(ps: Payments, m: MemberId, n: nat) -> bool {
    exists|i: int| 0 <= i < n && (#[trigger] ps[i]).dst == m
}

/// The source that the next vesting transfer to the account goes under.
pub open spec fn next_source(a: AccountView) -> VestingSource {
    VestingSource::IssuerTransfer(a.next_vesting_transfer_id)
}

/// Why the payment `p` of the token `t` is refused, if it is: the
/// destination has to be a member; with an account, a vesting payment
/// needs room for one more schedule; without one, the token has to be
/// permissionless or the issuer has to pay.
pub open spec fn payment_error(s: LedgerView, t: TokenId, p: Payment, is_issuer: bool) -> Option<Error> {
    if !s.members.contains_key(p.dst) {
        Some(Error::TransferDestinationMemberDoesNotExist)
    } else if s.accounts.contains_key((t, p.dst)) {
        let a = s.accounts[(t, p.dst)];
        match p.vesting_schedule {
            Some(params) => if a.can_add_schedule(s.block, next_source(a)).is_err() {
                Some(Error::MaxVestingSchedulesPerAccountPerTokenReached)
            } else if !a.schedule_fits(
                next_source(a),
                VestingSchedule::spec_from_params(s.block, p.amount, params),
            ) {
                Some(Error::ArithmeticError)
            } else {
                None
            },
            None => None,
        }
    } else if !is_issuer && !s.tokens[t].transfer_policy.spec_is_permissionless() {
        Some(Error::AccountInformationDoesNotExist)
    } else {
        None
    }
}

/// The error of the first of the first `n` payments that is refused.
pub open spec fn first_payment_error(s: LedgerView, t: TokenId, ps: Payments, is_issuer: bool, n: nat) -> Option<
    Error,
>
    recommends
        n <= ps.len(),
    decreases n,
{
    if n == 0 {
        None
    } else {
        match first_payment_error(s, t, ps, is_issuer, (n - 1) as nat) {
            Some(e) => Some(e),
            None => payment_error(s, t, ps[n - 1], is_issuer),
        }
    }
}

/// How many of the first `n` payments go to members without an account.
pub open spec fn new_count(accounts: Accounts, t: TokenId, ps: Payments, n: nat) -> nat
    recommends
        n <= ps.len(),
    decreases n,
{
    if n == 0 {
        0
    } else {
        new_count(accounts, t, ps, (n - 1) as nat) + (if accounts.contains_key((t, ps[n - 1].dst)) {
            0nat
        } else {
            1nat
        })
    }
}

/// The payment `p` as validation found it.
pub open spec fn validated(s: LedgerView, t: TokenId, p: Payment) -> ValidatedPayment {
    if s.accounts.contains_key((t, p.dst)) {
        let a = s.accounts[(t, p.dst)];
        ValidatedPayment {
            destination: Validated::Existing(p.dst),
            amount: p.amount,
            vesting_schedule: p.vesting_schedule,
            vesting_cleanup_candidate: match p.vesting_schedule {
                Some(_) => a.can_add_schedule(s.block, next_source(a)).unwrap(),
                None => None,
            },
        }
    } else {
        ValidatedPayment {
            destination: Validated::NonExisting(p.dst),
            amount: p.amount,
            vesting_schedule: p.vesting_schedule,
            vesting_cleanup_candidate: None,
        }
    }
}

/// The payments as validation found them.
pub open spec fn validated_payments(s: LedgerView, t: TokenId, ps: Payments) -> Seq<ValidatedPayment> {
    Seq::new(ps.len(), |i: int| validated(s, t, ps[i]))
}

/// The id after `id`, or `id` itself if there is none.
pub open spec fn sat_next(id: u64) -> u64 {
    if id == u64::MAX {
        id
    } else {
        (id + 1) as u64
    }
}

/// The account `a` after it received the payment `p` at block `now`.
pub open spec fn credit_existing(a: AccountView, p: Payment, now: BlockNumber) -> AccountView {
    match p.vesting_schedule {
        Some(params) => a.with_schedule(
            next_source(a),
            VestingSchedule::spec_from_params(now, p.amount, params),
            a.can_add_schedule(now, next_source(a)).unwrap(),
        ).with_next_transfer_id(sat_next(a.next_vesting_transfer_id)),
        None => a.increased(p.amount),
    }
}

/// The account that the payment `p` creates at block `now`, paid for by
/// `bond`.
pub open spec fn credit_new(p: Payment, now: BlockNumber, bond: RepayableBloatBond) -> AccountView {
    match p.vesting_schedule {
        Some(params) => AccountView::fresh_vesting(
            VestingSource::IssuerTransfer(0),
            VestingSchedule::spec_from_params(now, p.amount, params),
            bond,
        ).with_next_transfer_id(1),
        None => AccountView::fresh(p.amount, bond),
    }
}

/// The accounts after the first `n` payments of the token `t` arrived,
/// with the bonds of the new accounts paid by `payer`, `locked` of them
/// out of locked funds.
pub open spec fn credited(
    accounts: Accounts,
    t: TokenId,
    ps: Payments,
    payer: AccountId,
    bond: JoyBalance,
    locked: JoyBalance,
    now: BlockNumber,
    n: nat,
) -> Accounts
    recommends
        n <= ps.len(),
    decreases n,
{
    if n == 0 {
        accounts
    } else {
        let before = credited(accounts, t, ps, payer, bond, locked, now, (n - 1) as nat);
        let p = ps[n - 1];
        before.insert(
            (t, p.dst),
            if before.contains_key((t, p.dst)) {
                credit_existing(before[(t, p.dst)], p, now)
            } else {
                credit_new(
                    p,
                    now,
                    bond_at(payer, bond, locked, new_count(accounts, t, ps, (n - 1) as nat)),
                )
            },
        )
    }
}

/// Whether a transfer of `total` tokens out of the account of `src`
/// removes the account: what is left is below the existential deposit,
/// the member receives nothing in the transfer and has nothing in
/// escrow.
pub open spec fn removes_source(s: LedgerView, t: TokenId, src: MemberId, ps: Payments, total: Balance) -> bool {
    &&& s.accounts[(t, src)].decrease_op(s.tokens[t].existential_deposit, total) is Remove
    &&& !is_dst(ps, src, ps.len())
    &&& !has_escrow(s.tokens[t], src)
}

/// Why the payments `ps` of the token `t` out of the account of `src`
/// are refused, if they are.
pub open spec fn transfer_error(
    s: LedgerView,
    t: TokenId,
    src: MemberId,
    ps: Payments,
    payer: AccountId,
    is_issuer: bool,
) -> Option<Error> {
    if !s.tokens.contains_key(t) {
        Some(Error::TokenDoesNotExist)
    } else if !s.accounts.contains_key((t, src)) {
        Some(Error::AccountInformationDoesNotExist)
    } else if total_paid(ps, ps.len()) > u128::MAX {
        Some(Error::ArithmeticError)
    } else if s.accounts[(t, src)].transferrable(s.block) < total_paid(ps, ps.len()) {
        Some(Error::InsufficientTransferrableBalance)
    } else if !dsts_distinct(ps) {
        Some(Error::TransferDestinationRepeated)
    } else {
        match first_payment_error(s, t, ps, is_issuer, ps.len()) {
            Some(e) => Some(e),
            None => if new_count(s.accounts, t, ps, ps.len()) * s.parameters.bloat_bond > u128::MAX {
                Some(Error::ArithmeticError)
            } else if !s.joy.can_pay_bond(
                JoyAccountId::Plain(payer),
                (new_count(s.accounts, t, ps, ps.len()) * s.parameters.bloat_bond) as u128,
            ) {
                Some(Error::InsufficientJoyBalance)
            } else if s.tokens[t].accounts_number + new_count(s.accounts, t, ps, ps.len()) > u64::MAX {
                Some(Error::ArithmeticError)
            } else {
                None
            },
        }
    }
}

/// The ledger after the payments `ps` of the token `t` left the account
/// of `src`: the total left the source, each payment arrived, `payer`
/// paid the bonds of the accounts created, and a source left with less
/// than the existential deposit is removed, its dust taken out of the
/// supply and its bond given back.
pub open spec fn transferred(s: LedgerView, t: TokenId, src: MemberId, ps: Payments, payer: AccountId) -> LedgerView {
    let d = s.tokens[t];
    let total = total_paid(ps, ps.len()) as u128;
    let bond = s.parameters.bloat_bond;
    let created = new_count(s.accounts, t, ps, ps.len());
    let total_bond = (created * bond) as u128;
    let locked = s.joy.locked_used(JoyAccountId::Plain(payer), total_bond);
    let debited = s.accounts.insert((t, src), s.accounts[(t, src)].decreased(total));
    let arrived = credited(debited, t, ps, payer, bond, locked, s.block, ps.len());
    let bonded = s.joy.transferred(JoyAccountId::Plain(payer), JoyAccountId::Treasury(t), total_bond);
    if removes_source(s, t, src, ps, total) {
        let source_bond = s.accounts[(t, src)].bloat_bond;
        LedgerView {
            accounts: arrived.remove((t, src)),
            tokens: s.tokens.insert(
                t,
                TokenData {
                    total_supply: sat_sub(d.total_supply, sat_sub(s.accounts[(t, src)].amount, total)),
                    accounts_number: (d.accounts_number + created - 1) as u64,
                    ..d
                },
            ),
            joy: bonded.transferred(
                JoyAccountId::Treasury(t),
                JoyAccountId::Plain(bond_receiver(s, source_bond, src, payer)),
                source_bond.amount,
            ),
            ..s
        }
    } else {
        LedgerView {
            accounts: arrived,
            tokens: s.tokens.insert(t, TokenData { accounts_number: (d.accounts_number + created) as u64, ..d }),
            joy: bonded,
            ..s
        }
    }
}

/// The payments that the outputs of a plain transfer stand for.
pub open spec fn plain_payments(outputs: Seq<(MemberId, Balance)>) -> Payments {
    Seq::new(
        outputs.len(),
        |i: int| Payment { dst: outputs[i].0, amount: outputs[i].1, vesting_schedule: None },
    )
}

/// The payments that the outputs of an issuer transfer stand for.
pub open spec fn vesting_payments(outputs: Seq<(MemberId, Balance, Option<VestingScheduleParams>)>) -> Payments {
    Seq::new(
        outputs.len(),
        |i: int| Payment { dst: outputs[i].0, amount: outputs[i].1, vesting_schedule: outputs[i].2 },
    )
}

proof fn lemma_total_paid_grows(ps: Payments, i: nat, n: nat)
    requires
        i <= n <= ps.len(),
    ensures
        total_paid(ps, i) <= total_paid(ps, n),
    decreases n,
{
    if i < n {
        lemma_total_paid_grows(ps, i, (n - 1) as nat);
    }
}

proof fn lemma_first_error_stays(s: LedgerView, t: TokenId, ps: Payments, is_issuer: bool, i: nat, n: nat)
    requires
        i <= n <= ps.len(),
        first_payment_error(s, t, ps, is_issuer, i).is_some(),
    ensures
        first_payment_error(s, t, ps, is_issuer, n) == first_payment_error(s, t, ps, is_issuer, i),
    decreases n,
{
    if i < n {
        lemma_first_error_stays(s, t, ps, is_issuer, i, (n - 1) as nat);
    }
}

proof fn lemma_no_error_each(s: LedgerView, t: TokenId, ps: Payments, is_issuer: bool, n: nat, i: int)
    requires
        0 <= i < n <= ps.len(),
        first_payment_error(s, t, ps, is_issuer, n).is_none(),
    ensures
        payment_error(s, t, ps[i], is_issuer).is_none(),
    decreases n,
{
    if i < n - 1 {
        lemma_no_error_each(s, t, ps, is_issuer, (n - 1) as nat, i);
    }
}

proof fn lemma_new_count_bounds(accounts: Accounts, t: TokenId, ps: Payments, i: nat, n: nat)
    requires
        i <= n <= ps.len(),
    ensures
        new_count(accounts, t, ps, i) <= new_count(accounts, t, ps, n),
        new_count(accounts, t, ps, n) <= n,
    decreases n,
{
    if i < n {
        lemma_new_count_bounds(accounts, t, ps, i, (n - 1) as nat);
    } else if n > 0 {
        lemma_new_count_bounds(accounts, t, ps, (n - 1) as nat, (n - 1) as nat);
    }
}

/// Whether two sets of accounts have the same accounts for the token
/// `t`, with the same schedules.
pub open spec fn same_members(a: Accounts, b: Accounts, t: TokenId) -> bool {
    forall|m: MemberId| #[trigger] a.contains_key((t, m)) == b.contains_key((t, m))
}

proof fn lemma_new_count_same(a: Accounts, b: Accounts, t: TokenId, ps: Payments, n: nat)
    requires
        n <= ps.len(),
        same_members(a, b, t),
    ensures
        new_count(a, t, ps, n) == new_count(b, t, ps, n),
    decreases n,
{
    if n > 0 {
        lemma_new_count_same(a, b, t, ps, (n - 1) as nat);
        assert(a.contains_key((t, ps[n - 1].dst)) == b.contains_key((t, ps[n - 1].dst)));
    }
}

/// What the payments do to the accounts, when no destination is named
/// twice and what arrives fits: accounts of other tokens are untouched;
/// an account of the token exists afterwards exactly if it existed or
/// was paid to; an account that was not paid to is as it was; the token
/// holds what it held and what arrived; and it has one more account for
/// each payment to a member without one.
pub proof fn lemma_credited(
    accounts: Accounts,
    t: TokenId,
    ps: Payments,
    payer: AccountId,
    bond: JoyBalance,
    locked: JoyBalance,
    now: BlockNumber,
    n: nat,
)
    requires
        n <= ps.len(),
        dsts_distinct(ps),
        total_held(accounts, t) + total_paid(ps, ps.len()) <= u128::MAX,
    ensures
        ({
            let after = credited(accounts, t, ps, payer, bond, locked, now, n);
            &&& total_held(after, t) == total_held(accounts, t) + total_paid(ps, n)
            &&& accounts_count(after, t) == accounts_count(accounts, t) + new_count(accounts, t, ps, n)
            &&& forall|x: TokenId| x != t ==> #[trigger] total_held(after, x) == total_held(accounts, x)
            &&& forall|x: TokenId| x != t ==> #[trigger] accounts_count(after, x) == accounts_count(accounts, x)
            &&& forall|x: TokenId, m: MemberId|
                x != t ==> (#[trigger] after.contains_key((x, m)) == accounts.contains_key((x, m)))
            &&& forall|x: TokenId, m: MemberId|
                x != t && accounts.contains_key((x, m)) ==> #[trigger] after[(x, m)] == accounts[(x, m)]
            &&& forall|m: MemberId| #[trigger]
                after.contains_key((t, m)) <==> (accounts.contains_key((t, m)) || is_dst(ps, m, n))
            &&& forall|m: MemberId|
                !is_dst(ps, m, n) && accounts.contains_key((t, m)) ==> #[trigger] after[(t, m)] == accounts[(
                    t,
                    m,
                )]
        }),
    decreases n,
{
    if n > 0 {
        let before = credited(accounts, t, ps, payer, bond, locked, now, (n - 1) as nat);
        lemma_credited(accounts, t, ps, payer, bond, locked, now, (n - 1) as nat);
        let p = ps[n - 1];
        let m0 = p.dst;
        let after = credited(accounts, t, ps, payer, bond, locked, now, n);
        let a = after[(t, m0)];
        assert(after == before.insert((t, m0), a));
        lemma_account_set(before, t, m0, a);
        lemma_total_paid_grows(ps, n, ps.len());
        assert(!is_dst(ps, m0, (n - 1) as nat)) by {
            if is_dst(ps, m0, (n - 1) as nat) {
                let i = choose|i: int| 0 <= i < n - 1 && (#[trigger] ps[i]).dst == m0;
                assert(ps[i].dst != ps[n - 1].dst);
            }
        }
        assert(before.contains_key((t, m0)) == accounts.contains_key((t, m0)));
        lemma_held_bounded(before, t, m0);
        match p.vesting_schedule {
            Some(params) => {
                lemma_from_params_total(now, p.amount, params);
            },
            None => {},
        }
        assert(a.amount == held(before, t, m0) + p.amount);
        assert forall|m: MemberId| #[trigger] after.contains_key((t, m)) <==> (accounts.contains_key((t, m))
            || is_dst(ps, m, n)) by {
            if is_dst(ps, m, (n - 1) as nat) {
                let i = choose|i: int| 0 <= i < n - 1 && (#[trigger] ps[i]).dst == m;
                assert(0 <= i < n && ps[i].dst == m);
            }
            if m == m0 {
                assert(ps[n - 1].dst == m);
            }
            if is_dst(ps, m, n) && m != m0 {
                let i = choose|i: int| 0 <= i < n && (#[trigger] ps[i]).dst == m;
                assert(0 <= i < n - 1 && ps[i].dst == m);
            }
        }
        assert forall|m: MemberId| !is_dst(ps, m, n) && accounts.contains_key((t, m)) implies #[trigger] after[(
            t,
            m,
        )] == accounts[(t, m)] by {
            assert(m != m0) by {
                if m == m0 {
                    assert(ps[n - 1].dst == m);
                }
            }
            assert(!is_dst(ps, m, (n - 1) as nat)) by {
                if is_dst(ps, m, (n - 1) as nat) {
                    let i = choose|i: int| 0 <= i < n - 1 && (#[trigger] ps[i]).dst == m;
                    assert(0 <= i < n && ps[i].dst == m);
                }
            }
        }
    }
}

/// What validation found of a transfer: what carrying it out takes.
#[derive(Clone, Debug, PartialEq, Eq)]
pub struct ValidatedTransfers {
    /// The outputs, each with what validation found of its destination.
    pub outputs: Vec<ValidatedPayment>,
    /// The sum of the outputs.
    pub total: Balance,
    /// The number of accounts that the transfer creates.
    pub created: usize,
    /// The bonds of the accounts that the transfer creates, together.
    pub total_bond: JoyBalance,
}

impl ValidatedTransfers {
    /// Whether this is what validating the payments `ps` of the token `t`
    /// finds in the ledger `s`.
    pub open spec fn fits(self, s: LedgerView, t: TokenId, ps: Payments) -> bool {
        &&& self.outputs@ == validated_payments(s, t, ps)
        &&& self.total == total_paid(ps, ps.len())
        &&& self.created == new_count(s.accounts, t, ps, ps.len())
        &&& self.total_bond == new_count(s.accounts, t, ps, ps.len()) * s.parameters.bloat_bond
    }
}

/// Why a transfer signed by `sender` is refused, if it is.
pub open spec fn signed_transfer_error(s: LedgerView, sender: AccountId, t: TokenId, src: MemberId, ps: Payments) -> Option<
    Error,
> {
    if !s.authorized(sender, src) {
        Some(Error::OriginNotMemberController)
    } else {
        transfer_error(s, t, src, ps, sender, false)
    }
}

/// What `transfer` leaves behind, the ledger `after` and the result `r`,
/// given the ledger `before` that it was called on.
pub open spec fn transfer_outcome(
    before: LedgerView,
    after: LedgerView,
    sender: AccountId,
    src_member_id: MemberId,
    token_id: TokenId,
    outputs: Vec<(MemberId, Balance)>,
    metadata: Vec<u8>,
    r: Result<(), Error>,
) -> bool {
    &&& (total_paid(plain_payments(outputs@), outputs@.len()) == 0 ==> r == Ok::<(), Error>(())
        && after == before)
    &&& (total_paid(plain_payments(outputs@), outputs@.len()) != 0 ==> match signed_transfer_error(
        before,
        sender,
        token_id,
        src_member_id,
        plain_payments(outputs@),
    ) {
        Some(e) => r == Err::<(), Error>(e) && after == before,
        None => r == Ok::<(), Error>(()) && transferred(
            before,
            token_id,
            src_member_id,
            plain_payments(outputs@),
            sender,
        ).plus_event(after) && (match after.events.last() {
            Event::TokenAmountTransferred(t, m, outs, meta) => t == token_id && m == src_member_id
                && outs@ == validated_payments(before, token_id, plain_payments(outputs@))
                && meta@ == metadata@,
            _ => false,
        }),
    })
}

/// What `issuer_transfer` leaves behind, the ledger `after` and the result `r`,
/// given the ledger `before` that it was called on.
pub open spec fn issuer_transfer_outcome(
    before: LedgerView,
    after: LedgerView,
    token_id: TokenId,
    src_member_id: MemberId,
    bloat_bond_payer: AccountId,
    outputs: Vec<(MemberId, Balance, Option<VestingScheduleParams>)>,
    metadata: Vec<u8>,
    r: Result<(), Error>,
) -> bool {
    &&& (total_paid(vesting_payments(outputs@), outputs@.len()) == 0 ==> r == Ok::<(), Error>(())
        && after == before)
    &&& (total_paid(vesting_payments(outputs@), outputs@.len()) != 0 ==> match transfer_error(
        before,
        token_id,
        src_member_id,
        vesting_payments(outputs@),
        bloat_bond_payer,
        true,
    ) {
        Some(e) => r == Err::<(), Error>(e) && after == before,
        None => r == Ok::<(), Error>(()) && transferred(
            before,
            token_id,
            src_member_id,
            vesting_payments(outputs@),
            bloat_bond_payer,
        ).plus_event(after) && (match after.events.last() {
            Event::TokenAmountTransferredByIssuer(t, m, outs, meta) => t == token_id && m
                == src_member_id && outs@ == validated_payments(
                before,
                token_id,
                vesting_payments(outputs@),
            ) && meta@ == metadata@,
            _ => false,
        }),
    })
}

impl TokenLedger {
    fn sum_payments(ps: &Vec<Payment>) -> (r: Option<Balance>)
        ensures
            r == (if total_paid(ps@, ps@.len()) <= u128::MAX {
                Some(total_paid(ps@, ps@.len()) as u128)
            } else {
                None
            }),
    {
        let mut sum: Balance = 0;
        let mut i: usize = 0;
        while i < ps.len()
            invariant
                i <= ps.len(),
                sum == total_paid(ps@, i as nat),
            decreases ps.len() - i,
        {
            sum =
            match checked_add(sum, ps[i].amount) {
                Some(v) => v,
                None => {
                    proof {
                        lemma_total_paid_grows(ps@, (i + 1) as nat, ps@.len());
                    }
                    return None;
                },
            };
            i += 1;
        }
        Some(sum)
    }

    fn check_dsts_distinct(ps: &Vec<Payment>) -> (r: bool)
        ensures
            r == dsts_distinct(ps@),
    {
        let mut j: usize = 0;
        while j < ps.len()
            invariant
                j <= ps.len(),
                forall|a: int, b: int| 0 <= a < b < j ==> (#[trigger] ps@[a]).dst != (#[trigger] ps@[b]).dst,
            decreases ps.len() - j,
        {
            let mut i: usize = 0;
            while i < j
                invariant
                    i <= j < ps.len(),
                    forall|a: int| 0 <= a < i ==> (#[trigger] ps@[a]).dst != ps@[j as int].dst,
                decreases j - i,
            {
                if ps[i].dst == ps[j].dst {
                    return false;
                }
                i += 1;
            }
            j += 1;
        }
        true
    }

    fn pays_to(ps: &Vec<Payment>, m: MemberId) -> (r: bool)
        ensures
            r == is_dst(ps@, m, ps@.len()),
    {
        let mut i: usize = 0;
        while i < ps.len()
            invariant
                i <= ps.len(),
                forall|a: int| 0 <= a < i ==> (#[trigger] ps@[a]).dst != m,
            decreases ps.len() - i,
        {
            if ps[i].dst == m {
                return true;
            }
            i += 1;
        }
        false
    }

    fn validate_payment(&self, t: TokenId, d: &TokenData, p: &Payment, is_issuer: bool) -> (r: Result<
        ValidatedPayment,
        Error,
    >)
        requires
            self.stored_wf(),
            self@.tokens.contains_key(t),
            *d == self@.tokens[t],
        ensures
            match payment_error(self@, t, *p, is_issuer) {
                Some(e) => r == Err::<ValidatedPayment, Error>(e),
                None => r == Ok::<ValidatedPayment, Error>(validated(self@, t, *p)),
            },
    {
        if !self.members.is_member(p.dst) {
            return Err(Error::TransferDestinationMemberDoesNotExist);
        }
        let now = self.block_number;
        match self.get_account(t, p.dst) {
            Ok(a) => {
                let cleanup = match p.vesting_schedule {
                    Some(params) => {
                        let source = VestingSource::IssuerTransfer(a.next_vesting_transfer_id);
                        let c = match a.ensure_can_add_or_update_vesting_schedule(now, source) {
                            Ok(c) => c,
                            Err(e) => {
                                return Err(e);
                            },
                        };
                        let schedule = VestingSchedule::from_params(now, p.amount, params);
                        match a.vesting_schedules.schedule_of(&source) {
                            Some(own) => {
                                proof {
                                    a.vesting_schedules.lemma_wf();
                                    assert(own.wf());
                                }
                                if checked_add(own.total_amount(), p.amount).is_none() {
                                    return Err(Error::ArithmeticError);
                                }
                            },
                            None => {},
                        }
                        c
                    },
                    None => None,
                };
                Ok(
                    ValidatedPayment {
                        destination: Validated::Existing(p.dst),
                        amount: p.amount,
                        vesting_schedule: p.vesting_schedule,
                        vesting_cleanup_candidate: cleanup,
                    },
                )
            },
            Err(_) => {
                if !is_issuer && !d.transfer_policy.is_permissionless() {
                    return Err(Error::AccountInformationDoesNotExist);
                }
                Ok(
                    ValidatedPayment {
                        destination: Validated::NonExisting(p.dst),
                        amount: p.amount,
                        vesting_schedule: p.vesting_schedule,
                        vesting_cleanup_candidate: None,
                    },
                )
            },
        }
    }

    fn validate_payments(&self, t: TokenId, d: &TokenData, ps: &Vec<Payment>, is_issuer: bool) -> (r: Result<
        (Vec<ValidatedPayment>, usize),
        Error,
    >)
        requires
            self.stored_wf(),
            self@.tokens.contains_key(t),
            *d == self@.tokens[t],
        ensures
            match first_payment_error(self@, t, ps@, is_issuer, ps@.len()) {
                Some(e) => r == Err::<(Vec<ValidatedPayment>, usize), Error>(e),
                None => r.is_ok() && r.unwrap().0@ == validated_payments(self@, t, ps@) && r.unwrap().1
                    == new_count(self@.accounts, t, ps@, ps@.len()),
            },
    {
        let mut out: Vec<ValidatedPayment> = Vec::new();
        let mut created: usize = 0;
        let mut i: usize = 0;
        while i < ps.len()
            invariant
                i <= ps.len(),
                self.stored_wf(),
                self@.tokens.contains_key(t),
                *d == self@.tokens[t],
                first_payment_error(self@, t, ps@, is_issuer, i as nat).is_none(),
                out@.len() == i,
                forall|j: int| 0 <= j < i ==> #[trigger] out@[j] == validated(self@, t, ps@[j]),
                created == new_count(self@.accounts, t, ps@, i as nat),
                created <= i,
            decreases ps.len() - i,
        {
            let v = match self.validate_payment(t, d, &ps[i], is_issuer) {
                Ok(v) => v,
                Err(e) => {
                    proof {
                        lemma_first_error_stays(self@, t, ps@, is_issuer, (i + 1) as nat, ps@.len());
                    }
                    return Err(e);
                },
            };
            match v.destination {
                Validated::NonExisting(_) => {
                    created += 1;
                },
                Validated::Existing(_) => {},
            }
            out.push(v);
            i += 1;
        }
        proof {
            assert(out@ =~= validated_payments(self@, t, ps@));
        }
        Ok((out, created))
    }

    /// Validates the payments of the token `t` out of the account of
    /// `src`, with `payer` paying the bonds of the accounts to create.
    /// Changes nothing; on success, says what carrying them out takes.
    pub fn ensure_can_transfer(
        &self,
        t: TokenId,
        src: MemberId,
        payer: AccountId,
        ps: &Vec<Payment>,
        is_issuer: bool,
    ) -> (r: Result<ValidatedTransfers, Error>)
        requires
            self.wf(),
        ensures
            match transfer_error(self@, t, src, ps@, payer, is_issuer) {
                Some(e) => r == Err::<ValidatedTransfers, Error>(e),
                None => r.is_ok() && r.unwrap().fits(self@, t, ps@),
            },
    {
        let d = match self.get_token(t) {
            Ok(d) => d,
            Err(e) => {
                return Err(e);
            },
        };
        let source_account = match self.get_account(t, src) {
            Ok(a) => a,
            Err(e) => {
                return Err(e);
            },
        };
        let total = match Self::sum_payments(ps) {
            Some(v) => v,
            None => {
                return Err(Error::ArithmeticError);
            },
        };
        match source_account.ensure_can_transfer(self.block_number, total) {
            Err(e) => {
                return Err(e);
            },
            Ok(_) => {},
        }
        if !Self::check_dsts_distinct(ps) {
            return Err(Error::TransferDestinationRepeated);
        }
        let (outputs, created) = match self.validate_payments(t, &d, ps, is_issuer) {
            Ok(v) => v,
            Err(e) => {
                return Err(e);
            },
        };
        let total_bond = match checked_mul(created as u128, self.parameters.bloat_bond) {
            Some(v) => v,
            None => {
                return Err(Error::ArithmeticError);
            },
        };
        if !self.joy.can_pay_bond(JoyAccountId::Plain(payer), total_bond) {
            return Err(Error::InsufficientJoyBalance);
        }
        if created as u64 > u64::MAX - d.accounts_number {
            return Err(Error::ArithmeticError);
        }
        Ok(ValidatedTransfers { outputs, total, created, total_bond })
    }

    /// Carries out payments that were validated. Cannot fail.
    pub(crate) fn do_transfer(
        &mut self,
        t: TokenId,
        src: MemberId,
        payer: AccountId,
        ps: &Vec<Payment>,
        validated: &ValidatedTransfers,
        is_issuer: bool,
    )
        requires
            old(self).wf(),
            transfer_error(old(self)@, t, src, ps@, payer, is_issuer).is_none(),
            validated.fits(old(self)@, t, ps@),
        ensures
            final(self).wf(),
            final(self)@ == transferred(old(self)@, t, src, ps@, payer),
    {
        let d = match self.get_token(t) {
            Ok(d) => d,
            Err(_) => {
                return;
            },
        };
        let source_account = match self.get_account(t, src) {
            Ok(a) => a,
            Err(_) => {
                return;
            },
        };
        let total = validated.total;
        let total_bond = validated.total_bond;
        let bond = self.parameters.bloat_bond;
        let now = self.block_number;
        let payer_id = JoyAccountId::Plain(payer);
        let locked = self.joy.locked_used(payer_id, total_bond);
        let ghost before = self@;
        let mut debited = source_account;
        debited.decrease_amount_by(total);
        self.put_account(t, src, debited);
        let ghost base = self@.accounts;
        proof {
            assert(before.token_inv(t));
            lemma_held_bounded(before.accounts, t, src);
            lemma_account_set(before.accounts, t, src, debited@);
            assert(same_members(base, before.accounts, t)) by {
                assert forall|m: MemberId| #[trigger] base.contains_key((t, m)) == before.accounts.contains_key(
                    (t, m),
                ) by {}
            }
            lemma_new_count_same(base, before.accounts, t, ps@, ps@.len());
        }
        let mut made: usize = 0;
        let mut i: usize = 0;
        while i < ps.len()
            invariant
                i <= ps.len(),
                self.stored_wf(),
                before.inv(),
                before.tokens.contains_key(t),
                before.accounts.contains_key((t, src)),
                before.block == now,
                base == before.accounts.insert((t, src), before.accounts[(t, src)].decreased(total)),
                dsts_distinct(ps@),
                first_payment_error(before, t, ps@, is_issuer, ps@.len()).is_none(),
                total_held(base, t) + total_paid(ps@, ps@.len()) <= u128::MAX,
                self@ == (LedgerView {
                    accounts: credited(base, t, ps@, payer, bond, locked, now, i as nat),
                    ..before
                }),
                made == new_count(base, t, ps@, i as nat),
                made <= i,
            decreases ps.len() - i,
        {
            let p = ps[i];
            proof {
                lemma_credited(base, t, ps@, payer, bond, locked, now, i as nat);
                lemma_no_error_each(before, t, ps@, is_issuer, ps@.len(), i as int);
                assert(!is_dst(ps@, p.dst, i as nat)) by {
                    if is_dst(ps@, p.dst, i as nat) {
                        let j = choose|j: int| 0 <= j < i && (#[trigger] ps@[j]).dst == p.dst;
                        assert(ps@[j].dst != ps@[i as int].dst);
                    }
                }
            }
            match self.get_account(t, p.dst) {
                Ok(a) => {
                    let mut a = a;
                    proof {
                        assert(base.contains_key((t, p.dst)));
                        assert(a@ == base[(t, p.dst)]);
                        assert(before.accounts.contains_key((t, p.dst)));
                        assert(a@.vesting == before.accounts[(t, p.dst)].vesting);
                        assert(a@.next_vesting_transfer_id == before.accounts[(
                            t,
                            p.dst,
                        )].next_vesting_transfer_id);
                    }
                    match p.vesting_schedule {
                        Some(params) => {
                            let source = VestingSource::IssuerTransfer(a.next_vesting_transfer_id);
                            let schedule = VestingSchedule::from_params(now, p.amount, params);
                            let cleanup = match a.ensure_can_add_or_update_vesting_schedule(now, source) {
                                Ok(c) => c,
                                Err(_) => None,
                            };
                            proof {
                                a.vesting_schedules.lemma_wf();
                                let es = a@.vesting;
                                if !has_source(es, source) && es.len() >= crate::vesting::MAX_VESTING_SCHEDULES {
                                    let k = first_finished_upto(es, now, es.len());
                                    assert(es[k as int].source == cleanup.unwrap());
                                }
                            }
                            a.add_or_update_vesting_schedule(source, schedule, cleanup);
                            a.next_vesting_transfer_id =
                            if a.next_vesting_transfer_id == u64::MAX {
                                a.next_vesting_transfer_id
                            } else {
                                a.next_vesting_transfer_id + 1
                            };
                        },
                        None => {
                            a.increase_amount_by(p.amount);
                        },
                    }
                    self.put_account(t, p.dst, a);
                },
                Err(_) => {
                    let new_bond = bond_for(payer, bond, locked, made);
                    let a = match p.vesting_schedule {
                        Some(params) => {
                            let mut a = AccountData::new_with_vesting_and_bond(
                                VestingSource::IssuerTransfer(0),
                                VestingSchedule::from_params(now, p.amount, params),
                                new_bond,
                            );
                            a.next_vesting_transfer_id = 1;
                            a
                        },
                        None => AccountData::new_with_amount_and_bond(p.amount, new_bond),
                    };
                    self.put_account(t, p.dst, a);
                    made += 1;
                },
            }
            i += 1;
        }
        let removes = match source_account.decrease_with_existential_deposit(d.existential_deposit, total) {
            DecreaseOp::Remove(_, _) => true,
            DecreaseOp::Reduce(_) => false,
        };
        let escrowed = match d.sale {
            Some(sale) => sale.quantity_left > 0 && sale.tokens_source == src,
            None => false,
        };
        let pays_back = Self::pays_to(ps, src);
        proof {
            lemma_credited(base, t, ps@, payer, bond, locked, now, ps@.len());
            lemma_new_count_bounds(base, t, ps@, ps@.len(), ps@.len());
        }
        let _bonded = self.joy.transfer(payer_id, JoyAccountId::Treasury(t), total_bond);
        if removes && !pays_back && !escrowed {
            let dust = saturating_sub(source_account.amount, total);
            let receiver = match source_account.bloat_bond.repayment_restricted_to {
                Some(a) => a,
                None => match self.members.controller_account_id(src) {
                    Some(c) => c,
                    None => payer,
                },
            };
            proof {
                lemma_account_removed(self@.accounts, t, src);
                crate::supply::lemma_present_counted(self@.accounts, t, src);
            }
            self.drop_account(t, src);
            self.put_token(
                t,
                TokenData {
                    total_supply: saturating_sub(d.total_supply, dust),
                    accounts_number: d.accounts_number + (made as u64) - 1,
                    ..d
                },
            );
            let _refunded = self.joy.transfer(
                JoyAccountId::Treasury(t),
                JoyAccountId::Plain(receiver),
                source_account.bloat_bond.amount,
            );
        } else {
            self.put_token(t, TokenData { accounts_number: d.accounts_number + (made as u64), ..d });
        }
        proof {
            let after = self@;
            self.lemma_stored_views_wf();
            assert(after == transferred(before, t, src, ps@, payer));
            assert(after.token_inv(t));
            before.lemma_inv_one_token(after, t);
        }
    }

    /// Moves tokens of `token_id` from the member `src_member_id`, whom
    /// `sender` controls, to the members named in `outputs`, creating
    /// their accounts where the token's policy allows it; `sender` pays
    /// the bonds. A transfer of nothing changes nothing.
    pub fn transfer(
        &mut self,
        sender: AccountId,
        src_member_id: MemberId,
        token_id: TokenId,
        outputs: Vec<(MemberId, Balance)>,
        metadata: Vec<u8>,
    ) -> (r: Result<(), Error>)
        requires
            old(self).wf(),
        ensures
            final(self).wf(),
            transfer_outcome(old(self)@, final(self)@, sender, src_member_id, token_id, outputs, metadata, r),
    {
        let mut payments: Vec<Payment> = Vec::new();
        let mut i: usize = 0;
        while i < outputs.len()
            invariant
                i <= outputs.len(),
                payments@.len() == i,
                forall|j: int|
                    0 <= j < i ==> #[trigger] payments@[j] == (Payment {
                        dst: outputs@[j].0,
                        amount: outputs@[j].1,
                        vesting_schedule: None,
                    }),
            decreases outputs.len() - i,
        {
            payments.push(Payment { dst: outputs[i].0, amount: outputs[i].1, vesting_schedule: None });
            i += 1;
        }
        proof {
            assert(payments@ =~= plain_payments(outputs@));
        }
        match Self::sum_payments(&payments) {
            Some(total) => {
                if total == 0 {
                    return Ok(());
                }
            },
            None => {},
        }
        match self.ensure_authorized(sender, src_member_id) {
            Err(e) => {
                return Err(e);
            },
            Ok(_) => {},
        }
        let validated = match self.ensure_can_transfer(token_id, src_member_id, sender, &payments, false) {
            Ok(v) => v,
            Err(e) => {
                return Err(e);
            },
        };
        self.do_transfer(token_id, src_member_id, sender, &payments, &validated, false);
        let ghost mid = self@;
        self.push_event(
            Event::TokenAmountTransferred(token_id, src_member_id, validated.outputs, metadata),
        );
        proof {
            mid.lemma_inv_frame(self@);
        }
        Ok(())
    }

    /// Moves tokens of `token_id` from the issuer member
    /// `src_member_id` to the members named in `outputs`, under vesting
    /// where an output asks for it, creating their accounts whatever the
    /// token's policy; `bloat_bond_payer` pays the bonds. A transfer of
    /// nothing changes nothing.
    pub fn issuer_transfer(
        &mut self,
        token_id: TokenId,
        src_member_id: MemberId,
        bloat_bond_payer: AccountId,
        outputs: Vec<(MemberId, Balance, Option<VestingScheduleParams>)>,
        metadata: Vec<u8>,
    ) -> (r: Result<(), Error>)
        requires
            old(self).wf(),
        ensures
            final(self).wf(),
            issuer_transfer_outcome(old(self)@, final(self)@, token_id, src_member_id, bloat_bond_payer, outputs, metadata, r),
    {
        let mut payments: Vec<Payment> = Vec::new();
        let mut i: usize = 0;
        while i < outputs.len()
            invariant
                i <= outputs.len(),
                payments@.len() == i,
                forall|j: int|
                    0 <= j < i ==> #[trigger] payments@[j] == (Payment {
                        dst: outputs@[j].0,
                        amount: outputs@[j].1,
                        vesting_schedule: outputs@[j].2,
                    }),
            decreases outputs.len() - i,
        {
            payments.push(
                Payment { dst: outputs[i].0, amount: outputs[i].1, vesting_schedule: outputs[i].2 },
            );
            i += 1;
        }
        proof {
            assert(payments@ =~= vesting_payments(outputs@));
        }
        match Self::sum_payments(&payments) {
            Some(total) => {
                if total == 0 {
                    return Ok(());
                }
            },
            None => {},
        }
        let validated = match self.ensure_can_transfer(
            token_id,
            src_member_id,
            bloat_bond_payer,
            &payments,
            true,
        ) {
            Ok(v) => v,
            Err(e) => {
                return Err(e);
            },
        };
        self.do_transfer(token_id, src_member_id, bloat_bond_payer, &payments, &validated, true);
        let ghost mid = self@;
        self.push_event(
            Event::TokenAmountTransferredByIssuer(token_id, src_member_id, validated.outputs, metadata),
        );
        proof {
            mid.lemma_inv_frame(self@);
        }
        Ok(())
    }
}

} // verus!
