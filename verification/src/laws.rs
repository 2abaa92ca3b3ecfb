//! What holds of the ledger across its operations.
use crate::account::{AccountId, AccountView, JoyBalance, MemberId, TokenId};
use crate::amm::lemma_buy_then_sell;
use crate::errors::Error;
use crate::joy::JoyAccountId;
use crate::dispatch::{dispatched, Call};
use crate::ledger::amm_ops::{bought, buy_price, sell_price, sold};
use crate::ledger::split_ops::{finalize_leftovers, participated, participation_dividend};
use crate::ledger::transfer::{removes_source, total_paid, transfer_error, transferred, Payments};
use crate::ledger::LedgerView;
use crate::schedules::{locked_upto, VestingEntry};
use crate::split::{lemma_dividend_bounded, spec_dividend, RevenueSplitInfo, RevenueSplitState};
use crate::supply::lemma_held_bounded;
use crate::token::TransferPolicy;
use crate::vesting::{lemma_transferrable_monotonic, Balance, BlockNumber};
use vstd::prelude::*;

verus! {

/// What schedules lock together never grows as blocks pass.
pub proof fn lemma_locked_monotonic(es: Seq<VestingEntry>, b1: BlockNumber, b2: BlockNumber, n: nat)
    requires
        b1 <= b2,
        n <= es.len(),
    ensures
        locked_upto(es, b2, n) <= locked_upto(es, b1, n),
    decreases n,
{
    if n > 0 {
        lemma_locked_monotonic(es, b1, b2, (n - 1) as nat);
        lemma_transferrable_monotonic(es[n - 1].schedule, b1, b2);
    }
}

/// What an account can transfer never shrinks as blocks pass, and never
/// exceeds what the account holds.
pub proof fn lemma_account_transferrable_monotonic(a: AccountView, b1: BlockNumber, b2: BlockNumber)
    requires
        b1 <= b2,
    ensures
        a.transferrable(b1) <= a.transferrable(b2),
        0 <= a.transferrable(b2) <= a.amount,
{
    lemma_locked_monotonic(a.vesting, b1, b2, a.vesting.len());
}

/// A purchase of `amount` tokens on the curve followed by the sale of
/// the same amount leaves the supply that the curve provided as it was,
/// and pays back the cost of the purchase up to rounding: never less,
/// and at most two units more.
pub proof fn lemma_amm_round_trip(
    s: LedgerView,
    sender: AccountId,
    t: TokenId,
    m: MemberId,
    amount: Balance,
    cost: JoyBalance,
    payout: JoyBalance,
)
    requires
        amount != 0,
        s.tokens.contains_key(t),
        s.tokens[t].amm_curve.is_some(),
        s.tokens[t].amm_curve.unwrap().wf(),
        buy_price(s, sender, t, m, amount, None) == Ok::<JoyBalance, Error>(cost),
        sell_price(bought(s, sender, t, m, amount, cost), sender, t, m, amount, None) == Ok::<
            JoyBalance,
            Error,
        >(payout),
    ensures
        sold(bought(s, sender, t, m, amount, cost), sender, t, m, amount, payout).tokens[t].amm_curve.unwrap().provided_supply
            == s.tokens[t].amm_curve.unwrap().provided_supply,
        cost <= payout <= cost + 2,
{
    let curve = s.tokens[t].amm_curve.unwrap();
    let s1 = bought(s, sender, t, m, amount, cost);
    assert(s1.tokens[t].amm_curve.unwrap() == curve.with_supply((curve.provided_supply + amount) as u128));
    assert(s1.block == s.block);
    lemma_buy_then_sell(curve, amount, cost, payout);
}

/// A stake in a split that has paid nothing yet is paid the staker's
/// share of the allocation, rounded down, at once; and once the split's
/// window has passed, closing the split gives back the allocation less
/// what was paid.
pub proof fn lemma_split_pays_and_returns(
    s: LedgerView,
    sender: AccountId,
    t: TokenId,
    m: MemberId,
    amount: Balance,
    info: RevenueSplitInfo,
    dividend: JoyBalance,
    later: LedgerView,
)
    requires
        s.inv(),
        s.tokens.contains_key(t),
        s.tokens[t].revenue_split == RevenueSplitState::Active(info),
        info.dividends_claimed == 0,
        participation_dividend(s, sender, t, m, amount) == Ok::<JoyBalance, Error>(dividend),
        later.tokens.contains_key(t),
        later.tokens[t] == participated(s, sender, t, m, amount, dividend).tokens[t],
        info.timeline.spec_is_ended(later.block),
        later.joy.account(JoyAccountId::Treasury(t)).free >= info.allocation,
    ensures
        dividend == spec_dividend(amount, s.tokens[t].total_supply, info.allocation),
        dividend <= info.allocation,
        finalize_leftovers(later, t) == Ok::<JoyBalance, Error>((info.allocation - dividend) as u128),
{
    assert(s.token_inv(t));
    lemma_held_bounded(s.accounts, t, m);
    assert(s.accounts[(t, m)].unstaked().transferrable(s.block) <= s.accounts[(t, m)].amount);
    lemma_dividend_bounded(amount, s.tokens[t].total_supply, info.allocation);
}

/// A transfer that leaves its source below the existential deposit
/// removes the source's account and takes exactly the dust that was left
/// in it out of the supply; any other transfer keeps the account and the
/// supply.
pub proof fn lemma_dust_leaves_supply_once(
    s: LedgerView,
    t: TokenId,
    src: MemberId,
    ps: Payments,
    payer: AccountId,
    is_issuer: bool,
)
    requires
        s.inv(),
        transfer_error(s, t, src, ps, payer, is_issuer).is_none(),
    ensures
        ({
            let total = total_paid(ps, ps.len()) as u128;
            let dust = s.accounts[(t, src)].amount - total;
            let post = transferred(s, t, src, ps, payer);
            if removes_source(s, t, src, ps, total) {
                &&& 0 <= dust < s.tokens[t].existential_deposit
                &&& !post.accounts.contains_key((t, src))
                &&& post.tokens[t].total_supply == s.tokens[t].total_supply - dust
            } else {
                post.tokens[t].total_supply == s.tokens[t].total_supply
            }
        }),
{
    assert(s.token_inv(t));
    lemma_held_bounded(s.accounts, t, src);
    let a = s.accounts[(t, src)];
    let total = total_paid(ps, ps.len()) as u128;
    assert(a.transferrable(s.block) <= a.amount);
}

/// Opening a token to everyone is irreversible: whatever is called, a
/// token that is permissionless stays permissionless for as long as it
/// exists.
pub proof fn lemma_permissionless_is_final(
    before: LedgerView,
    after: LedgerView,
    call: Call,
    r: Result<(), Error>,
    t: TokenId,
)
    requires
        before.inv(),
        dispatched(before, after, call, r),
        before.tokens.contains_key(t),
        before.tokens[t].transfer_policy == TransferPolicy::Permissionless,
        after.tokens.contains_key(t),
    ensures
        after.tokens[t].transfer_policy == TransferPolicy::Permissionless,
{
    assert(before.token_inv(t));
}

/// The patronage rate of a token never rises, whatever is called.
pub proof fn lemma_patronage_rate_never_rises(
    before: LedgerView,
    after: LedgerView,
    call: Call,
    r: Result<(), Error>,
    t: TokenId,
)
    requires
        before.inv(),
        dispatched(before, after, call, r),
        before.tokens.contains_key(t),
        after.tokens.contains_key(t),
    ensures
        after.tokens[t].patronage_info.rate.0.parts <= before.tokens[t].patronage_info.rate.0.parts,
{
    assert(before.token_inv(t));
}

/// Token ids are given out once: whatever is called, the next token id
/// never goes down, and a token that exists afterwards either existed
/// before or has the id that was next.
pub proof fn lemma_token_ids_are_fresh(
    before: LedgerView,
    after: LedgerView,
    call: Call,
    r: Result<(), Error>,
    t: TokenId,
)
    requires
        before.inv(),
        dispatched(before, after, call, r),
        after.tokens.contains_key(t),
    ensures
        after.next_token_id >= before.next_token_id,
        before.tokens.contains_key(t) || t == before.next_token_id,
{
}

} // verus!
