//! Sums over all the accounts of a token, and how they move when one
//! account changes.
use crate::account::{AccountView, MemberId, TokenId};
use vstd::prelude::*;

verus! {

/// The accounts of every token, by token and member.
pub type Accounts = Map<(TokenId, MemberId), AccountView>;

/// The number of member ids.
pub open spec fn member_ids() -> nat {
    0x1_0000_0000_0000_0000
}

/// The sum of `f` over the member ids below `n`.
pub open spec fn sum_below(f: spec_fn(MemberId) -> nat, n: nat) -> nat
    decreases n,
{
    if n == 0 {
        0
    } else {
        sum_below(f, (n - 1) as nat) + f((n - 1) as u64)
    }
}

/// What the member `m` holds of the token `t`: nothing without an account.
pub open spec fn held(accounts: Accounts, t: TokenId, m: MemberId) -> nat {
    if accounts.contains_key((t, m)) {
        accounts[(t, m)].amount as nat
    } else {
        0
    }
}

/// One if the member `m` has an account for the token `t`, else zero.
pub open spec fn present(accounts: Accounts, t: TokenId, m: MemberId) -> nat {
    if accounts.contains_key((t, m)) {
        1
    } else {
        0
    }
}

/// The tokens of `t` held in all its accounts together.
pub open spec fn total_held(accounts: Accounts, t: TokenId) -> nat {
    sum_below(|m: MemberId| held(accounts, t, m), member_ids())
}

/// The number of accounts of the token `t`.
pub open spec fn accounts_count(accounts: Accounts, t: TokenId) -> nat {
    sum_below(|m: MemberId| present(accounts, t, m), member_ids())
}

/// Two functions that agree everywhere but at `m` have sums that differ by
/// what they differ at `m`.
pub proof fn lemma_sum_update(f: spec_fn(MemberId) -> nat, g: spec_fn(MemberId) -> nat, m: MemberId, n: nat)
    requires
        n <= member_ids(),
        forall|k: MemberId| k != m ==> #[trigger] f(k) == g(k),
    ensures
        sum_below(g, n) + (if m < n {
            f(m)
        } else {
            0
        }) == sum_below(f, n) + (if m < n {
            g(m)
        } else {
            0
        }),
    decreases n,
{
    if n > 0 {
        lemma_sum_update(f, g, m, (n - 1) as nat);
        let k = (n - 1) as u64;
        if k != m {
            assert(f(k) == g(k));
        }
    }
}

/// Two functions that agree everywhere have the same sums.
pub proof fn lemma_sum_same(f: spec_fn(MemberId) -> nat, g: spec_fn(MemberId) -> nat, n: nat)
    requires
        n <= member_ids(),
        forall|k: MemberId| #[trigger] f(k) == g(k),
    ensures
        sum_below(g, n) == sum_below(f, n),
    decreases n,
{
    if n > 0 {
        lemma_sum_same(f, g, (n - 1) as nat);
        assert(f((n - 1) as u64) == g((n - 1) as u64));
    }
}

/// No term of a sum exceeds the sum.
pub proof fn lemma_sum_bounds(f: spec_fn(MemberId) -> nat, m: MemberId, n: nat)
    requires
        n <= member_ids(),
        m < n,
    ensures
        f(m) <= sum_below(f, n),
    decreases n,
{
    if n - 1 > m {
        lemma_sum_bounds(f, m, (n - 1) as nat);
    }
}

/// What changes when the account of `m0` for `t0` is set to `v`: the
/// sums of the other tokens stay, the tokens held of `t0` move by the
/// difference of the amounts, and the number of accounts goes up by one
/// if the account is new.
pub proof fn lemma_account_set(accounts: Accounts, t0: TokenId, m0: MemberId, v: AccountView)
    ensures
        forall|t: TokenId|
            t != t0 ==> #[trigger] total_held(accounts.insert((t0, m0), v), t) == total_held(accounts, t),
        forall|t: TokenId|
            t != t0 ==> #[trigger] accounts_count(accounts.insert((t0, m0), v), t) == accounts_count(
                accounts,
                t,
            ),
        total_held(accounts.insert((t0, m0), v), t0) + held(accounts, t0, m0) == total_held(accounts, t0)
            + v.amount,
        accounts_count(accounts.insert((t0, m0), v), t0) + present(accounts, t0, m0) == accounts_count(
            accounts,
            t0,
        ) + 1,
{
    let after = accounts.insert((t0, m0), v);
    assert forall|t: TokenId| t != t0 implies #[trigger] total_held(after, t) == total_held(accounts, t) by {
        lemma_sum_same(|m: MemberId| held(accounts, t, m), |m: MemberId| held(after, t, m), member_ids());
    }
    assert forall|t: TokenId| t != t0 implies #[trigger] accounts_count(after, t) == accounts_count(
        accounts,
        t,
    ) by {
        lemma_sum_same(
            |m: MemberId| present(accounts, t, m),
            |m: MemberId| present(after, t, m),
            member_ids(),
        );
    }
    lemma_sum_update(
        |m: MemberId| held(accounts, t0, m),
        |m: MemberId| held(after, t0, m),
        m0,
        member_ids(),
    );
    lemma_sum_update(
        |m: MemberId| present(accounts, t0, m),
        |m: MemberId| present(after, t0, m),
        m0,
        member_ids(),
    );
}

/// What changes when the account of `m0` for `t0` is removed.
pub proof fn lemma_account_removed(accounts: Accounts, t0: TokenId, m0: MemberId)
    ensures
        forall|t: TokenId|
            t != t0 ==> #[trigger] total_held(accounts.remove((t0, m0)), t) == total_held(accounts, t),
        forall|t: TokenId|
            t != t0 ==> #[trigger] accounts_count(accounts.remove((t0, m0)), t) == accounts_count(
                accounts,
                t,
            ),
        total_held(accounts.remove((t0, m0)), t0) + held(accounts, t0, m0) == total_held(accounts, t0),
        accounts_count(accounts.remove((t0, m0)), t0) + present(accounts, t0, m0) == accounts_count(
            accounts,
            t0,
        ),
{
    let after = accounts.remove((t0, m0));
    assert forall|t: TokenId| t != t0 implies #[trigger] total_held(after, t) == total_held(accounts, t) by {
        lemma_sum_same(|m: MemberId| held(accounts, t, m), |m: MemberId| held(after, t, m), member_ids());
    }
    assert forall|t: TokenId| t != t0 implies #[trigger] accounts_count(after, t) == accounts_count(
        accounts,
        t,
    ) by {
        lemma_sum_same(
            |m: MemberId| present(accounts, t, m),
            |m: MemberId| present(after, t, m),
            member_ids(),
        );
    }
    lemma_sum_update(
        |m: MemberId| held(accounts, t0, m),
        |m: MemberId| held(after, t0, m),
        m0,
        member_ids(),
    );
    lemma_sum_update(
        |m: MemberId| present(accounts, t0, m),
        |m: MemberId| present(after, t0, m),
        m0,
        member_ids(),
    );
}

/// No account holds more than all the accounts of its token together.
pub proof fn lemma_held_bounded(accounts: Accounts, t: TokenId, m: MemberId)
    ensures
        held(accounts, t, m) <= total_held(accounts, t),
{
    lemma_sum_bounds(|k: MemberId| held(accounts, t, k), m, member_ids());
}

/// A sum of zeros is zero.
pub proof fn lemma_sum_zero(f: spec_fn(MemberId) -> nat, n: nat)
    requires
        n <= member_ids(),
        forall|k: MemberId| #[trigger] f(k) == 0,
    ensures
        sum_below(f, n) == 0,
    decreases n,
{
    if n > 0 {
        lemma_sum_zero(f, (n - 1) as nat);
        assert(f((n - 1) as u64) == 0);
    }
}

/// A token without accounts holds nothing and counts no account.
pub proof fn lemma_no_accounts(accounts: Accounts, t: TokenId)
    requires
        forall|m: MemberId| !accounts.contains_key((t, m)),
    ensures
        total_held(accounts, t) == 0,
        accounts_count(accounts, t) == 0,
{
    lemma_sum_zero(|m: MemberId| held(accounts, t, m), member_ids());
    lemma_sum_zero(|m: MemberId| present(accounts, t, m), member_ids());
}

/// A token with an account has at least one account.
pub proof fn lemma_present_counted(accounts: Accounts, t: TokenId, m: MemberId)
    ensures
        present(accounts, t, m) <= accounts_count(accounts, t),
{
    lemma_sum_bounds(|k: MemberId| present(accounts, t, k), m, member_ids());
}

} // verus!
