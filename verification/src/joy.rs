//! The reserve currency: balances with locks, transfers that conserve the
//! currency, and the rules by which payments are accepted.
use crate::account::{AccountId, JoyBalance, RepayableBloatBond, TokenId};
use crate::arith::{
    checked_mul, max_balance, min_balance, sat_add, sat_sub, saturating_add, saturating_sub,
    spec_max, spec_min,
};
use std::collections::BTreeMap;
use vstd::prelude::*;

verus! {

/// Who holds a reserve-currency balance.
#[derive(Clone, Copy, Debug, PartialEq, Eq, Structural)]
pub enum JoyAccountId {
    /// An ordinary account.
    Plain(AccountId),
    /// The treasury of a token: it holds the token's bloat bonds and the
    /// allocation of its revenue split.
    Treasury(TokenId),
    /// The treasury of a token's bonding curve.
    AmmTreasury(TokenId),
}

/// One reserve-currency balance and the locks on it.
#[derive(Clone, Copy, Debug, PartialEq, Eq, Structural)]
pub struct JoyAccount {
    /// The whole balance.
    pub free: JoyBalance,
    /// The amount under the invitation lock, which bloat bonds may use.
    pub invitation_lock: JoyBalance,
    /// The largest amount under any other lock.
    pub other_lock: JoyBalance,
}

/// The reserve-currency balances.
#[derive(Clone, Debug, PartialEq, Eq)]
pub struct JoyLedger {
    accounts: BTreeMap<(u64, u64), JoyAccount>,
    existential_deposit: JoyBalance,
    total_issuance: JoyBalance,
}

/// The mathematical value of a [`JoyLedger`].
pub ghost struct JoyView {
    pub accounts: Map<(u64, u64), JoyAccount>,
    pub existential_deposit: JoyBalance,
    pub total_issuance: JoyBalance,
}

impl JoyAccountId {
    /// The key that the balance of the holder is stored under.
    pub open spec fn key(self) -> (u64, u64) {
        match self {
            JoyAccountId::Plain(a) => (0, a),
            JoyAccountId::Treasury(t) => (1, t),
            JoyAccountId::AmmTreasury(t) => (2, t),
        }
    }

    /// The key that the balance of the holder is stored under.
    pub fn to_key(&self) -> (r: (u64, u64))
        ensures
            r == self.key(),
    {
        match self {
            JoyAccountId::Plain(a) => (0, *a),
            JoyAccountId::Treasury(t) => (1, *t),
            JoyAccountId::AmmTreasury(t) => (2, *t),
        }
    }
}

impl JoyAccount {
    /// A balance of nothing, under no lock.
    pub open spec fn empty() -> JoyAccount {
        JoyAccount { free: 0, invitation_lock: 0, other_lock: 0 }
    }

    /// The balance under no lock.
    pub open spec fn usable(self) -> JoyBalance {
        sat_sub(self.free, spec_max(self.invitation_lock, self.other_lock))
    }

    /// The balance that may pay a bloat bond: the invitation lock does not
    /// hold it back, the existential deposit and every other lock do.
    pub open spec fn usable_for_bond(self, existential_deposit: JoyBalance) -> JoyBalance {
        sat_sub(self.free, spec_max(existential_deposit, self.other_lock))
    }
}

/// The bond of the `i`-th account that `payer` pays for in one payment, of
/// which `locked_used` came out of invitation-locked funds: the locked
/// funds are counted against the first bonds.
pub open spec fn bond_at(
    payer: AccountId,
    bond: JoyBalance,
    locked_used: JoyBalance,
    i: nat,
) -> RepayableBloatBond {
    RepayableBloatBond {
        amount: bond,
        repayment_restricted_to: if locked_used > i * bond {
            Some(payer)
        } else {
            None
        },
    }
}

impl JoyView {
    /// The balance of `id` with its locks: nothing if none is stored.
    pub open spec fn account(self, id: JoyAccountId) -> JoyAccount {
        if self.accounts.contains_key(id.key()) {
            self.accounts[id.key()]
        } else {
            JoyAccount::empty()
        }
    }

    /// The balance of `id` under no lock.
    pub open spec fn usable_balance(self, id: JoyAccountId) -> JoyBalance {
        self.account(id).usable()
    }

    /// Whether `id` can transfer `amount` and stay alive: its usable
    /// balance covers the amount and the existential deposit.
    pub open spec fn can_transfer(self, id: JoyAccountId, amount: JoyBalance) -> bool {
        self.usable_balance(id) >= amount + self.existential_deposit
    }

    /// Whether `id` can pay bloat bonds of `amount` in all.
    pub open spec fn can_pay_bond(self, id: JoyAccountId, amount: JoyBalance) -> bool {
        self.account(id).usable_for_bond(self.existential_deposit) >= amount
    }

    /// How much of a bond payment of `amount` by `id` comes out of locked
    /// funds.
    pub open spec fn locked_used(self, id: JoyAccountId, amount: JoyBalance) -> JoyBalance {
        sat_sub(amount, self.usable_balance(id))
    }

    /// The balances with that of `id` set to `account`.
    pub open spec fn with_account(self, id: JoyAccountId, account: JoyAccount) -> JoyView {
        JoyView { accounts: self.accounts.insert(id.key(), account), ..self }
    }

    /// `amount` taken from `id`, as far as its balance goes.
    pub open spec fn debited(self, id: JoyAccountId, amount: JoyBalance) -> JoyView {
        let a = self.account(id);
        self.with_account(id, JoyAccount { free: sat_sub(a.free, amount), ..a })
    }

    /// `amount` given to `id`, saturating.
    pub open spec fn credited(self, id: JoyAccountId, amount: JoyBalance) -> JoyView {
        let a = self.account(id);
        self.with_account(id, JoyAccount { free: sat_add(a.free, amount), ..a })
    }

    /// What actually moves when `from` is asked for `amount`.
    pub open spec fn movable(self, from: JoyAccountId, amount: JoyBalance) -> JoyBalance {
        spec_min(amount, self.account(from).free)
    }

    /// `amount`, or as much of it as `from` holds, moved from `from` to
    /// `to`. Moving nothing changes nothing.
    pub open spec fn transferred(self, from: JoyAccountId, to: JoyAccountId, amount: JoyBalance) -> JoyView {
        let moved = self.movable(from, amount);
        if moved == 0 {
            self
        } else {
            self.debited(from, moved).credited(to, moved)
        }
    }

    /// `amount`, or as much of it as `from` holds, destroyed. Destroying
    /// nothing changes nothing.
    pub open spec fn burned(self, from: JoyAccountId, amount: JoyBalance) -> JoyView {
        let moved = self.movable(from, amount);
        if moved == 0 {
            self
        } else {
            JoyView { total_issuance: sat_sub(self.total_issuance, moved), ..self.debited(from, moved) }
        }
    }

    /// `amount` created in `to`. Creating nothing changes nothing.
    pub open spec fn minted(self, to: JoyAccountId, amount: JoyBalance) -> JoyView {
        if amount == 0 {
            self
        } else {
            JoyView { total_issuance: sat_add(self.total_issuance, amount), ..self.credited(to, amount) }
        }
    }
}

impl View for JoyLedger {
    type V = JoyView;

    closed spec fn view(&self) -> JoyView {
        JoyView {
            accounts: self.accounts@,
            existential_deposit: self.existential_deposit,
            total_issuance: self.total_issuance,
        }
    }
}

impl JoyLedger {
    /// No balances, under the existential deposit `existential_deposit`.
    pub fn new(existential_deposit: JoyBalance) -> (r: Self)
        ensures
            r@ == (JoyView {
                accounts: Map::<(u64, u64), JoyAccount>::empty(),
                existential_deposit,
                total_issuance: 0,
            }),
    {
        JoyLedger { accounts: BTreeMap::new(), existential_deposit, total_issuance: 0 }
    }

    /// The balance that a transfer must leave in the account it takes from.
    pub fn existential_deposit(&self) -> (r: JoyBalance)
        ensures
            r == self@.existential_deposit,
    {
        self.existential_deposit
    }

    /// The reserve currency in existence.
    pub fn total_issuance(&self) -> (r: JoyBalance)
        ensures
            r == self@.total_issuance,
    {
        self.total_issuance
    }

    /// The balance of `id` and its locks.
    pub fn account(&self, id: JoyAccountId) -> (r: JoyAccount)
        ensures
            r == self@.account(id),
    {
        broadcast use vstd::std_specs::btree::group_btree_axioms;
        broadcast use vstd::laws_cmp::group_laws_cmp;

        let key = id.to_key();
        match self.accounts.get(&key) {
            Some(a) => *a,
            None => JoyAccount { free: 0, invitation_lock: 0, other_lock: 0 },
        }
    }

    fn put(&mut self, id: JoyAccountId, account: JoyAccount)
        ensures
            final(self)@ == old(self)@.with_account(id, account),
    {
        broadcast use vstd::std_specs::btree::group_btree_axioms;
        broadcast use vstd::laws_cmp::group_laws_cmp;

        self.accounts.insert(id.to_key(), account);
    }

    /// The whole balance of `id`, locked or not.
    pub fn free_balance(&self, id: JoyAccountId) -> (r: JoyBalance)
        ensures
            r == self@.account(id).free,
    {
        self.account(id).free
    }

    /// The balance of `id` under no lock.
    pub fn usable_balance(&self, id: JoyAccountId) -> (r: JoyBalance)
        ensures
            r == self@.usable_balance(id),
    {
        let a = self.account(id);
        saturating_sub(a.free, max_balance(a.invitation_lock, a.other_lock))
    }

    /// Whether `id` can transfer `amount` and keep the existential deposit.
    pub fn can_transfer(&self, id: JoyAccountId, amount: JoyBalance) -> (r: bool)
        ensures
            r == self@.can_transfer(id, amount),
    {
        let usable = self.usable_balance(id);
        usable >= amount && usable - amount >= self.existential_deposit
    }

    /// Whether `id` can pay bloat bonds of `amount` in all.
    pub fn can_pay_bond(&self, id: JoyAccountId, amount: JoyBalance) -> (r: bool)
        ensures
            r == self@.can_pay_bond(id, amount),
    {
        let a = self.account(id);
        saturating_sub(a.free, max_balance(self.existential_deposit, a.other_lock)) >= amount
    }

    /// How much of a bond payment of `amount` by `id` comes out of locked
    /// funds.
    pub fn locked_used(&self, id: JoyAccountId, amount: JoyBalance) -> (r: JoyBalance)
        ensures
            r == self@.locked_used(id, amount),
    {
        saturating_sub(amount, self.usable_balance(id))
    }

    /// Moves `amount`, or as much of it as `from` holds, to `to`. Returns
    /// what moved.
    pub fn transfer(&mut self, from: JoyAccountId, to: JoyAccountId, amount: JoyBalance) -> (moved:
        JoyBalance)
        ensures
            final(self)@ == old(self)@.transferred(from, to, amount),
            moved == old(self)@.movable(from, amount),
    {
        let a = self.account(from);
        let moved = min_balance(amount, a.free);
        if moved == 0 {
            return 0;
        }
        self.put(
            from,
            JoyAccount {
                free: saturating_sub(a.free, moved),
                invitation_lock: a.invitation_lock,
                other_lock: a.other_lock,
            },
        );
        let b = self.account(to);
        self.put(
            to,
            JoyAccount {
                free: saturating_add(b.free, moved),
                invitation_lock: b.invitation_lock,
                other_lock: b.other_lock,
            },
        );
        moved
    }

    /// Destroys `amount`, or as much of it as `from` holds. Returns what
    /// was destroyed.
    pub fn burn(&mut self, from: JoyAccountId, amount: JoyBalance) -> (moved: JoyBalance)
        ensures
            final(self)@ == old(self)@.burned(from, amount),
            moved == old(self)@.movable(from, amount),
    {
        let a = self.account(from);
        let moved = min_balance(amount, a.free);
        if moved == 0 {
            return 0;
        }
        self.total_issuance = saturating_sub(self.total_issuance, moved);
        self.put(
            from,
            JoyAccount {
                free: saturating_sub(a.free, moved),
                invitation_lock: a.invitation_lock,
                other_lock: a.other_lock,
            },
        );
        moved
    }

    /// Creates `amount` in `to`.
    pub fn deposit(&mut self, to: JoyAccountId, amount: JoyBalance)
        ensures
            final(self)@ == old(self)@.minted(to, amount),
    {
        if amount == 0 {
            return;
        }
        let b = self.account(to);
        self.total_issuance = saturating_add(self.total_issuance, amount);
        self.put(
            to,
            JoyAccount {
                free: saturating_add(b.free, amount),
                invitation_lock: b.invitation_lock,
                other_lock: b.other_lock,
            },
        );
    }

    /// Puts `amount` of the balance of `id` under the invitation lock.
    pub fn set_invitation_lock(&mut self, id: JoyAccountId, amount: JoyBalance)
        ensures
            final(self)@ == old(self)@.with_account(
                id,
                JoyAccount { invitation_lock: amount, ..old(self)@.account(id) },
            ),
    {
        let a = self.account(id);
        self.put(id, JoyAccount { free: a.free, invitation_lock: amount, other_lock: a.other_lock });
    }

    /// Puts `amount` of the balance of `id` under a lock that no payment
    /// may use.
    pub fn set_other_lock(&mut self, id: JoyAccountId, amount: JoyBalance)
        ensures
            final(self)@ == old(self)@.with_account(
                id,
                JoyAccount { other_lock: amount, ..old(self)@.account(id) },
            ),
    {
        let a = self.account(id);
        self.put(
            id,
            JoyAccount { free: a.free, invitation_lock: a.invitation_lock, other_lock: amount },
        );
    }
}

/// The bond of the `i`-th account paid for in one payment by `payer`.
pub fn bond_for(payer: AccountId, bond: JoyBalance, locked_used: JoyBalance, i: usize) -> (r:
    RepayableBloatBond)
    ensures
        r == bond_at(payer, bond, locked_used, i as nat),
{
    let restricted = match checked_mul(i as u128, bond) {
        Some(covered) => locked_used > covered,
        None => {
            false
        },
    };
    RepayableBloatBond {
        amount: bond,
        repayment_restricted_to: if restricted {
            Some(payer)
        } else {
            None
        },
    }
}

/// A transfer between two different accounts creates and destroys
/// nothing: while the receiving balance does not saturate, the two
/// balances together hold what they held before.
pub proof fn lemma_transfer_conserves(v: JoyView, from: JoyAccountId, to: JoyAccountId, amount: JoyBalance)
    requires
        from != to,
        v.account(to).free + amount <= u128::MAX,
    ensures
        v.transferred(from, to, amount).account(from).free + v.transferred(
            from,
            to,
            amount,
        ).account(to).free == v.account(from).free + v.account(to).free,
        v.transferred(from, to, amount).total_issuance == v.total_issuance,
{
    assert(from.key() != to.key());
}

} // verus!
