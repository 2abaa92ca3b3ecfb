//! The token ledger: every token, every account, the reserve currency and
//! the membership that the operations read, with the invariant that ties
//! each token's supply to its accounts.
use crate::account::{AccountData, AccountId, AccountView, JoyBalance, MemberId, TokenId};
use crate::arith::Permill;
use crate::errors::Error;
use crate::events::Event;
use crate::joy::{JoyAccountId, JoyLedger, JoyView};
use crate::membership::Membership;
use crate::merkle::H256;
use crate::supply::{accounts_count, total_held, Accounts};
use crate::token::TokenData;
use crate::vesting::{sat_add_block, saturating_add_block, BlockNumber};
use std::collections::BTreeMap;
use vstd::prelude::*;

pub mod amm_ops;
pub mod canonical;
pub mod issuance;
pub mod patronage;
pub mod sale_ops;
pub mod split_ops;
pub mod transfer;

verus! {

/// What the ledger is configured with.
#[derive(Clone, Copy, Debug, PartialEq, Eq, Structural)]
pub struct Parameters {
    /// The bond that every new account costs.
    pub bloat_bond: JoyBalance,
    /// The fewest blocks that a sale can last.
    pub min_sale_duration: BlockNumber,
    /// The fewest blocks that a revenue split can last.
    pub min_revenue_split_duration: BlockNumber,
    /// The fewest blocks between the issuing of a split and its start.
    pub min_revenue_split_time_to_start: BlockNumber,
    /// The share of a sale's price that is destroyed.
    pub sale_platform_fee: Permill,
    /// The lowest slope that a bonding curve can have.
    pub min_amm_slope: Permill,
    /// The share of the supply that a curve may still provide when it is
    /// closed.
    pub amm_deactivation_threshold: Permill,
}

/// What a ledger starts from.
#[derive(Clone, Copy, Debug, PartialEq, Eq, Structural)]
pub struct GenesisConfig {
    /// The id of the first token.
    pub next_token_id: TokenId,
    pub parameters: Parameters,
}

/// The token ledger.
#[derive(Clone, Debug, PartialEq, Eq)]
pub struct TokenLedger {
    pub(crate) tokens: BTreeMap<TokenId, TokenData>,
    pub(crate) accounts: BTreeMap<(TokenId, MemberId), AccountData>,
    pub(crate) next_token_id: TokenId,
    pub(crate) symbols_used: Vec<H256>,
    pub(crate) parameters: Parameters,
    pub(crate) joy: JoyLedger,
    pub(crate) members: Membership,
    pub(crate) block_number: BlockNumber,
    pub(crate) events: Vec<Event>,
}

/// The mathematical value of a [`TokenLedger`].
pub ghost struct LedgerView {
    pub tokens: Map<TokenId, TokenData>,
    pub accounts: Accounts,
    pub next_token_id: TokenId,
    pub symbols: Seq<H256>,
    pub parameters: Parameters,
    pub joy: JoyView,
    pub members: Map<MemberId, AccountId>,
    pub block: BlockNumber,
    pub events: Seq<Event>,
}

/// The values of the accounts in `m`.
pub open spec fn accounts_view(m: Map<(TokenId, MemberId), AccountData>) -> Accounts {
    Map::new(|k: (TokenId, MemberId)| m.contains_key(k), |k: (TokenId, MemberId)| m[k]@)
}

impl Parameters {
    /// The fractions among the parameters are at most one whole.
    pub open spec fn wf(self) -> bool {
        &&& self.sale_platform_fee.wf()
        &&& self.min_amm_slope.wf()
        &&& self.amm_deactivation_threshold.wf()
    }
}

impl LedgerView {
    /// What holds of every token: its supply is what its accounts hold
    /// together with what its sale holds in escrow; its number of
    /// accounts is the number of its accounts; its id was given out; the
    /// member whose tokens are in escrow has an account; and it does not
    /// have a sale and a bonding curve at once.
    pub open spec fn token_inv(self, t: TokenId) -> bool {
        let d = self.tokens[t];
        &&& total_held(self.accounts, t) + d.escrow() == d.total_supply
        &&& accounts_count(self.accounts, t) == d.accounts_number
        &&& t < self.next_token_id
        &&& (d.escrow() > 0 ==> self.accounts.contains_key((t, d.sale.unwrap().tokens_source)))
        &&& d.exclusive()
    }

    /// What holds of every account: its token exists, and its schedules
    /// are in order.
    pub open spec fn account_inv(self, t: TokenId, m: MemberId) -> bool {
        self.tokens.contains_key(t) && self.accounts[(t, m)].wf()
    }

    /// The ledger's invariant.
    pub open spec fn inv(self) -> bool {
        &&& forall|t: TokenId| #[trigger] self.tokens.contains_key(t) ==> self.token_inv(t)
        &&& forall|t: TokenId, m: MemberId| #[trigger]
            self.accounts.contains_key((t, m)) ==> self.account_inv(t, m)
    }

    /// At a settled boundary, when no sale holds tokens in escrow, the
    /// supply of a token is the sum of the amounts of its accounts.
    pub proof fn lemma_supply_is_sum(self, t: TokenId)
        requires
            self.inv(),
            self.tokens.contains_key(t),
            self.tokens[t].escrow() == 0,
        ensures
            self.tokens[t].total_supply == total_held(self.accounts, t),
    {
    }

    /// The invariant speaks of the tokens, the accounts and the next token
    /// id alone.
    pub proof fn lemma_inv_frame(self, other: LedgerView)
        requires
            self.inv(),
            other.tokens == self.tokens,
            other.accounts == self.accounts,
            other.next_token_id == self.next_token_id,
        ensures
            other.inv(),
    {
        assert forall|t: TokenId| #[trigger] other.tokens.contains_key(t) implies other.token_inv(t) by {
            assert(self.token_inv(t));
        }
        assert forall|t: TokenId, m: MemberId| #[trigger]
            other.accounts.contains_key((t, m)) implies other.account_inv(t, m) by {
            assert(self.account_inv(t, m));
        }
    }

    /// The invariant survives a change that touches the token `t0` and
    /// its accounts alone, if it holds of that token afterwards.
    pub proof fn lemma_inv_one_token(self, other: LedgerView, t0: TokenId)
        requires
            self.inv(),
            other.next_token_id >= self.next_token_id,
            forall|t: TokenId|
                t != t0 ==> (#[trigger] other.tokens.contains_key(t) == self.tokens.contains_key(t)),
            forall|t: TokenId| t != t0 && self.tokens.contains_key(t) ==> #[trigger] other.tokens[t] == self.tokens[t],
            forall|t: TokenId, m: MemberId|
                t != t0 ==> (#[trigger] other.accounts.contains_key((t, m)) == self.accounts.contains_key(
                    (t, m),
                )),
            forall|t: TokenId, m: MemberId|
                t != t0 && self.accounts.contains_key((t, m)) ==> #[trigger] other.accounts[(t, m)]
                    == self.accounts[(t, m)],
            forall|t: TokenId| t != t0 ==> #[trigger] total_held(other.accounts, t) == total_held(self.accounts, t),
            forall|t: TokenId|
                t != t0 ==> #[trigger] accounts_count(other.accounts, t) == accounts_count(self.accounts, t),
            other.tokens.contains_key(t0) ==> other.token_inv(t0),
            forall|m: MemberId| #[trigger]
                other.accounts.contains_key((t0, m)) ==> other.tokens.contains_key(t0) && other.accounts[(
                    t0,
                    m,
                )].wf(),
        ensures
            other.inv(),
    {
        assert forall|t: TokenId| #[trigger] other.tokens.contains_key(t) implies other.token_inv(t) by {
            if t != t0 {
                assert(self.tokens.contains_key(t));
                assert(self.token_inv(t));
                assert(other.tokens[t] == self.tokens[t]);
                assert(total_held(other.accounts, t) == total_held(self.accounts, t));
                assert(accounts_count(other.accounts, t) == accounts_count(self.accounts, t));
                let d = self.tokens[t];
                if d.escrow() > 0 {
                    assert(self.accounts.contains_key((t, d.sale.unwrap().tokens_source)));
                    assert(other.accounts.contains_key((t, d.sale.unwrap().tokens_source)));
                }
            }
        }
        assert forall|t: TokenId, m: MemberId| #[trigger]
            other.accounts.contains_key((t, m)) implies other.account_inv(t, m) by {
            if t != t0 {
                assert(self.accounts.contains_key((t, m)));
                assert(self.account_inv(t, m));
                assert(other.tokens.contains_key(t) == self.tokens.contains_key(t));
            }
        }
    }

    /// The invariant survives a change of the data of the token `t0` that
    /// keeps its supply, its number of accounts and its escrow.
    pub proof fn lemma_inv_token_data(self, t0: TokenId, d: TokenData)
        requires
            self.inv(),
            self.tokens.contains_key(t0),
            d.total_supply == self.tokens[t0].total_supply,
            d.accounts_number == self.tokens[t0].accounts_number,
            d.escrow() == self.tokens[t0].escrow(),
            d.escrow() > 0 ==> d.sale.unwrap().tokens_source == self.tokens[t0].sale.unwrap().tokens_source,
            d.exclusive(),
        ensures
            self.with_token(t0, d).inv(),
    {
        let other = self.with_token(t0, d);
        assert(self.token_inv(t0));
        assert forall|m: MemberId| #[trigger] other.accounts.contains_key((t0, m)) implies other.tokens.contains_key(
            t0,
        ) && other.accounts[(t0, m)].wf() by {
            assert(self.account_inv(t0, m));
        }
        self.lemma_inv_one_token(other, t0);
    }

    /// The invariant survives clearing a sale that holds nothing in
    /// escrow.
    pub proof fn lemma_inv_sale_cleared(self, t0: TokenId)
        requires
            self.inv(),
            self.tokens.contains_key(t0),
            self.tokens[t0].escrow() == 0,
        ensures
            self.with_token(t0, TokenData { sale: None, ..self.tokens[t0] }).inv(),
    {
        self.lemma_inv_token_data(t0, TokenData { sale: None, ..self.tokens[t0] });
    }

    /// The invariant survives setting the account of `m0` for `t0` to `a`
    /// together with new data `d` for the token, if the supply moves with
    /// the amounts and the number of accounts with the accounts.
    pub proof fn lemma_inv_account_set(self, t0: TokenId, m0: MemberId, a: AccountView, d: TokenData)
        requires
            self.inv(),
            self.tokens.contains_key(t0),
            a.wf(),
            d.total_supply + crate::supply::held(self.accounts, t0, m0) + self.tokens[t0].escrow()
                == self.tokens[t0].total_supply + a.amount + d.escrow(),
            d.accounts_number + crate::supply::present(self.accounts, t0, m0)
                == self.tokens[t0].accounts_number + 1,
            d.escrow() > 0 ==> (d.sale.unwrap().tokens_source == m0 || self.accounts.contains_key(
                (t0, d.sale.unwrap().tokens_source),
            )),
            d.exclusive(),
        ensures
            self.with_account(t0, m0, a).with_token(t0, d).inv(),
    {
        let other = self.with_account(t0, m0, a).with_token(t0, d);
        assert(self.token_inv(t0));
        crate::supply::lemma_account_set(self.accounts, t0, m0, a);
        assert forall|m: MemberId| #[trigger] other.accounts.contains_key((t0, m)) implies other.tokens.contains_key(
            t0,
        ) && other.accounts[(t0, m)].wf() by {
            if m != m0 {
                assert(self.accounts.contains_key((t0, m)));
                assert(self.account_inv(t0, m));
            }
        }
        self.lemma_inv_one_token(other, t0);
    }

    /// The invariant survives removing the account of `m0` for `t0`
    /// together with new data `d` for the token, if the supply moves with
    /// the amount removed and the number of accounts with the account.
    pub proof fn lemma_inv_account_removed(self, t0: TokenId, m0: MemberId, d: TokenData)
        requires
            self.inv(),
            self.tokens.contains_key(t0),
            d.total_supply + crate::supply::held(self.accounts, t0, m0) + self.tokens[t0].escrow()
                == self.tokens[t0].total_supply + d.escrow(),
            d.accounts_number + crate::supply::present(self.accounts, t0, m0)
                == self.tokens[t0].accounts_number,
            d.escrow() > 0 ==> (d.sale.unwrap().tokens_source != m0 && self.accounts.contains_key(
                (t0, d.sale.unwrap().tokens_source),
            )),
            d.exclusive(),
        ensures
            self.without_account(t0, m0).with_token(t0, d).inv(),
    {
        let other = self.without_account(t0, m0).with_token(t0, d);
        assert(self.token_inv(t0));
        crate::supply::lemma_account_removed(self.accounts, t0, m0);
        assert forall|m: MemberId| #[trigger] other.accounts.contains_key((t0, m)) implies other.tokens.contains_key(
            t0,
        ) && other.accounts[(t0, m)].wf() by {
            assert(self.accounts.contains_key((t0, m)));
            assert(self.account_inv(t0, m));
        }
        self.lemma_inv_one_token(other, t0);
    }

    /// The ledger with the data of the token `t` set to `d`.
    pub open spec fn with_token(self, t: TokenId, d: TokenData) -> LedgerView {
        LedgerView { tokens: self.tokens.insert(t, d), ..self }
    }

    /// The ledger with the account of `m` for `t` set to `a`.
    pub open spec fn with_account(self, t: TokenId, m: MemberId, a: AccountView) -> LedgerView {
        LedgerView { accounts: self.accounts.insert((t, m), a), ..self }
    }

    /// The ledger without the account of `m` for `t`.
    pub open spec fn without_account(self, t: TokenId, m: MemberId) -> LedgerView {
        LedgerView { accounts: self.accounts.remove((t, m)), ..self }
    }

    /// The ledger with the reserve currency `joy`.
    pub open spec fn with_joy(self, joy: JoyView) -> LedgerView {
        LedgerView { joy, ..self }
    }

    /// The ledger with the event `e` recorded last.
    pub open spec fn with_event(self, e: Event) -> LedgerView {
        LedgerView { events: self.events.push(e), ..self }
    }

    /// Whether `other` is this ledger with one more event.
    pub open spec fn plus_event(self, other: LedgerView) -> bool {
        &&& other.events.len() == self.events.len() + 1
        &&& other.events.drop_last() == self.events
        &&& (LedgerView { events: self.events, ..other }) == self
    }

    /// The token `t`, or why it cannot be used.
    pub open spec fn token(self, t: TokenId) -> Result<TokenData, Error> {
        if self.tokens.contains_key(t) {
            Ok(self.tokens[t])
        } else {
            Err(Error::TokenDoesNotExist)
        }
    }

    /// The account of `m` for `t`, or why it cannot be used.
    pub open spec fn account(self, t: TokenId, m: MemberId) -> Result<AccountView, Error> {
        if self.accounts.contains_key((t, m)) {
            Ok(self.accounts[(t, m)])
        } else {
            Err(Error::AccountInformationDoesNotExist)
        }
    }

    /// Whether `sender` controls the existing member `m`.
    pub open spec fn authorized(self, sender: AccountId, m: MemberId) -> bool {
        crate::membership::controls(self.members, m, sender)
    }
}

impl View for TokenLedger {
    type V = LedgerView;

    open(crate) spec fn view(&self) -> LedgerView {
        LedgerView {
            tokens: self.tokens@,
            accounts: accounts_view(self.accounts@),
            next_token_id: self.next_token_id,
            symbols: self.symbols_used@,
            parameters: self.parameters,
            joy: self.joy@,
            members: self.members@,
            block: self.block_number,
            events: self.events@,
        }
    }
}

/// The genesis of a test network: no bond, ids from one.
pub fn testing_config() -> (r: GenesisConfig)
    ensures
        r.next_token_id == 1,
        r.parameters.bloat_bond == 0,
        r.parameters == default_parameters(0),
{
    GenesisConfig { next_token_id: 1, parameters: make_parameters(0) }
}

/// The genesis of the production network: a bond of ten, ids from one.
pub fn production_config() -> (r: GenesisConfig)
    ensures
        r.next_token_id == 1,
        r.parameters.bloat_bond == 10,
        r.parameters == default_parameters(10),
{
    GenesisConfig { next_token_id: 1, parameters: make_parameters(10) }
}

/// The parameters that a network starts with under the bond `bloat_bond`:
/// sales and splits of at least one block, no platform fee, a slope of
/// at least one millionth, and a curve that can close while it provides
/// up to five percent of the supply.
pub open spec fn default_parameters(bloat_bond: JoyBalance) -> Parameters {
    Parameters {
        bloat_bond,
        min_sale_duration: 1,
        min_revenue_split_duration: 1,
        min_revenue_split_time_to_start: 0,
        sale_platform_fee: Permill { parts: 0 },
        min_amm_slope: Permill { parts: 1 },
        amm_deactivation_threshold: Permill { parts: 50_000 },
    }
}

fn make_parameters(bloat_bond: JoyBalance) -> (r: Parameters)
    ensures
        r == default_parameters(bloat_bond),
        r.wf(),
{
    Parameters {
        bloat_bond,
        min_sale_duration: 1,
        min_revenue_split_duration: 1,
        min_revenue_split_time_to_start: 0,
        sale_platform_fee: Permill { parts: 0 },
        min_amm_slope: Permill { parts: 1 },
        amm_deactivation_threshold: Permill { parts: 50_000 },
    }
}

impl TokenLedger {
    /// Every account's schedules are stored in their canonical form.
    pub open(crate) spec fn stored_wf(&self) -> bool {
        forall|k: (TokenId, MemberId)| #[trigger]
            self.accounts@.contains_key(k) ==> self.accounts@[k].wf()
    }

    /// The ledger is stored in its canonical form and its invariant holds.
    pub open(crate) spec fn wf(&self) -> bool {
        self.stored_wf() && self@.inv()
    }

    /// The invariant holds of every well-formed ledger.
    pub proof fn lemma_invariant(&self)
        requires
            self.wf(),
        ensures
            self@.inv(),
    {
    }

    /// In a well-formed ledger, the supply of a token without a sale is
    /// the sum of the amounts of its accounts, and with a sale, that sum
    /// and the quantity left on sale.
    pub proof fn lemma_settled_supply(&self, t: TokenId)
        requires
            self.wf(),
            self@.tokens.contains_key(t),
        ensures
            self@.tokens[t].total_supply == total_held(self@.accounts, t) + self@.tokens[t].escrow(),
            self@.tokens[t].sale.is_none() ==> self@.tokens[t].total_supply == total_held(self@.accounts, t),
            self@.tokens[t].accounts_number == accounts_count(self@.accounts, t),
    {
        assert(self@.token_inv(t));
    }

    /// An empty ledger at block one.
    pub fn initialize(config: GenesisConfig, joy_existential_deposit: JoyBalance) -> (r: Self)
        ensures
            r.wf(),
            r@.tokens == Map::<TokenId, TokenData>::empty(),
            r@.accounts == Map::<(TokenId, MemberId), AccountView>::empty(),
            r@.next_token_id == config.next_token_id,
            r@.symbols == Seq::<H256>::empty(),
            r@.parameters == config.parameters,
            r@.joy == (JoyView {
                accounts: Map::<(u64, u64), crate::joy::JoyAccount>::empty(),
                existential_deposit: joy_existential_deposit,
                total_issuance: 0,
            }),
            r@.members == Map::<MemberId, AccountId>::empty(),
            r@.block == 1,
            r@.events == Seq::<Event>::empty(),
    {
        let r = TokenLedger {
            tokens: BTreeMap::new(),
            accounts: BTreeMap::new(),
            next_token_id: config.next_token_id,
            symbols_used: Vec::new(),
            parameters: config.parameters,
            joy: JoyLedger::new(joy_existential_deposit),
            members: Membership::new(),
            block_number: 1,
            events: Vec::new(),
        };
        proof {
            assert(r@.accounts =~= Map::<(TokenId, MemberId), AccountView>::empty());
        }
        r
    }

    pub(crate) fn get_token(&self, t: TokenId) -> (r: Result<TokenData, Error>)
        ensures
            r == self@.token(t),
    {
        broadcast use vstd::std_specs::btree::group_btree_axioms;
        broadcast use vstd::laws_cmp::group_laws_cmp;

        match self.tokens.get(&t) {
            Some(d) => Ok(*d),
            None => Err(Error::TokenDoesNotExist),
        }
    }

    pub(crate) fn put_token(&mut self, t: TokenId, d: TokenData)
        ensures
            final(self)@ == old(self)@.with_token(t, d),
            final(self).stored_wf() == old(self).stored_wf(),
            final(self).accounts == old(self).accounts,
    {
        broadcast use vstd::std_specs::btree::group_btree_axioms;
        broadcast use vstd::laws_cmp::group_laws_cmp;

        self.tokens.insert(t, d);
    }

    /// The value of every stored account is well formed.
    pub(crate) proof fn lemma_stored_views_wf(&self)
        requires
            self.stored_wf(),
        ensures
            forall|t: TokenId, m: MemberId| #[trigger]
                self@.accounts.contains_key((t, m)) ==> self@.accounts[(t, m)].wf(),
    {
        assert forall|t: TokenId, m: MemberId| #[trigger]
            self@.accounts.contains_key((t, m)) implies self@.accounts[(t, m)].wf() by {
            assert(self.accounts@.contains_key((t, m)));
            self.accounts@[(t, m)].lemma_view_wf();
        }
    }

    pub(crate) fn drop_token(&mut self, t: TokenId)
        ensures
            final(self)@ == (LedgerView { tokens: old(self)@.tokens.remove(t), ..old(self)@ }),
            final(self).accounts == old(self).accounts,
            old(self).stored_wf() ==> final(self).stored_wf(),
    {
        broadcast use vstd::std_specs::btree::group_btree_axioms;
        broadcast use vstd::laws_cmp::group_laws_cmp;

        self.tokens.remove(&t);
    }

    pub(crate) fn get_account(&self, t: TokenId, m: MemberId) -> (r: Result<AccountData, Error>)
        requires
            self.stored_wf(),
        ensures
            match r {
                Ok(a) => self@.account(t, m) == Ok::<AccountView, Error>(a@) && a.wf() && self.accounts@[(
                    t,
                    m,
                )] == a,
                Err(e) => self@.account(t, m) == Err::<AccountView, Error>(e),
            },
    {
        broadcast use vstd::std_specs::btree::group_btree_axioms;
        broadcast use vstd::laws_cmp::group_laws_cmp;

        let key = (t, m);
        match self.accounts.get(&key) {
            Some(a) => Ok(*a),
            None => Err(Error::AccountInformationDoesNotExist),
        }
    }

    pub(crate) fn has_account(&self, t: TokenId, m: MemberId) -> (r: bool)
        ensures
            r == self@.accounts.contains_key((t, m)),
    {
        broadcast use vstd::std_specs::btree::group_btree_axioms;
        broadcast use vstd::laws_cmp::group_laws_cmp;

        let key = (t, m);
        self.accounts.contains_key(&key)
    }

    pub(crate) fn put_account(&mut self, t: TokenId, m: MemberId, a: AccountData)
        requires
            old(self).stored_wf(),
            a.wf(),
        ensures
            final(self).stored_wf(),
            final(self)@ == old(self)@.with_account(t, m, a@),
    {
        broadcast use vstd::std_specs::btree::group_btree_axioms;
        broadcast use vstd::laws_cmp::group_laws_cmp;

        self.accounts.insert((t, m), a);
        proof {
            assert(final(self)@.accounts =~= old(self)@.accounts.insert((t, m), a@));
        }
    }

    pub(crate) fn drop_account(&mut self, t: TokenId, m: MemberId)
        requires
            old(self).stored_wf(),
        ensures
            final(self).stored_wf(),
            final(self)@ == old(self)@.without_account(t, m),
    {
        broadcast use vstd::std_specs::btree::group_btree_axioms;
        broadcast use vstd::laws_cmp::group_laws_cmp;

        let key = (t, m);
        self.accounts.remove(&key);
        proof {
            assert(final(self)@.accounts =~= old(self)@.accounts.remove((t, m)));
        }
    }

    pub(crate) fn push_event(&mut self, e: Event)
        ensures
            final(self)@ == old(self)@.with_event(e),
            final(self).stored_wf() == old(self).stored_wf(),
            old(self)@.plus_event(final(self)@),
            final(self)@.events.last() == e,
    {
        self.events.push(e);
        proof {
            assert(final(self)@.events.drop_last() =~= old(self)@.events);
        }
    }

    /// `Ok` exactly when `sender` controls the existing member `m`.
    pub(crate) fn ensure_authorized(&self, sender: AccountId, m: MemberId) -> (r: Result<(), Error>)
        ensures
            r == (if self@.authorized(sender, m) {
                Ok::<(), Error>(())
            } else {
                Err(Error::OriginNotMemberController)
            }),
    {
        if self.members.is_member_controller_account(m, sender) {
            Ok(())
        } else {
            Err(Error::OriginNotMemberController)
        }
    }

    /// The token, if it exists.
    pub fn token_info_by_id(&self, t: TokenId) -> (r: Option<TokenData>)
        ensures
            r == (if self@.tokens.contains_key(t) {
                Some(self@.tokens[t])
            } else {
                None
            }),
    {
        match self.get_token(t) {
            Ok(d) => Some(d),
            Err(_) => None,
        }
    }

    /// The token, or `TokenDoesNotExist`.
    pub fn ensure_token_exists(&self, t: TokenId) -> (r: Result<TokenData, Error>)
        ensures
            r == self@.token(t),
    {
        self.get_token(t)
    }

    /// The account of the member `m` for the token `t`, if it exists.
    pub fn account_info_by_token_and_member(&self, t: TokenId, m: MemberId) -> (r: Option<AccountData>)
        requires
            self.wf(),
        ensures
            r.is_some() == self@.accounts.contains_key((t, m)),
            r.is_some() ==> r.unwrap()@ == self@.accounts[(t, m)] && r.unwrap().wf(),
    {
        match self.get_account(t, m) {
            Ok(a) => Some(a),
            Err(_) => None,
        }
    }

    /// The account of the member `m` for the token `t`, or
    /// `AccountInformationDoesNotExist`.
    pub fn ensure_account_data_exists(&self, t: TokenId, m: MemberId) -> (r: Result<AccountData, Error>)
        requires
            self.wf(),
        ensures
            match r {
                Ok(a) => self@.account(t, m) == Ok::<AccountView, Error>(a@) && a.wf(),
                Err(e) => self@.account(t, m) == Err::<AccountView, Error>(e),
            },
    {
        self.get_account(t, m)
    }

    /// The id that the next token gets.
    pub fn next_token_id(&self) -> (r: TokenId)
        ensures
            r == self@.next_token_id,
    {
        self.next_token_id
    }

    /// The bond that every new account costs.
    pub fn bloat_bond(&self) -> (r: JoyBalance)
        ensures
            r == self@.parameters.bloat_bond,
    {
        self.parameters.bloat_bond
    }

    /// What the ledger is configured with.
    pub fn parameters(&self) -> (r: Parameters)
        ensures
            r == self@.parameters,
    {
        self.parameters
    }

    /// The block that the ledger is at.
    pub fn current_block(&self) -> (r: BlockNumber)
        ensures
            r == self@.block,
    {
        self.block_number
    }

    /// Whether the symbol hash is taken by a token.
    pub fn symbol_used(&self, symbol: &H256) -> (r: bool)
        ensures
            r == self@.symbols.contains(*symbol),
    {
        let mut i: usize = 0;
        while i < self.symbols_used.len()
            invariant
                i <= self.symbols_used.len(),
                forall|j: int| 0 <= j < i ==> self.symbols_used@[j] != *symbol,
            decreases self.symbols_used.len() - i,
        {
            if crate::merkle::hash_eq(&self.symbols_used[i], symbol) {
                return true;
            }
            i += 1;
        }
        false
    }

    /// The events recorded, oldest first.
    pub fn events(&self) -> (r: &Vec<Event>)
        ensures
            r@ == self@.events,
    {
        &self.events
    }

    /// The number of events recorded.
    pub fn events_len(&self) -> (r: usize)
        ensures
            r == self@.events.len(),
    {
        self.events.len()
    }

    /// The treasury of the token `t`.
    pub fn module_treasury_account(t: TokenId) -> (r: JoyAccountId)
        ensures
            r == JoyAccountId::Treasury(t),
    {
        JoyAccountId::Treasury(t)
    }

    /// The treasury of the bonding curve of the token `t`.
    pub fn amm_treasury_account(t: TokenId) -> (r: JoyAccountId)
        ensures
            r == JoyAccountId::AmmTreasury(t),
    {
        JoyAccountId::AmmTreasury(t)
    }

    /// The usable reserve-currency balance of `id`.
    pub fn joy_usable_balance(&self, id: JoyAccountId) -> (r: JoyBalance)
        ensures
            r == self@.joy.usable_balance(id),
    {
        self.joy.usable_balance(id)
    }

    /// The reserve-currency balance of `id` with its locks.
    pub fn joy_account(&self, id: JoyAccountId) -> (r: crate::joy::JoyAccount)
        ensures
            r == self@.joy.account(id),
    {
        self.joy.account(id)
    }

    /// The reserve currency in existence.
    pub fn joy_total_issuance(&self) -> (r: JoyBalance)
        ensures
            r == self@.joy.total_issuance,
    {
        self.joy.total_issuance()
    }

    /// Moves the ledger on to block `block`. The block height never goes
    /// back: an earlier block leaves the ledger where it is.
    pub fn set_block_number(&mut self, block: BlockNumber)
        requires
            old(self).wf(),
        ensures
            final(self).wf(),
            final(self)@ == (LedgerView {
                block: if block >= old(self)@.block {
                    block
                } else {
                    old(self)@.block
                },
                ..old(self)@
            }),
    {
        if block >= self.block_number {
            self.block_number = block;
        }
        proof {
            old(self)@.lemma_inv_frame(self@);
        }
    }

    /// Moves the ledger `blocks` blocks on.
    pub fn increase_block_number_by(&mut self, blocks: BlockNumber)
        requires
            old(self).wf(),
        ensures
            final(self).wf(),
            final(self)@ == (LedgerView { block: sat_add_block(old(self)@.block, blocks), ..old(self)@ }),
    {
        self.block_number = saturating_add_block(self.block_number, blocks);
        proof {
            old(self)@.lemma_inv_frame(self@);
        }
    }

    /// Registers the member `m` under the controller account `controller`.
    pub fn set_member(&mut self, m: MemberId, controller: AccountId)
        requires
            old(self).wf(),
        ensures
            final(self).wf(),
            final(self)@ == (LedgerView { members: old(self)@.members.insert(m, controller), ..old(self)@ }),
    {
        self.members.set_member(m, controller);
        proof {
            old(self)@.lemma_inv_frame(self@);
        }
    }

    /// Creates `amount` of reserve currency in `id`.
    pub fn increase_account_balance(&mut self, id: JoyAccountId, amount: JoyBalance)
        requires
            old(self).wf(),
        ensures
            final(self).wf(),
            final(self)@ == old(self)@.with_joy(old(self)@.joy.minted(id, amount)),
    {
        self.joy.deposit(id, amount);
        proof {
            old(self)@.lemma_inv_frame(self@);
        }
    }

    /// Destroys `amount` of the reserve currency of `id`, as far as its
    /// balance goes.
    pub fn slash_account_balance(&mut self, id: JoyAccountId, amount: JoyBalance)
        requires
            old(self).wf(),
        ensures
            final(self).wf(),
            final(self)@ == old(self)@.with_joy(old(self)@.joy.burned(id, amount)),
    {
        let _moved = self.joy.burn(id, amount);
        proof {
            old(self)@.lemma_inv_frame(self@);
        }
    }

    /// Puts `amount` of the balance of `id` under the invitation lock.
    pub fn set_invitation_lock(&mut self, id: JoyAccountId, amount: JoyBalance)
        requires
            old(self).wf(),
        ensures
            final(self).wf(),
            final(self)@ == old(self)@.with_joy(
                old(self)@.joy.with_account(
                    id,
                    crate::joy::JoyAccount { invitation_lock: amount, ..old(self)@.joy.account(id) },
                ),
            ),
    {
        self.joy.set_invitation_lock(id, amount);
        proof {
            old(self)@.lemma_inv_frame(self@);
        }
    }

    /// Puts `amount` of the balance of `id` under a lock that no payment
    /// may use.
    pub fn set_staking_candidate_lock(&mut self, id: JoyAccountId, amount: JoyBalance)
        requires
            old(self).wf(),
        ensures
            final(self).wf(),
            final(self)@ == old(self)@.with_joy(
                old(self)@.joy.with_account(
                    id,
                    crate::joy::JoyAccount { other_lock: amount, ..old(self)@.joy.account(id) },
                ),
            ),
    {
        self.joy.set_other_lock(id, amount);
        proof {
            old(self)@.lemma_inv_frame(self@);
        }
    }
}

} // verus!
