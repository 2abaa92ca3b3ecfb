//! The membership oracle: which members exist, and which account controls
//! each of them.
use crate::account::{AccountId, MemberId};
use std::collections::BTreeMap;
use vstd::prelude::*;

verus! {

/// The members that exist, each with its controller account.
#[derive(Clone, Debug, PartialEq, Eq)]
pub struct Membership {
    controllers: BTreeMap<MemberId, AccountId>,
}

impl View for Membership {
    type V = Map<MemberId, AccountId>;

    closed spec fn view(&self) -> Map<MemberId, AccountId> {
        self.controllers@
    }
}

/// Whether `account` controls the existing member `member_id`.
pub open spec fn controls(members: Map<MemberId, AccountId>, member_id: MemberId, account: AccountId) -> bool {
    members.contains_key(member_id) && members[member_id] == account
}

impl Membership {
    /// No member at all.
    pub fn new() -> (r: Self)
        ensures
            r@ == Map::<MemberId, AccountId>::empty(),
    {
        Membership { controllers: BTreeMap::new() }
    }

    /// Registers `member_id` under the controller `controller`, in place
    /// of any earlier one.
    pub fn set_member(&mut self, member_id: MemberId, controller: AccountId)
        ensures
            final(self)@ == old(self)@.insert(member_id, controller),
    {
        broadcast use vstd::std_specs::btree::group_btree_axioms;
        broadcast use vstd::laws_cmp::group_laws_cmp;

        self.controllers.insert(member_id, controller);
    }

    /// Whether the member exists.
    pub fn is_member(&self, member_id: MemberId) -> (r: bool)
        ensures
            r == self@.contains_key(member_id),
    {
        broadcast use vstd::std_specs::btree::group_btree_axioms;
        broadcast use vstd::laws_cmp::group_laws_cmp;

        self.controllers.contains_key(&member_id)
    }

    /// The controller account of the member, if the member exists.
    pub fn controller_account_id(&self, member_id: MemberId) -> (r: Option<AccountId>)
        ensures
            r == (if self@.contains_key(member_id) {
                Some(self@[member_id])
            } else {
                None
            }),
    {
        broadcast use vstd::std_specs::btree::group_btree_axioms;
        broadcast use vstd::laws_cmp::group_laws_cmp;

        match self.controllers.get(&member_id) {
            Some(a) => Some(*a),
            None => None,
        }
    }

    /// Whether `account` controls the existing member `member_id`.
    pub fn is_member_controller_account(&self, member_id: MemberId, account: AccountId) -> (r: bool)
        ensures
            r == controls(self@, member_id, account),
    {
        match self.controller_account_id(member_id) {
            Some(a) => a == account,
            None => false,
        }
    }
}

} // verus!
