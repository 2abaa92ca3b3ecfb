//! Transfer locations: a destination account together with what it takes
//! to show that the account may hold the token.
use crate::account::AccountId;
use crate::errors::Error;
use crate::merkle::{merkle_verifies, MerkleProof};
use crate::token::{TokenData, TransferPolicy};
use vstd::prelude::*;

verus! {

/// A destination that knows whether it fits a transfer policy.
pub trait TransferLocationTrait<Account, Policy> {
    /// Whether the location may receive under `policy`.
    spec fn valid_for(&self, policy: Policy) -> bool;

    /// The account that the location stands for.
    spec fn account_of(&self) -> Account;

    /// Whether the location may receive under `policy`.
    fn is_valid_location_for_policy(&self, policy: &Policy) -> (r: bool)
        ensures
            r == self.valid_for(*policy),
    ;

    /// The account that the location stands for.
    fn location_account(&self) -> (r: Account)
        ensures
            r == self.account_of(),
    ;
}

/// A destination without a proof: it fits permissionless tokens only.
#[derive(Clone, Copy, Debug, PartialEq, Eq)]
pub struct SimpleLocation<Account> {
    pub account: Account,
}

/// A destination with a merkle proof of its place on a whitelist.
#[derive(Clone, Debug, PartialEq, Eq)]
pub struct VerifiableLocation {
    pub merkle_proof: MerkleProof,
    pub account: AccountId,
}

impl<Account: Copy> SimpleLocation<Account> {
    /// The location of `account`.
    pub fn new(account: Account) -> (r: Self)
        ensures
            r.account == account,
    {
        SimpleLocation { account }
    }
}

impl<Account: Copy> TransferLocationTrait<Account, TransferPolicy> for SimpleLocation<Account> {
    open spec fn valid_for(&self, policy: TransferPolicy) -> bool {
        policy is Permissionless
    }

    open spec fn account_of(&self) -> Account {
        self.account
    }

    fn is_valid_location_for_policy(&self, policy: &TransferPolicy) -> (r: bool) {
        match policy {
            TransferPolicy::Permissionless => true,
            TransferPolicy::Permissioned(_) => false,
        }
    }

    fn location_account(&self) -> (r: Account) {
        self.account
    }
}

impl VerifiableLocation {
    /// The location of `account`, with the proof of its place on a whitelist.
    pub fn new(merkle_proof: MerkleProof, account: AccountId) -> (r: Self)
        ensures
            r.merkle_proof == merkle_proof,
            r.account == account,
    {
        VerifiableLocation { merkle_proof, account }
    }

    /// Whether the proof leads from the account to `commit`.
    pub fn is_merkle_proof_valid(&self, commit: &crate::merkle::H256) -> (r: bool)
        ensures
            r == merkle_verifies(self.account, self.merkle_proof.path(), *commit),
    {
        self.merkle_proof.verify(self.account, commit)
    }
}

impl TransferLocationTrait<AccountId, TransferPolicy> for VerifiableLocation {
    open spec fn valid_for(&self, policy: TransferPolicy) -> bool {
        match policy {
            TransferPolicy::Permissioned(commit) => merkle_verifies(
                self.account,
                self.merkle_proof.path(),
                commit,
            ),
            TransferPolicy::Permissionless => true,
        }
    }

    open spec fn account_of(&self) -> AccountId {
        self.account
    }

    fn is_valid_location_for_policy(&self, policy: &TransferPolicy) -> (r: bool) {
        match policy {
            TransferPolicy::Permissioned(commit) => self.is_merkle_proof_valid(commit),
            TransferPolicy::Permissionless => true,
        }
    }

    fn location_account(&self) -> (r: AccountId) {
        self.account
    }
}

impl TokenData {
    /// `Ok` exactly when `location` may receive under the token's policy.
    pub fn ensure_valid_location_for_policy<Account, Location: TransferLocationTrait<Account, TransferPolicy>>(
        &self,
        location: &Location,
    ) -> (r: Result<(), Error>)
        ensures
            r == (if location.valid_for(self.transfer_policy) {
                Ok::<(), Error>(())
            } else {
                Err(Error::LocationIncompatibleWithCurrentPolicy)
            }),
    {
        if location.is_valid_location_for_policy(&self.transfer_policy) {
            Ok(())
        } else {
            Err(Error::LocationIncompatibleWithCurrentPolicy)
        }
    }
}

} // verus!
