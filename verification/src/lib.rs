//! Fungible-token issuance and accounting engine.
//!
//! A [`ledger::TokenLedger`] owns every token, every token account, the
//! reserve-currency balances that the token operations move and the
//! membership that they consult. Several mechanisms are layered on the one
//! balance of an account: vesting schedules, a bonding-curve market maker,
//! a timed public sale, revenue splits, patronage, bloat bonds and
//! whitelisted transfers.
//!
//! Each operation validates fully against the current state and only then
//! mutates, so that a rejected call leaves the ledger unchanged. What an
//! operation does is stated over [`ledger::LedgerView`], the mathematical
//! value of a ledger, and the ledger's invariant ties the supply of each
//! token to the amounts of its accounts.
//!
//! The modules, leaves first:
//! - [`arith`]: fractions in millionths and overflow-aware arithmetic;
//! - [`errors`], [`events`]: the typed failures and the domain events;
//! - [`merkle`], [`locations`]: hashing, merkle proofs and transfer
//!   locations;
//! - [`vesting`], [`schedules`], [`account`]: vesting schedules and token
//!   accounts;
//! - [`joy`], [`membership`]: the reserve currency and the member oracle;
//! - [`sale`], [`split`], [`amm`], [`token`]: what is kept for each token;
//! - [`supply`]: sums over the accounts of a token;
//! - [`ledger`]: the ledger, its invariant and its operations;
//! - [`dispatch`]: one command type over all operations;
//! - [`laws`]: what holds across operations;
//! - [`content`], [`blog`]: the content directory that tokens are issued
//!   for, and sample content.
pub mod arith;
pub mod errors;
pub mod merkle;
pub mod vesting;
pub mod schedules;
pub mod account;
pub mod joy;
pub mod membership;
pub mod split;
pub mod amm;
pub mod sale;
pub mod token;
pub mod locations;
pub mod supply;
pub mod events;
pub mod ledger;
pub mod dispatch;
pub mod laws;
pub mod content;
pub mod blog;
