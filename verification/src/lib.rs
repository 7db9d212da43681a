//! An atomic-swap escrow for confidential (encrypted) token balances.
//!
//! Two parties exchange opaque, ciphertext-denominated amounts of two
//! different assets without revealing plaintext values. A custody mechanism
//! guarantees that neither party can unilaterally withdraw before the trade
//! completes or is cancelled: while an escrow is live, control of the
//! initializer's deposit account belongs to a program-derived capability
//! address.
//!
//! The crate is organised leaf to root:
//! - [`address`] — fixed-width ledger identities;
//! - [`error`] — the error taxonomy;
//! - [`codec`] — fixed-size opaque serialization for ciphertext-typed values;
//! - [`ledger`] — what the escrow reads and writes of ledger state: token
//!   accounts, the persisted record, the ordered transfer legs;
//! - [`delegation`] — derivation and transfer of account control to and from
//!   the program-derived capability address;
//! - [`gateway`] — validation of an externally supplied transfer proof;
//! - [`instructions`] — the token-standard instructions the escrow emits;
//! - [`protocol`] — the escrow state machine: initialize, exchange, cancel.

pub mod address;
pub mod codec;
pub mod delegation;
pub mod error;
pub mod gateway;
pub mod instructions;
pub mod ledger;
pub mod protocol;
