use vstd::prelude::*;

use crate::address::Address;
use crate::codec::{DecryptableBalance, EncryptedBalance};

verus! {

/// What the escrow reads of a ledger token account: its identity, the
/// program that owns it (the token standard it is an instance of), and the
/// identity that currently controls it. Balances are not modelled here; they
/// are ciphertexts that only the confidential-transfer collaborator touches.
#[derive(Clone, Copy, Debug, PartialEq)]
#[verifier::ext_equal]
pub struct TokenAccount {
    /// The account's own identity on the ledger.
    pub address: Address,
    /// The program that owns the account.
    pub owner_program: Address,
    /// The identity that currently controls the account.
    pub authority: Address,
}

/// The persisted record describing an in-flight escrow.
#[derive(Clone, Copy, Debug, PartialEq)]
#[verifier::ext_equal]
pub struct Escrow {
    /// The party who created the escrow.
    pub initializer: Address,
    /// Asset identifier of the offered leg.
    pub initializer_mint: Address,
    /// Asset identifier of the expected counter leg.
    pub taker_mint: Address,
    /// The initializer's funding account, custodied while the escrow lives.
    pub initializer_deposit_account: Address,
    /// The initializer's destination account for the counter leg.
    pub initializer_receive_account: Address,
    /// Ciphertext of the amount offered, decryptable by the initializer.
    pub initializer_decryptable_available_balance: DecryptableBalance,
    /// Ciphertext of the counter-amount expected from the taker.
    pub taker_amount: EncryptedBalance,
}

/// The storage slot that holds at most one live [`Escrow`] record. Both
/// terminal transitions of the state machine destroy the record, leaving the
/// slot empty.
#[derive(Clone, Copy, Debug)]
#[verifier::ext_equal]
pub struct EscrowStore {
    /// The live record, if any.
    pub record: Option<Escrow>,
}

/// One confidential transfer ordered by a successful exchange: the
/// instruction to the external confidential-transfer primitive. The escrow
/// decides the legs; the surrounding environment performs them, all within
/// the one indivisible operation.
#[derive(Clone, Copy, Debug, PartialEq)]
#[verifier::ext_equal]
pub struct TransferLeg {
    /// The account the ciphertext amount leaves.
    pub source: Address,
    /// The account the ciphertext amount reaches.
    pub destination: Address,
    /// The asset moved.
    pub mint: Address,
    /// The source owner's new decryptable balance after the transfer.
    pub new_source_decryptable_available_balance: DecryptableBalance,
    /// The identity that signs the transfer.
    pub authority: Address,
    /// Positional reference to where the proof material is supplied in the
    /// surrounding operation; not interpreted by the escrow.
    pub proof_instruction_offset: i8,
}

} // verus!
