use vstd::prelude::*;

verus! {

/// The error taxonomy of the escrow. Every failure is detected synchronously
/// and causes the enclosing operation to have no effect; the caller receives
/// the specific kind.
///
/// `InvalidAmount` is declared for completeness of the taxonomy but is never
/// produced by any transition.
#[derive(Clone, Copy, Debug, PartialEq, Eq, Structural)]
pub enum EscrowError {
    /// An encrypted amount was rejected (reserved; never produced).
    InvalidAmount,
    /// An account identity does not match the record, or an account is not an
    /// instance of the expected token standard.
    InvalidTokenAccount,
    /// A caller or identity does not match the recorded initializer, or the
    /// purported owner does not control the account.
    InvalidInitializer,
    /// An asset identifier does not match the recorded one.
    InvalidMint,
    /// An opaque ciphertext payload has the wrong width.
    MalformedCiphertext,
    /// The external verifier rejected the supplied transfer proof.
    ProofInvalid,
    /// The recomputed capability address does not match the recorded one, or
    /// no capability address can be derived.
    AuthorityMismatch,
}

} // verus!
