use vstd::prelude::*;

use crate::codec::{Transferdata, TRANSFER_PROOF_LEN};
use crate::error::EscrowError;
use solana_zk_sdk::zk_elgamal_proof_program::proof_data::{
    CiphertextCommitmentEqualityProofData, ZkProofData,
};

verus! {

/// Whether the external verifier accepts the transfer proof. Acceptance is a
/// function of the proof bytes alone; what it certifies is not restated
/// here.
pub uninterp spec fn transfer_proof_valid(proof: Seq<u8>) -> bool;

/// Relies on `CiphertextCommitmentEqualityProofData::verify_proof` of
/// solana-zk-sdk: whether a proof payload verifies depends on its bytes
/// alone.
#[verifier::external_body]
fn verify_proof_bytes(proof: &[u8; TRANSFER_PROOF_LEN]) -> (r: bool)
    ensures
        r == transfer_proof_valid(proof@),
{
    let data: &CiphertextCommitmentEqualityProofData = bytemuck::from_bytes(proof);
    data.verify_proof().is_ok()
}

/// Forward the externally supplied proof to the external verifier and
/// propagate its verdict. Succeeds exactly when the verifier accepts the
/// payload; any rejection is reported as `ProofInvalid`.
pub fn verify(proof_payload: &Transferdata) -> (r: Result<(), EscrowError>)
    ensures
        (r matches Ok(())) <==> transfer_proof_valid(proof_payload@),
        r matches Err(e) ==> e == EscrowError::ProofInvalid,
{
    if verify_proof_bytes(proof_payload.raw_bytes()) {
        Ok(())
    } else {
        Err(EscrowError::ProofInvalid)
    }
}

} // verus!
