use confidential_escrow::address::Address;
use confidential_escrow::codec::{Transferdata, TRANSFER_PROOF_LEN};
use confidential_escrow::error::EscrowError;
use confidential_escrow::gateway::verify;
use confidential_escrow::instructions::authority_change_instruction;
use solana_zk_sdk::encryption::elgamal::ElGamalKeypair;
use solana_zk_sdk::encryption::pedersen::Pedersen;
use solana_zk_sdk::zk_elgamal_proof_program::proof_data::CiphertextCommitmentEqualityProofData;

fn proof_data(amount: u64) -> CiphertextCommitmentEqualityProofData {
    let keypair = ElGamalKeypair::new_rand();
    let ciphertext = keypair.pubkey().encrypt(amount);
    let (commitment, opening) = Pedersen::new(amount);
    CiphertextCommitmentEqualityProofData::new(&keypair, &ciphertext, &commitment, &opening, amount)
        .unwrap()
}

#[test]
fn proof_payload_width_matches_the_verifier() {
    assert_eq!(TRANSFER_PROOF_LEN, core::mem::size_of::<CiphertextCommitmentEqualityProofData>());
}

#[test]
fn a_genuine_proof_is_accepted() {
    let data = proof_data(123);
    let payload = Transferdata::decode(bytemuck::bytes_of(&data)).unwrap();
    assert!(verify(&payload).is_ok());
}

#[test]
fn a_tampered_proof_is_rejected() {
    let data = proof_data(123);
    let mut bytes = bytemuck::bytes_of(&data).to_vec();
    bytes[200] ^= 1;
    let payload = Transferdata::decode(&bytes).unwrap();
    assert_eq!(verify(&payload).unwrap_err(), EscrowError::ProofInvalid);
}

#[test]
fn an_all_zero_proof_is_rejected() {
    let payload = Transferdata::new([0; TRANSFER_PROOF_LEN]);
    assert_eq!(verify(&payload).unwrap_err(), EscrowError::ProofInvalid);
}

#[test]
fn authority_change_needs_the_token_program() {
    let token_2022 = Address::new(spl_token_2022::id().to_bytes());
    let owned = Address::new([30; 32]);
    let new_authority = Address::new([5; 32]);
    let owner = Address::new([1; 32]);
    let ix = authority_change_instruction(&token_2022, &owned, &new_authority, &owner);
    assert!(ix.is_some());
    let ix = ix.unwrap();
    assert_eq!(ix.program_id.to_bytes(), token_2022.to_bytes());

    let stranger = Address::new([77; 32]);
    assert!(authority_change_instruction(&stranger, &owned, &new_authority, &owner).is_none());
}
