use confidential_escrow::address::Address;
use confidential_escrow::codec::{
    DecryptableBalance, EncryptedBalance, Transferdata, DECRYPTABLE_BALANCE_LEN,
    ENCRYPTED_BALANCE_LEN,
};
use confidential_escrow::delegation::derive_capability;
use confidential_escrow::error::EscrowError;
use confidential_escrow::ledger::{EscrowStore, TokenAccount};
use confidential_escrow::protocol::{
    cancel_escrow, exchange, initialize_escrow, CancelEscrow, Exchange, InitializeEscrow,
};
use solana_program::pubkey::Pubkey;
use solana_zk_sdk::encryption::elgamal::ElGamalKeypair;
use solana_zk_sdk::encryption::pedersen::Pedersen;
use solana_zk_sdk::zk_elgamal_proof_program::proof_data::CiphertextCommitmentEqualityProofData;

fn addr(tag: u8) -> Address {
    Address::new([tag; 32])
}

fn program_id() -> Address {
    addr(9)
}

fn token_program() -> Address {
    addr(2)
}

fn offered_balance() -> DecryptableBalance {
    DecryptableBalance::new([11; DECRYPTABLE_BALANCE_LEN])
}

fn counter_amount() -> EncryptedBalance {
    EncryptedBalance::new([22; ENCRYPTED_BALANCE_LEN])
}

/// A freshly initialized escrow: the bundle after a successful initialize,
/// together with the capability address custody was delegated to.
fn initialized() -> (InitializeEscrow, Address) {
    let deposit = TokenAccount {
        address: addr(30),
        owner_program: token_program(),
        authority: addr(1), // initializer A
    };
    let receive = TokenAccount {
        address: addr(31),
        owner_program: token_program(),
        authority: addr(1),
    };
    let mut ctx = InitializeEscrow {
        escrow: EscrowStore { record: None },
        initializer_deposit_token_account: deposit,
        initializer_receive_account: receive,
        initializer: addr(1),
        initializer_mint: addr(41),
        taker_mint: addr(42),
        token_program: token_program(),
    };
    initialize_escrow(&mut ctx, &program_id(), offered_balance(), counter_amount()).unwrap();
    let (capability, _bump) = derive_capability(&program_id()).unwrap();
    (ctx, capability)
}

fn exchange_bundle(post: &InitializeEscrow, capability: Address) -> Exchange {
    Exchange {
        taker: addr(7),
        initializer: addr(1),
        taker_receive_token_account: TokenAccount {
            address: addr(50),
            owner_program: token_program(),
            authority: addr(7),
        },
        taker_deposit_token_account: TokenAccount {
            address: addr(51),
            owner_program: token_program(),
            authority: addr(7),
        },
        initializer_receive_account: post.initializer_receive_account,
        pda_deposit_token_account: post.initializer_deposit_token_account,
        initializer_main_account: addr(1),
        initializer_mint: addr(41),
        taker_mint: addr(42),
        escrow: post.escrow,
        pda_account: capability,
        token_program: token_program(),
    }
}

fn valid_proof() -> Transferdata {
    let keypair = ElGamalKeypair::new_rand();
    let amount: u64 = 55;
    let ciphertext = keypair.pubkey().encrypt(amount);
    let (commitment, opening) = Pedersen::new(amount);
    let data = CiphertextCommitmentEqualityProofData::new(
        &keypair,
        &ciphertext,
        &commitment,
        &opening,
        amount,
    )
    .unwrap();
    Transferdata::decode(bytemuck::bytes_of(&data)).unwrap()
}

fn invalid_proof() -> Transferdata {
    Transferdata::new([0; 320])
}

fn taker_balance() -> DecryptableBalance {
    DecryptableBalance::new([33; DECRYPTABLE_BALANCE_LEN])
}

#[test]
fn initialize_delegates_and_stores() {
    let (post, capability) = initialized();
    let record = post.escrow.record.expect("record persisted");
    assert_eq!(record.initializer, addr(1));
    assert_eq!(record.initializer_mint, addr(41));
    assert_eq!(record.taker_mint, addr(42));
    assert_eq!(record.initializer_deposit_account, addr(30));
    assert_eq!(record.initializer_receive_account, addr(31));
    assert_eq!(record.initializer_decryptable_available_balance, offered_balance());
    assert_eq!(record.taker_amount, counter_amount());
    // custody went to the capability address that the ledger's own
    // derivation gives for the fixed seed and this program identity
    let (expected, _bump) =
        Pubkey::find_program_address(&[b"escrow"], &Pubkey::new_from_array([9; 32]));
    assert_eq!(capability.to_bytes(), expected.to_bytes());
    assert_eq!(post.initializer_deposit_token_account.authority, capability);
}

#[test]
fn second_initialize_for_same_deposit_fails() {
    let (post, _capability) = initialized();
    // a fresh record slot, but the deposit account is already custodied
    let mut again = InitializeEscrow {
        escrow: EscrowStore { record: None },
        initializer_deposit_token_account: post.initializer_deposit_token_account,
        initializer_receive_account: post.initializer_receive_account,
        initializer: addr(1),
        initializer_mint: addr(41),
        taker_mint: addr(42),
        token_program: token_program(),
    };
    let before = again.initializer_deposit_token_account;
    let err = initialize_escrow(&mut again, &program_id(), offered_balance(), counter_amount())
        .unwrap_err();
    assert_eq!(err, EscrowError::InvalidInitializer);
    assert_eq!(again.initializer_deposit_token_account, before);
}

#[test]
fn initialize_rejects_foreign_token_account() {
    let mut ctx = InitializeEscrow {
        escrow: EscrowStore { record: None },
        initializer_deposit_token_account: TokenAccount {
            address: addr(30),
            owner_program: addr(77), // not the token standard
            authority: addr(1),
        },
        initializer_receive_account: TokenAccount {
            address: addr(31),
            owner_program: token_program(),
            authority: addr(1),
        },
        initializer: addr(1),
        initializer_mint: addr(41),
        taker_mint: addr(42),
        token_program: token_program(),
    };
    let err = initialize_escrow(&mut ctx, &program_id(), offered_balance(), counter_amount())
        .unwrap_err();
    assert_eq!(err, EscrowError::InvalidTokenAccount);
    assert!(ctx.escrow.record.is_none());
}

#[test]
fn initialize_rejects_occupied_slot() {
    let (post, _) = initialized();
    let mut ctx = InitializeEscrow {
        escrow: post.escrow, // already holds a record
        initializer_deposit_token_account: TokenAccount {
            address: addr(60),
            owner_program: token_program(),
            authority: addr(1),
        },
        initializer_receive_account: TokenAccount {
            address: addr(61),
            owner_program: token_program(),
            authority: addr(1),
        },
        initializer: addr(1),
        initializer_mint: addr(41),
        taker_mint: addr(42),
        token_program: token_program(),
    };
    let err = initialize_escrow(&mut ctx, &program_id(), offered_balance(), counter_amount())
        .unwrap_err();
    assert_eq!(err, EscrowError::InvalidTokenAccount);
}

#[test]
fn exchange_swaps_and_restores() {
    let (post, capability) = initialized();
    let mut ctx = exchange_bundle(&post, capability);
    let legs = exchange(&mut ctx, &program_id(), 1, valid_proof(), taker_balance()).unwrap();
    assert_eq!(legs.len(), 2);
    // leg A: the offered amount leaves the custodied deposit account for
    // the taker's receive account, signed by the capability address
    assert_eq!(legs[0].source, addr(30));
    assert_eq!(legs[0].destination, addr(50));
    assert_eq!(legs[0].mint, addr(41));
    assert_eq!(legs[0].new_source_decryptable_available_balance, offered_balance());
    assert_eq!(legs[0].authority, capability);
    assert_eq!(legs[0].proof_instruction_offset, -1);
    // leg B: the counter-amount leaves the taker's deposit account for the
    // initializer's receive account, signed by the taker
    assert_eq!(legs[1].source, addr(51));
    assert_eq!(legs[1].destination, addr(31));
    assert_eq!(legs[1].mint, addr(42));
    assert_eq!(legs[1].new_source_decryptable_available_balance, taker_balance());
    assert_eq!(legs[1].authority, addr(7));
    assert_eq!(legs[1].proof_instruction_offset, 1);
    // custody restored to the initializer, record closed
    assert_eq!(ctx.pda_deposit_token_account.authority, addr(1));
    assert!(ctx.escrow.record.is_none());
}

#[test]
fn exchange_with_wrong_mint_fails_before_anything_moves() {
    let (post, capability) = initialized();
    let mut ctx = exchange_bundle(&post, capability);
    ctx.taker_mint = addr(99); // does not match the recorded taker mint
    let err = exchange(&mut ctx, &program_id(), 1, valid_proof(), taker_balance()).unwrap_err();
    assert_eq!(err, EscrowError::InvalidMint);
    // no transfer, custody unchanged: still delegated
    assert!(ctx.escrow.record.is_some());
    assert_eq!(ctx.pda_deposit_token_account.authority, capability);
}

#[test]
fn exchange_with_invalid_proof_leaves_custody_delegated() {
    let (post, capability) = initialized();
    let mut ctx = exchange_bundle(&post, capability);
    let err = exchange(&mut ctx, &program_id(), 1, invalid_proof(), taker_balance()).unwrap_err();
    assert_eq!(err, EscrowError::ProofInvalid);
    // neither leg is observable and the authority is still the capability
    assert!(ctx.escrow.record.is_some());
    assert_eq!(ctx.pda_deposit_token_account.authority, capability);
}

#[test]
fn exchange_with_wrong_initializer_fails() {
    let (post, capability) = initialized();
    let mut ctx = exchange_bundle(&post, capability);
    ctx.initializer_main_account = addr(88);
    let err = exchange(&mut ctx, &program_id(), 1, valid_proof(), taker_balance()).unwrap_err();
    assert_eq!(err, EscrowError::InvalidInitializer);
}

#[test]
fn exchange_with_wrong_deposit_account_fails() {
    let (post, capability) = initialized();
    let mut ctx = exchange_bundle(&post, capability);
    ctx.pda_deposit_token_account.address = addr(66);
    let err = exchange(&mut ctx, &program_id(), 1, valid_proof(), taker_balance()).unwrap_err();
    assert_eq!(err, EscrowError::InvalidTokenAccount);
}

#[test]
fn exchange_with_wrong_capability_fails() {
    let (post, capability) = initialized();
    let mut ctx = exchange_bundle(&post, capability);
    ctx.pda_account = addr(123); // not the derived capability address
    let err = exchange(&mut ctx, &program_id(), 1, valid_proof(), taker_balance()).unwrap_err();
    assert_eq!(err, EscrowError::AuthorityMismatch);
}

#[test]
fn cancel_restores_original_authority() {
    let (post, capability) = initialized();
    let mut ctx = CancelEscrow {
        initializer: addr(1),
        pda_deposit_token_account: post.initializer_deposit_token_account,
        pda_account: capability,
        escrow: post.escrow,
        token_program: token_program(),
    };
    cancel_escrow(&mut ctx, &program_id()).unwrap();
    // exactly the authority the account had before initialize
    assert_eq!(ctx.pda_deposit_token_account.authority, addr(1));
    assert!(ctx.escrow.record.is_none());
}

#[test]
fn cancel_by_stranger_fails() {
    let (post, capability) = initialized();
    let mut ctx = CancelEscrow {
        initializer: addr(88), // not the recorded initializer
        pda_deposit_token_account: post.initializer_deposit_token_account,
        pda_account: capability,
        escrow: post.escrow,
        token_program: token_program(),
    };
    let err = cancel_escrow(&mut ctx, &program_id()).unwrap_err();
    assert_eq!(err, EscrowError::InvalidInitializer);
    assert!(ctx.escrow.record.is_some());
}

#[test]
fn terminal_transitions_are_not_repeatable() {
    let (post, capability) = initialized();
    // settle the escrow
    let mut done = exchange_bundle(&post, capability);
    exchange(&mut done, &program_id(), 1, valid_proof(), taker_balance()).unwrap();
    assert!(done.escrow.record.is_none());
    // a second exchange referencing the closed record fails
    let mut again = done;
    let err = exchange(&mut again, &program_id(), 1, valid_proof(), taker_balance()).unwrap_err();
    assert_eq!(err, EscrowError::InvalidTokenAccount);
    // and so does a cancel
    let mut cancel_ctx = CancelEscrow {
        initializer: addr(1),
        pda_deposit_token_account: done.pda_deposit_token_account,
        pda_account: capability,
        escrow: done.escrow,
        token_program: token_program(),
    };
    let err = cancel_escrow(&mut cancel_ctx, &program_id()).unwrap_err();
    assert_eq!(err, EscrowError::InvalidTokenAccount);
}
