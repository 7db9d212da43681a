use vstd::prelude::*;

use crate::address::{Address, lemma_address_eq_view};
use crate::codec::{DecryptableBalance, EncryptedBalance, Transferdata};
use crate::delegation::{capability_of, delegate, delegate_error, restore, restore_error};
use crate::error::EscrowError;
use crate::gateway::{transfer_proof_valid, verify};
use crate::ledger::{Escrow, EscrowStore, TokenAccount, TransferLeg};

verus! {

/// The accounts an initialize operates on: a fresh record slot, the
/// initializer's funding and destination accounts, the initializer's own
/// identity (the signer), the two asset identifiers the trade is quoted in,
/// and the token standard's program identity.
#[derive(Clone, Copy, Debug)]
#[verifier::ext_equal]
pub struct InitializeEscrow {
    /// The slot the new record is persisted in; must be empty.
    pub escrow: EscrowStore,
    /// The account whose control is delegated while the escrow lives.
    pub initializer_deposit_token_account: TokenAccount,
    /// The initializer's destination account for the counter leg.
    pub initializer_receive_account: TokenAccount,
    /// The party creating the escrow; must currently control the deposit
    /// account.
    pub initializer: Address,
    /// Asset identifier of the offered leg, recorded for later validation.
    pub initializer_mint: Address,
    /// Asset identifier of the expected counter leg, recorded for later
    /// validation.
    pub taker_mint: Address,
    /// The token standard both token accounts must be instances of.
    pub token_program: Address,
}

/// The accounts an exchange operates on, validated against the record
/// before anything moves.
#[derive(Clone, Copy, Debug)]
#[verifier::ext_equal]
pub struct Exchange {
    /// The counterparty completing the trade (the signer).
    pub taker: Address,
    /// The recorded initializer, as supplied by the caller.
    pub initializer: Address,
    /// The taker's destination account for the offered leg.
    pub taker_receive_token_account: TokenAccount,
    /// The taker's funding account for the counter leg.
    pub taker_deposit_token_account: TokenAccount,
    /// The initializer's destination account for the counter leg.
    pub initializer_receive_account: TokenAccount,
    /// The custodied deposit account; its control is restored on success.
    pub pda_deposit_token_account: TokenAccount,
    /// The initializer identity the record is validated against.
    pub initializer_main_account: Address,
    /// Asset identifier of the offered leg.
    pub initializer_mint: Address,
    /// Asset identifier of the counter leg.
    pub taker_mint: Address,
    /// The slot holding the live record; emptied on success.
    pub escrow: EscrowStore,
    /// The capability address custody was delegated to.
    pub pda_account: Address,
    /// The token standard's program identity.
    pub token_program: Address,
}

/// The accounts a cancel operates on.
#[derive(Clone, Copy, Debug)]
#[verifier::ext_equal]
pub struct CancelEscrow {
    /// The party asking custody back; must be the recorded initializer.
    pub initializer: Address,
    /// The custodied deposit account; its control is restored.
    pub pda_deposit_token_account: TokenAccount,
    /// The capability address custody was delegated to.
    pub pda_account: Address,
    /// The slot holding the live record; emptied on success.
    pub escrow: EscrowStore,
    /// The token standard's program identity.
    pub token_program: Address,
}

/// Why an initialize would be rejected, if at all: an account that is not an
/// instance of the expected token standard, an occupied record slot, or a
/// delegation failure.
pub open spec fn initialize_error(ctx: InitializeEscrow, program: Seq<u8>) -> Option<EscrowError> {
    if ctx.initializer_deposit_token_account.owner_program@ != ctx.token_program@ {
        Some(EscrowError::InvalidTokenAccount)
    } else if ctx.initializer_receive_account.owner_program@ != ctx.token_program@ {
        Some(EscrowError::InvalidTokenAccount)
    } else if ctx.escrow.record is Some {
        Some(EscrowError::InvalidTokenAccount)
    } else {
        delegate_error(ctx.initializer_deposit_token_account, ctx.initializer, program)
    }
}

/// The record an initialize persists: exactly the supplied fields.
pub open spec fn created_record(
    ctx: InitializeEscrow,
    new_source_decryptable_amount: DecryptableBalance,
    taker_amount: EncryptedBalance,
) -> Escrow {
    Escrow {
        initializer: ctx.initializer,
        initializer_mint: ctx.initializer_mint,
        taker_mint: ctx.taker_mint,
        initializer_deposit_account: ctx.initializer_deposit_token_account.address,
        initializer_receive_account: ctx.initializer_receive_account.address,
        initializer_decryptable_available_balance: new_source_decryptable_amount,
        taker_amount: taker_amount,
    }
}

/// Create the escrow: persist the record and delegate control of the
/// deposit account to the capability address. On failure nothing changes.
pub fn initialize_escrow(
    ctx: &mut InitializeEscrow,
    program_id: &Address,
    new_source_decryptable_amount: DecryptableBalance,
    taker_amount: EncryptedBalance,
) -> (r: Result<(), EscrowError>)
    ensures
        match r {
            Ok(()) => {
                &&& initialize_error(*old(ctx), program_id@) is None
                &&& final(ctx).escrow.record == Some(
                    created_record(*old(ctx), new_source_decryptable_amount, taker_amount),
                )
                &&& capability_of(program_id@) matches Some(p)
                    && final(ctx).initializer_deposit_token_account.authority@ == p.0
                &&& final(ctx).initializer_deposit_token_account.address == old(
                    ctx,
                ).initializer_deposit_token_account.address
                &&& final(ctx).initializer_deposit_token_account.owner_program == old(
                    ctx,
                ).initializer_deposit_token_account.owner_program
                &&& final(ctx).initializer_receive_account == old(ctx).initializer_receive_account
                &&& final(ctx).initializer == old(ctx).initializer
                &&& final(ctx).initializer_mint == old(ctx).initializer_mint
                &&& final(ctx).taker_mint == old(ctx).taker_mint
                &&& final(ctx).token_program == old(ctx).token_program
            },
            Err(e) => {
                &&& initialize_error(*old(ctx), program_id@) == Some(e)
                &&& *final(ctx) == *old(ctx)
            },
        },
{
    if !(ctx.initializer_deposit_token_account.owner_program == ctx.token_program) {
        return Err(EscrowError::InvalidTokenAccount);
    }
    if !(ctx.initializer_receive_account.owner_program == ctx.token_program) {
        return Err(EscrowError::InvalidTokenAccount);
    }
    if ctx.escrow.record.is_some() {
        return Err(EscrowError::InvalidTokenAccount);
    }
    let record = Escrow {
        initializer: ctx.initializer,
        initializer_mint: ctx.initializer_mint,
        taker_mint: ctx.taker_mint,
        initializer_deposit_account: ctx.initializer_deposit_token_account.address,
        initializer_receive_account: ctx.initializer_receive_account.address,
        initializer_decryptable_available_balance: new_source_decryptable_amount,
        taker_amount: taker_amount,
    };
    let initializer = ctx.initializer;
    match delegate(&mut ctx.initializer_deposit_token_account, &initializer, program_id) {
        Err(e) => Err(e),
        Ok(_capability) => {
            ctx.escrow.record = Some(record);
            Ok(())
        },
    }
}

/// Whether every referential check of an exchange passes: a live record
/// whose account identities, initializer identity and asset identifiers
/// exactly match the supplied ones.
pub open spec fn references_match(ctx: Exchange) -> bool {
    match ctx.escrow.record {
        None => false,
        Some(rec) => {
            &&& rec.initializer_deposit_account@ == ctx.pda_deposit_token_account.address@
            &&& rec.initializer_receive_account@ == ctx.initializer_receive_account.address@
            &&& rec.initializer@ == ctx.initializer_main_account@
            &&& rec.initializer@ == ctx.initializer@
            &&& rec.initializer_mint@ == ctx.initializer_mint@
            &&& rec.taker_mint@ == ctx.taker_mint@
        },
    }
}

/// Why an exchange would be rejected, if at all, in the order the checks
/// run: referential integrity first, then the external verifier's verdict,
/// then the custody restoration's own authority check.
pub open spec fn exchange_error(ctx: Exchange, program: Seq<u8>, proof: Seq<u8>) -> Option<EscrowError> {
    match ctx.escrow.record {
        None => Some(EscrowError::InvalidTokenAccount),
        Some(rec) => {
            if rec.initializer_deposit_account@ != ctx.pda_deposit_token_account.address@ {
                Some(EscrowError::InvalidTokenAccount)
            } else if rec.initializer_receive_account@ != ctx.initializer_receive_account.address@ {
                Some(EscrowError::InvalidTokenAccount)
            } else if rec.initializer@ != ctx.initializer_main_account@ {
                Some(EscrowError::InvalidInitializer)
            } else if rec.initializer@ != ctx.initializer@ {
                Some(EscrowError::InvalidInitializer)
            } else if rec.initializer_mint@ != ctx.initializer_mint@ {
                Some(EscrowError::InvalidMint)
            } else if rec.taker_mint@ != ctx.taker_mint@ {
                Some(EscrowError::InvalidMint)
            } else if !transfer_proof_valid(proof) {
                Some(EscrowError::ProofInvalid)
            } else {
                restore_error(ctx.pda_deposit_token_account, ctx.pda_account, program)
            }
        },
    }
}

/// Leg A of a successful exchange: the offered amount leaves the custodied
/// deposit account for the taker's receive account, signed by the
/// capability address; its proof material stands immediately before the
/// operation.
pub open spec fn exchange_leg_a(ctx: Exchange) -> TransferLeg {
    let rec = ctx.escrow.record.unwrap();
    TransferLeg {
        source: ctx.pda_deposit_token_account.address,
        destination: ctx.taker_receive_token_account.address,
        mint: ctx.initializer_mint,
        new_source_decryptable_available_balance: rec.initializer_decryptable_available_balance,
        authority: ctx.pda_account,
        proof_instruction_offset: -1i8,
    }
}

/// Leg B of a successful exchange: the counter-amount leaves the taker's
/// deposit account for the initializer's receive account, signed by the
/// taker, with the taker-supplied balance and proof locator.
pub open spec fn exchange_leg_b(
    ctx: Exchange,
    taker_decryptable_available_balance: DecryptableBalance,
    taker_proof_instruction_offset: i8,
) -> TransferLeg {
    TransferLeg {
        source: ctx.taker_deposit_token_account.address,
        destination: ctx.initializer_receive_account.address,
        mint: ctx.taker_mint,
        new_source_decryptable_available_balance: taker_decryptable_available_balance,
        authority: ctx.taker,
        proof_instruction_offset: taker_proof_instruction_offset,
    }
}

/// Complete the trade: validate the record, have the external verifier
/// check the proof, order the two confidential transfer legs, restore the
/// deposit account's control to the initializer, and close the record. All
/// of it within one indivisible operation: on any failure nothing changes
/// and no leg is ordered.
pub fn exchange(
    ctx: &mut Exchange,
    program_id: &Address,
    taker_proof_instruction_offset: i8,
    transfer_data: Transferdata,
    taker_decryptable_available_balance: DecryptableBalance,
) -> (r: Result<Vec<TransferLeg>, EscrowError>)
    ensures
        match r {
            Ok(legs) => {
                &&& exchange_error(*old(ctx), program_id@, transfer_data@) is None
                &&& legs@.len() == 2
                &&& legs@[0] == exchange_leg_a(*old(ctx))
                &&& legs@[1] == exchange_leg_b(
                    *old(ctx),
                    taker_decryptable_available_balance,
                    taker_proof_instruction_offset,
                )
                &&& final(ctx).escrow.record is None
                &&& final(ctx).pda_deposit_token_account.authority == old(
                    ctx,
                ).escrow.record.unwrap().initializer
                &&& final(ctx).pda_deposit_token_account.address == old(
                    ctx,
                ).pda_deposit_token_account.address
                &&& final(ctx).pda_deposit_token_account.owner_program == old(
                    ctx,
                ).pda_deposit_token_account.owner_program
                &&& final(ctx).taker == old(ctx).taker
                &&& final(ctx).initializer == old(ctx).initializer
                &&& final(ctx).taker_receive_token_account == old(ctx).taker_receive_token_account
                &&& final(ctx).taker_deposit_token_account == old(ctx).taker_deposit_token_account
                &&& final(ctx).initializer_receive_account == old(ctx).initializer_receive_account
                &&& final(ctx).initializer_main_account == old(ctx).initializer_main_account
                &&& final(ctx).initializer_mint == old(ctx).initializer_mint
                &&& final(ctx).taker_mint == old(ctx).taker_mint
                &&& final(ctx).pda_account == old(ctx).pda_account
                &&& final(ctx).token_program == old(ctx).token_program
            },
            Err(e) => {
                &&& exchange_error(*old(ctx), program_id@, transfer_data@) == Some(e)
                &&& *final(ctx) == *old(ctx)
            },
        },
{
    let rec = match ctx.escrow.record {
        None => {
            return Err(EscrowError::InvalidTokenAccount);
        },
        Some(rec) => rec,
    };
    if !(rec.initializer_deposit_account == ctx.pda_deposit_token_account.address) {
        return Err(EscrowError::InvalidTokenAccount);
    }
    if !(rec.initializer_receive_account == ctx.initializer_receive_account.address) {
        return Err(EscrowError::InvalidTokenAccount);
    }
    if !(rec.initializer == ctx.initializer_main_account) {
        return Err(EscrowError::InvalidInitializer);
    }
    if !(rec.initializer == ctx.initializer) {
        return Err(EscrowError::InvalidInitializer);
    }
    if !(rec.initializer_mint == ctx.initializer_mint) {
        return Err(EscrowError::InvalidMint);
    }
    if !(rec.taker_mint == ctx.taker_mint) {
        return Err(EscrowError::InvalidMint);
    }
    match verify(&transfer_data) {
        Err(e) => {
            return Err(e);
        },
        Ok(()) => {},
    }
    let pda_account = ctx.pda_account;
    match restore(&mut ctx.pda_deposit_token_account, &pda_account, &rec.initializer, program_id) {
        Err(e) => {
            return Err(e);
        },
        Ok(()) => {},
    }
    ctx.escrow.record = None;
    let mut legs: Vec<TransferLeg> = Vec::new();
    legs.push(
        TransferLeg {
            source: ctx.pda_deposit_token_account.address,
            destination: ctx.taker_receive_token_account.address,
            mint: ctx.initializer_mint,
            new_source_decryptable_available_balance: rec.initializer_decryptable_available_balance,
            authority: pda_account,
            proof_instruction_offset: -1i8,
        },
    );
    legs.push(
        TransferLeg {
            source: ctx.taker_deposit_token_account.address,
            destination: ctx.initializer_receive_account.address,
            mint: ctx.taker_mint,
            new_source_decryptable_available_balance: taker_decryptable_available_balance,
            authority: ctx.taker,
            proof_instruction_offset: taker_proof_instruction_offset,
        },
    );
    Ok(legs)
}

/// Why a cancel would be rejected, if at all: no live record, a caller who
/// is not the recorded initializer, a deposit account that is not the
/// recorded one, or a custody restoration failure.
pub open spec fn cancel_error(ctx: CancelEscrow, program: Seq<u8>) -> Option<EscrowError> {
    match ctx.escrow.record {
        None => Some(EscrowError::InvalidTokenAccount),
        Some(rec) => {
            if rec.initializer@ != ctx.initializer@ {
                Some(EscrowError::InvalidInitializer)
            } else if rec.initializer_deposit_account@ != ctx.pda_deposit_token_account.address@ {
                Some(EscrowError::InvalidTokenAccount)
            } else {
                restore_error(ctx.pda_deposit_token_account, ctx.pda_account, program)
            }
        },
    }
}

/// Abandon the trade: restore the deposit account's control to the
/// recorded initializer and close the record. No asset moves. On failure
/// nothing changes.
pub fn cancel_escrow(ctx: &mut CancelEscrow, program_id: &Address) -> (r: Result<(), EscrowError>)
    ensures
        match r {
            Ok(()) => {
                &&& cancel_error(*old(ctx), program_id@) is None
                &&& final(ctx).escrow.record is None
                &&& final(ctx).pda_deposit_token_account.authority == old(
                    ctx,
                ).escrow.record.unwrap().initializer
                &&& final(ctx).pda_deposit_token_account.address == old(
                    ctx,
                ).pda_deposit_token_account.address
                &&& final(ctx).pda_deposit_token_account.owner_program == old(
                    ctx,
                ).pda_deposit_token_account.owner_program
                &&& final(ctx).initializer == old(ctx).initializer
                &&& final(ctx).pda_account == old(ctx).pda_account
                &&& final(ctx).token_program == old(ctx).token_program
            },
            Err(e) => {
                &&& cancel_error(*old(ctx), program_id@) == Some(e)
                &&& *final(ctx) == *old(ctx)
            },
        },
{
    let rec = match ctx.escrow.record {
        None => {
            return Err(EscrowError::InvalidTokenAccount);
        },
        Some(rec) => rec,
    };
    if !(rec.initializer == ctx.initializer) {
        return Err(EscrowError::InvalidInitializer);
    }
    if !(rec.initializer_deposit_account == ctx.pda_deposit_token_account.address) {
        return Err(EscrowError::InvalidTokenAccount);
    }
    let pda_account = ctx.pda_account;
    match restore(&mut ctx.pda_deposit_token_account, &pda_account, &rec.initializer, program_id) {
        Err(e) => {
            return Err(e);
        },
        Ok(()) => {},
    }
    ctx.escrow.record = None;
    Ok(())
}

/// Exclusivity: once an initialize has succeeded for a deposit account,
/// that account's control belongs to the capability address, and any second
/// initialize referencing the account is rejected, whoever signs it — no
/// party can sign as the capability address, which has no key.
pub proof fn lemma_initialize_exclusive(
    first: InitializeEscrow,
    program: Seq<u8>,
    post_deposit: TokenAccount,
    second: InitializeEscrow,
)
    requires
        initialize_error(first, program) is None,
        capability_of(program) matches Some(p) && post_deposit.authority@ == p.0,
        second.initializer_deposit_token_account == post_deposit,
        second.initializer@ != capability_of(program).unwrap().0,
    ensures
        initialize_error(second, program) is Some,
{
}

/// Atomicity: when the external verifier rejects the proof, the exchange
/// reports `ProofInvalid`; by [`exchange`]'s contract the state is then
/// exactly as before the call, so neither transfer leg is observable and
/// the deposit account's control is still the delegated capability.
pub proof fn lemma_exchange_proof_invalid(ctx: Exchange, program: Seq<u8>, proof: Seq<u8>)
    requires
        references_match(ctx),
        !transfer_proof_valid(proof),
    ensures
        exchange_error(ctx, program, proof) == Some(EscrowError::ProofInvalid),
{
}

/// Authority restoration: the identity a cancel hands control back to —
/// the recorded initializer — is exactly the identity that controlled the
/// deposit account before the initialize delegated it.
pub proof fn lemma_cancel_restores_authority(
    pre: InitializeEscrow,
    program: Seq<u8>,
    new_source_decryptable_amount: DecryptableBalance,
    taker_amount: EncryptedBalance,
)
    requires
        initialize_error(pre, program) is None,
    ensures
        created_record(pre, new_source_decryptable_amount, taker_amount).initializer
            == pre.initializer_deposit_token_account.authority,
{
    lemma_address_eq_view(pre.initializer, pre.initializer_deposit_token_account.authority);
}

/// Non-repeatability: both terminal transitions leave the record slot
/// empty, and an exchange or a cancel referencing an empty slot is
/// rejected.
pub proof fn lemma_terminal_not_repeatable(
    after_exchange: Exchange,
    after_cancel: CancelEscrow,
    program: Seq<u8>,
    proof: Seq<u8>,
)
    requires
        after_exchange.escrow.record is None,
        after_cancel.escrow.record is None,
    ensures
        exchange_error(after_exchange, program, proof) == Some(EscrowError::InvalidTokenAccount),
        cancel_error(after_cancel, program) == Some(EscrowError::InvalidTokenAccount),
{
}

/// After a successful initialize, an exchange whose accounts match the
/// record, whose capability address is the derived one and whose deposit
/// account is still custodied by it succeeds exactly when the external
/// verifier accepts the proof; the only remaining failure is `ProofInvalid`.
pub proof fn lemma_exchange_after_initialize(ctx: Exchange, program: Seq<u8>, proof: Seq<u8>)
    requires
        references_match(ctx),
        capability_of(program) matches Some(p) && ctx.pda_account@ == p.0
            && ctx.pda_deposit_token_account.authority@ == p.0,
    ensures
        (exchange_error(ctx, program, proof) is None) <==> transfer_proof_valid(proof),
        !transfer_proof_valid(proof) ==> exchange_error(ctx, program, proof) == Some(
            EscrowError::ProofInvalid,
        ),
{
}

/// A mint identifier that does not match the record is rejected with
/// `InvalidMint` before the proof is even consulted, so no transfer is
/// ordered and custody is untouched.
pub proof fn lemma_exchange_wrong_mint(ctx: Exchange, program: Seq<u8>, proof: Seq<u8>)
    requires
        ctx.escrow.record matches Some(rec) && {
            &&& rec.initializer_deposit_account@ == ctx.pda_deposit_token_account.address@
            &&& rec.initializer_receive_account@ == ctx.initializer_receive_account.address@
            &&& rec.initializer@ == ctx.initializer_main_account@
            &&& rec.initializer@ == ctx.initializer@
            &&& rec.initializer_mint@ == ctx.initializer_mint@
            &&& rec.taker_mint@ != ctx.taker_mint@
        },
    ensures
        exchange_error(ctx, program, proof) == Some(EscrowError::InvalidMint),
{
}

} // verus!
