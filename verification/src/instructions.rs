use vstd::prelude::*;

use crate::address::Address;
use solana_instruction::Instruction;
use solana_program::pubkey::Pubkey;
use spl_token_2022::instruction::AuthorityType;

verus! {

/// A ledger instruction of the token standard, carried opaquely to the
/// environment that performs it.
#[verifier::external_type_specification]
#[verifier::external_body]
pub struct ExInstruction(Instruction);

/// Whether the token standard accepts `program` as its own identity. The
/// check compares against fixed program identities; their values are not
/// restated here.
pub uninterp spec fn spl_token_program_check_ok(program: Seq<u8>) -> bool;

/// What the token standard's account-owner authority-change instruction is
/// for the given token program, owned account, new authority and present
/// owner: a function of those identities alone; its encoding is not
/// restated here.
pub uninterp spec fn set_authority_ix_of(
    token_program: Seq<u8>,
    owned: Seq<u8>,
    new_authority: Seq<u8>,
    owner: Seq<u8>,
) -> Instruction;

/// Relies on `spl_token_2022::instruction::set_authority`: it returns an
/// instruction exactly when the supplied token program identity passes the
/// token standard's own program check, and errs otherwise; the instruction
/// it builds is a function of its arguments alone, and the account-owner
/// authority kind is the one the escrow delegates and restores.
#[verifier::external_body]
fn set_authority_instruction(
    token_program_id: &Address,
    owned: &Address,
    new_authority: &Address,
    owner: &Address,
) -> (r: Option<Instruction>)
    ensures
        (r is Some) <==> spl_token_program_check_ok(token_program_id@),
        r matches Some(ix) ==> ix == set_authority_ix_of(
            token_program_id@,
            owned@,
            new_authority@,
            owner@,
        ),
{
    spl_token_2022::instruction::set_authority(
        &Pubkey::new_from_array(token_program_id.to_bytes()),
        &Pubkey::new_from_array(owned.to_bytes()),
        Some(&Pubkey::new_from_array(new_authority.to_bytes())),
        AuthorityType::AccountOwner,
        &Pubkey::new_from_array(owner.to_bytes()),
        &[],
    )
    .ok()
}

/// Build the token-standard instruction that hands account-owner control of
/// `owned` from `owner` to `new_authority`: the authority-change half of a
/// delegation or a restoration, ready for the environment to perform. The
/// result is exactly the standard's own authority-change instruction for
/// these four identities.
pub fn authority_change_instruction(
    token_program_id: &Address,
    owned: &Address,
    new_authority: &Address,
    owner: &Address,
) -> (r: Option<Instruction>)
    ensures
        (r is Some) <==> spl_token_program_check_ok(token_program_id@),
        r matches Some(ix) ==> ix == set_authority_ix_of(
            token_program_id@,
            owned@,
            new_authority@,
            owner@,
        ),
{
    set_authority_instruction(token_program_id, owned, new_authority, owner)
}

} // verus!
