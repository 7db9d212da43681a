use vstd::prelude::*;

use crate::address::Address;
use crate::error::EscrowError;
use crate::ledger::TokenAccount;
use solana_program::pubkey::Pubkey;

verus! {

/// What the capability address derived from `seed` under `program` is, if
/// any: the address bytes and the associated bump seed. The derivation is a
/// digest of its arguments; its value is not restated here.
pub uninterp spec fn pda_of(seed: Seq<u8>, program: Seq<u8>) -> Option<(Seq<u8>, u8)>;

/// The fixed seed from which every capability address of this escrow is
/// derived: the bytes of "escrow".
pub open spec fn escrow_seed() -> Seq<u8> {
    seq![101u8, 115u8, 99u8, 114u8, 111u8, 119u8]
}

/// The capability address of the escrow under `program`: derived from the
/// fixed seed and the program's own identity alone.
pub open spec fn capability_of(program: Seq<u8>) -> Option<(Seq<u8>, u8)> {
    pda_of(escrow_seed(), program)
}

/// The fixed seed, as bytes.
fn escrow_seed_bytes() -> (r: Vec<u8>)
    ensures
        r@ == escrow_seed(),
{
    let mut v: Vec<u8> = Vec::new();
    v.push(101);
    v.push(115);
    v.push(99);
    v.push(114);
    v.push(111);
    v.push(119);
    proof {
        assert(v@ =~= escrow_seed());
    }
    v
}

/// Relies on `Pubkey::try_find_program_address` of solana-program: the
/// derived address and bump seed are a function of the seeds and the program
/// identity alone; `None` comes when no viable bump seed exists, or when the
/// seeds themselves are not acceptable to the derivation.
#[verifier::external_body]
fn find_capability_address(seed: &[u8], program_id: &Address) -> (r: Option<(Address, u8)>)
    ensures
        match r {
            Some(p) => pda_of(seed@, program_id@) == Some((p.0@, p.1)),
            None => pda_of(seed@, program_id@) is None,
        },
{
    let program = Pubkey::new_from_array(program_id.to_bytes());
    match Pubkey::try_find_program_address(&[seed], &program) {
        Some((pk, bump)) => Some((Address::new(pk.to_bytes()), bump)),
        None => None,
    }
}

/// Derive the escrow's capability address under `program_id`.
pub fn derive_capability(program_id: &Address) -> (r: Option<(Address, u8)>)
    ensures
        match r {
            Some(p) => capability_of(program_id@) == Some((p.0@, p.1)),
            None => capability_of(program_id@) is None,
        },
{
    let seed = escrow_seed_bytes();
    find_capability_address(seed.as_slice(), program_id)
}

/// Why a delegation would be rejected, if at all: the purported owner does
/// not control the account, or no capability address can be derived.
pub open spec fn delegate_error(deposit: TokenAccount, initializer: Address, program: Seq<u8>) -> Option<EscrowError> {
    if deposit.authority@ != initializer@ {
        Some(EscrowError::InvalidInitializer)
    } else if capability_of(program) is None {
        Some(EscrowError::AuthorityMismatch)
    } else {
        None
    }
}

/// Transfer control of `deposit_account` to the capability address derived
/// from the fixed seed and the program's own identity. Only the account's
/// current authority may delegate. On failure nothing changes.
pub fn delegate(deposit_account: &mut TokenAccount, initializer: &Address, program_id: &Address) -> (r: Result<
    Address,
    EscrowError,
>)
    ensures
        match r {
            Ok(cap) => {
                &&& delegate_error(*old(deposit_account), *initializer, program_id@) is None
                &&& capability_of(program_id@) matches Some(p) && p.0 == cap@
                &&& final(deposit_account).address == old(deposit_account).address
                &&& final(deposit_account).owner_program == old(deposit_account).owner_program
                &&& final(deposit_account).authority == cap
            },
            Err(e) => {
                &&& delegate_error(*old(deposit_account), *initializer, program_id@) == Some(e)
                &&& *final(deposit_account) == *old(deposit_account)
            },
        },
{
    if !(deposit_account.authority == *initializer) {
        return Err(EscrowError::InvalidInitializer);
    }
    match derive_capability(program_id) {
        None => Err(EscrowError::AuthorityMismatch),
        Some((cap, _bump)) => {
            deposit_account.authority = cap;
            Ok(cap)
        },
    }
}

/// Why a restoration would be rejected, if at all: the recomputed capability
/// address does not match the recorded one, or the account is not in fact
/// controlled by it.
pub open spec fn restore_error(deposit: TokenAccount, capability: Address, program: Seq<u8>) -> Option<EscrowError> {
    if capability_of(program) is None {
        Some(EscrowError::AuthorityMismatch)
    } else if capability_of(program)->Some_0.0 != capability@ {
        Some(EscrowError::AuthorityMismatch)
    } else if deposit.authority@ != capability@ {
        Some(EscrowError::AuthorityMismatch)
    } else {
        None
    }
}

/// Transfer control of `deposit_account` back to `original_owner`,
/// authorized by re-deriving the capability address and checking it against
/// the recorded one. On failure nothing changes.
pub fn restore(
    deposit_account: &mut TokenAccount,
    capability_address: &Address,
    original_owner: &Address,
    program_id: &Address,
) -> (r: Result<(), EscrowError>)
    ensures
        match r {
            Ok(()) => {
                &&& restore_error(*old(deposit_account), *capability_address, program_id@) is None
                &&& final(deposit_account).address == old(deposit_account).address
                &&& final(deposit_account).owner_program == old(deposit_account).owner_program
                &&& final(deposit_account).authority == *original_owner
            },
            Err(e) => {
                &&& restore_error(*old(deposit_account), *capability_address, program_id@) == Some(e)
                &&& *final(deposit_account) == *old(deposit_account)
            },
        },
{
    match derive_capability(program_id) {
        None => Err(EscrowError::AuthorityMismatch),
        Some((cap, _bump)) => {
            if !(cap == *capability_address) {
                return Err(EscrowError::AuthorityMismatch);
            }
            if !(deposit_account.authority == *capability_address) {
                return Err(EscrowError::AuthorityMismatch);
            }
            deposit_account.authority = *original_owner;
            Ok(())
        },
    }
}

} // verus!
