//! Creating a challenge: the record at the derived address and its deposit.

use vstd::prelude::*;
use crate::accounts::{
    ChallengeAccountView, CreateChallenge, CreateChallengeView, CreatorAccountView,
};
use crate::address::{challenge_address, derive_challenge_address, located, ChallengeRef};
use crate::compare::full_width_eq;
use crate::error::CtfError;
use crate::record::{ChallengeData, ChallengeRecord};

verus! {

/// What a creator must hold to create a challenge: the deposit, and on top
/// of it the reserve that the host takes when it allocates the record.
pub open spec fn required_funds(pre: CreateChallengeView, deposit: nat) -> nat {
    pre.rent_exempt_minimum + deposit
}

/// Why a challenge cannot be created, if it cannot.
///
/// `derived` is the address that the creator and the id derive. The reasons
/// are tried in this order: the creator's signature, the address, a record
/// already at the address, the creator's funds.
pub open spec fn create_error(
    pre: CreateChallengeView,
    derived: Option<(Seq<u8>, u8)>,
    deposit: nat,
) -> Option<CtfError> {
    if !pre.creator.is_signer {
        Some(CtfError::Unauthorized)
    } else if derived is None || derived.unwrap().0 != pre.challenge.key {
        Some(CtfError::InvalidAccountState)
    } else if pre.challenge.data is Some {
        Some(CtfError::DuplicateChallenge)
    } else if pre.creator.lamports < required_funds(pre, deposit) {
        Some(CtfError::InsufficientFunds)
    } else {
        None
    }
}

/// The accounts after a challenge was created: the record is written
/// unsolved and the deposit has moved from the creator to the challenge
/// account. The reserve is not moved: paying for the allocation is between
/// the creator and the host.
pub open spec fn created(
    pre: CreateChallengeView,
    challenge_id: u64,
    flag_hash: Seq<u8>,
    deposit: nat,
) -> CreateChallengeView {
    CreateChallengeView {
        challenge: ChallengeAccountView {
            key: pre.challenge.key,
            lamports: pre.challenge.lamports + deposit,
            data: Some(
                ChallengeRecord {
                    challenge_id,
                    flag_hash,
                    creator: pre.creator.key,
                    is_solved: false,
                },
            ),
        },
        creator: CreatorAccountView {
            key: pre.creator.key,
            lamports: (pre.creator.lamports - deposit) as nat,
            is_signer: pre.creator.is_signer,
        },
        rent_exempt_minimum: pre.rent_exempt_minimum,
    }
}

/// Creating a challenge as one transition: the accounts afterwards and what
/// is returned. A refused creation leaves the accounts as they were.
pub open spec fn create_step(
    pre: CreateChallengeView,
    derived: Option<(Seq<u8>, u8)>,
    challenge_id: u64,
    flag_hash: Seq<u8>,
    deposit: nat,
) -> (CreateChallengeView, Result<(Seq<u8>, u8), CtfError>) {
    match create_error(pre, derived, deposit) {
        Some(e) => (pre, Err(e)),
        None => (created(pre, challenge_id, flag_hash, deposit), Ok(derived.unwrap())),
    }
}

/// What a creation's result stands for: the new record's address and bump
/// seed, or the error.
pub open spec fn created_handle(result: Result<ChallengeRef, CtfError>) -> Result<(Seq<u8>, u8), CtfError> {
    match result {
        Ok(r) => Ok(r@),
        Err(e) => Err(e),
    }
}

/// Creates a challenge at an address that has already been derived.
///
/// `derived` is what the derivation gave for the creator in `ctx` and
/// `challenge_id`; see [`create_challenge`], which derives it.
pub fn create_challenge_at(
    ctx: &mut CreateChallenge,
    derived: Option<ChallengeRef>,
    challenge_id: u64,
    flag_hash: [u8; 32],
    deposit_lamports: u64,
) -> (result: Result<ChallengeRef, CtfError>)
    requires
        old(ctx)@.funds_fit(),
    ensures
        (final(ctx)@, created_handle(result)) == create_step(
            old(ctx)@,
            located(derived),
            challenge_id,
            flag_hash@,
            deposit_lamports as nat,
        ),
        result is Err ==> *final(ctx) == *old(ctx),
        final(ctx)@.total_lamports() == old(ctx)@.total_lamports(),
{
    if !ctx.creator.is_signer {
        return Err(CtfError::Unauthorized);
    }
    let handle = match derived {
        Some(r) => r,
        None => {
            return Err(CtfError::InvalidAccountState);
        },
    };
    if !full_width_eq(&handle.address, &ctx.challenge.key) {
        return Err(CtfError::InvalidAccountState);
    }
    if ctx.challenge.data.is_some() {
        return Err(CtfError::DuplicateChallenge);
    }
    let required: u64 = match ctx.rent_exempt_minimum.checked_add(deposit_lamports) {
        Some(sum) => sum,
        None => {
            return Err(CtfError::InsufficientFunds);
        },
    };
    if ctx.creator.lamports < required {
        return Err(CtfError::InsufficientFunds);
    }
    ctx.creator.lamports = ctx.creator.lamports - deposit_lamports;
    ctx.challenge.lamports = ctx.challenge.lamports + deposit_lamports;
    ctx.challenge.data = Some(
        ChallengeData { challenge_id, flag_hash, creator: ctx.creator.key, is_solved: false },
    );
    Ok(handle)
}

/// Creating the challenge `(creator, challenge_id)` as one transition, the
/// address being the one that the creator's key and the id derive.
pub open spec fn create_challenge_step(
    pre: CreateChallengeView,
    challenge_id: u64,
    flag_hash: Seq<u8>,
    deposit: nat,
) -> (CreateChallengeView, Result<(Seq<u8>, u8), CtfError>) {
    create_step(pre, challenge_address(pre.creator.key, challenge_id), challenge_id, flag_hash, deposit)
}

/// Creates the challenge `(creator, challenge_id)` with the commitment
/// `flag_hash` and moves `deposit_lamports`, which may be zero, into escrow.
///
/// On success the challenge account holds the new, unsolved record, the
/// deposit has moved from the creator into it, and the handle to the record
/// is returned. On failure nothing has changed: `Unauthorized` if the
/// creator did not sign; `InvalidAccountState` if the challenge account is
/// not at the derived address; `DuplicateChallenge` if the address already
/// holds a record; `InsufficientFunds` if the creator holds less than the
/// deposit and the reserve together, the reserve being what the host takes
/// from the creator for the allocation.
pub fn create_challenge(
    ctx: &mut CreateChallenge,
    challenge_id: u64,
    flag_hash: [u8; 32],
    deposit_lamports: u64,
) -> (result: Result<ChallengeRef, CtfError>)
    requires
        old(ctx)@.funds_fit(),
    ensures
        (final(ctx)@, created_handle(result)) == create_challenge_step(
            old(ctx)@,
            challenge_id,
            flag_hash@,
            deposit_lamports as nat,
        ),
        result is Err ==> *final(ctx) == *old(ctx),
        final(ctx)@.total_lamports() == old(ctx)@.total_lamports(),
{
    if !ctx.creator.is_signer {
        return Err(CtfError::Unauthorized);
    }
    let derived = derive_challenge_address(&ctx.creator.key, challenge_id);
    create_challenge_at(ctx, derived, challenge_id, flag_hash, deposit_lamports)
}

} // verus!
