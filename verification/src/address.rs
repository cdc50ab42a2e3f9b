//! Where a challenge lives: the address derived from its creator and id.

use vstd::prelude::*;
use vstd::bytes::*;
use vstd::slice::slice_to_vec;
use solana_program::pubkey::Pubkey;

verus! {

/// Identity of this program on the ledger; every challenge address is derived under it.
pub const PROGRAM_ID: [u8; 32] = [
    235, 138, 175, 117, 100, 243, 81, 50, 140, 128, 207, 21, 216, 87, 46, 27,
    199, 31, 63, 20, 95, 231, 0, 228, 194, 145, 201, 189, 42, 224, 27, 88,
];

/// The seed that separates challenge addresses from any other address of the
/// program: the ASCII bytes of `challenge`.
pub const SEED_PREFIX: [u8; 9] = [99, 104, 97, 108, 108, 101, 110, 103, 101];

/// Handle to a challenge record: its address and the bump seed that, with the
/// creator and the id, derives it.
#[derive(Clone, Copy, Debug, PartialEq, Eq)]
pub struct ChallengeRef {
    pub address: [u8; 32],
    pub bump: u8,
}

impl View for ChallengeRef {
    type V = (Seq<u8>, u8);

    open spec fn view(&self) -> (Seq<u8>, u8) {
        (self.address@, self.bump)
    }
}

/// What an optional handle stands for: the address and bump seed, if any.
pub open spec fn located(found: Option<ChallengeRef>) -> Option<(Seq<u8>, u8)> {
    match found {
        Some(r) => Some(r@),
        None => None,
    }
}

/// The program-derived address for `seeds` under `program_id`, with its bump
/// seed, as `Pubkey::try_find_program_address` finds it; `None` where it
/// finds none.
pub uninterp spec fn program_address(seeds: Seq<Seq<u8>>, program_id: Seq<u8>) -> Option<(Seq<u8>, u8)>;

/// Calls `Pubkey::try_find_program_address`.
///
/// Trusted: the outcome is a function of the seeds' bytes and the program
/// id's bytes alone. Nothing is claimed about which address comes out, nor
/// that one is found.
#[verifier::external_body]
pub(crate) fn find_program_address(seeds: &Vec<Vec<u8>>, program_id: &[u8; 32]) -> (found: Option<ChallengeRef>)
    ensures
        located(found) == program_address(seeds.deep_view(), program_id@),
{
    let parts: Vec<&[u8]> = seeds.iter().map(|seed| seed.as_slice()).collect();
    match Pubkey::try_find_program_address(&parts, &Pubkey::new_from_array(*program_id)) {
        Some((address, bump)) => Some(ChallengeRef { address: address.to_bytes(), bump }),
        None => None,
    }
}

/// The seeds of a challenge: the prefix, the creator's identity and the id in
/// little-endian order.
pub open spec fn challenge_seeds(creator: Seq<u8>, challenge_id: u64) -> Seq<Seq<u8>> {
    seq![SEED_PREFIX@, creator, spec_u64_to_le_bytes(challenge_id)]
}

/// The address at which the challenge `(creator, challenge_id)` is stored, if
/// the derivation finds one.
pub open spec fn challenge_address(creator: Seq<u8>, challenge_id: u64) -> Option<(Seq<u8>, u8)> {
    program_address(challenge_seeds(creator, challenge_id), PROGRAM_ID@)
}

/// Builds the seeds of the challenge `(creator, challenge_id)`.
pub fn build_challenge_seeds(creator: &[u8; 32], challenge_id: u64) -> (seeds: Vec<Vec<u8>>)
    ensures
        seeds.deep_view() == challenge_seeds(creator@, challenge_id),
{
    let mut seeds: Vec<Vec<u8>> = Vec::new();
    seeds.push(slice_to_vec(SEED_PREFIX.as_slice()));
    seeds.push(slice_to_vec(creator.as_slice()));
    seeds.push(u64_to_le_bytes(challenge_id));
    assert(seeds.deep_view() =~~= challenge_seeds(creator@, challenge_id));
    seeds
}

/// Derives the address of the challenge `(creator, challenge_id)`.
///
/// The same creator and id always give the same answer, so any party can
/// locate a challenge without a lookup table.
pub fn derive_challenge_address(creator: &[u8; 32], challenge_id: u64) -> (found: Option<ChallengeRef>)
    ensures
        located(found) == challenge_address(creator@, challenge_id),
{
    let seeds = build_challenge_seeds(creator, challenge_id);
    find_program_address(&seeds, &PROGRAM_ID)
}

} // verus!
