//! SHA-256 commitments.

use vstd::prelude::*;

verus! {

/// The SHA-256 digest of `data`, as `solana_program::hash::hash` computes it.
pub uninterp spec fn sha256(data: Seq<u8>) -> Seq<u8>;

/// Calls `solana_program::hash::hash` and takes the bytes out of the `Hash`.
///
/// Trusted: the returned array is a function of the bytes of `data` alone.
/// Which function it is, SHA-256, is the outside crate's word and is not
/// used by any proof here.
#[verifier::external_body]
pub(crate) fn sha256_digest(data: &[u8]) -> (digest: [u8; 32])
    ensures
        digest@ == sha256(data@),
{
    solana_program::hash::hash(data).to_bytes()
}

} // verus!
