//! The persistent challenge record and its fixed byte layout.

use vstd::prelude::*;
use vstd::bytes::*;
use vstd::slice::slice_subrange;

verus! {

/// Bytes the host reserves in front of the record's own fields.
pub const HEADER_LEN: usize = 8;

/// Bytes taken by the record's fields: id, commitment, creator, solved flag.
pub const RECORD_LEN: usize = 73;

/// Bytes allocated for one challenge: header and fields.
pub const CHALLENGE_SPACE: usize = 81;

/// One challenge as it is stored.
#[derive(Clone, Copy, Debug, PartialEq, Eq)]
pub struct ChallengeData {
    /// Chosen by the creator; part of the key the record's address is derived from.
    pub challenge_id: u64,
    /// SHA-256 digest of the secret flag.
    pub flag_hash: [u8; 32],
    /// Identity of the account that created the challenge.
    pub creator: [u8; 32],
    /// Set by the first matching guess and never cleared.
    pub is_solved: bool,
}

/// The mathematical content of a [`ChallengeData`].
pub struct ChallengeRecord {
    pub challenge_id: u64,
    pub flag_hash: Seq<u8>,
    pub creator: Seq<u8>,
    pub is_solved: bool,
}

impl View for ChallengeData {
    type V = ChallengeRecord;

    open spec fn view(&self) -> ChallengeRecord {
        ChallengeRecord {
            challenge_id: self.challenge_id,
            flag_hash: self.flag_hash@,
            creator: self.creator@,
            is_solved: self.is_solved,
        }
    }
}

impl ChallengeRecord {
    /// Both 32-byte fields have their full width.
    pub open spec fn well_formed(self) -> bool {
        self.flag_hash.len() == 32 && self.creator.len() == 32
    }
}

/// The byte that stores a solved flag.
pub open spec fn flag_byte(is_solved: bool) -> u8 {
    if is_solved {
        1u8
    } else {
        0u8
    }
}

/// The stored form of a record: the id in little-endian order, the
/// commitment, the creator and one byte for the solved flag.
pub open spec fn encode_record(r: ChallengeRecord) -> Seq<u8> {
    spec_u64_to_le_bytes(r.challenge_id) + r.flag_hash + r.creator + seq![flag_byte(r.is_solved)]
}

/// The record that `bytes` stores, if they have the record's length and end
/// in a valid flag byte.
pub open spec fn decode_record(bytes: Seq<u8>) -> Option<ChallengeRecord> {
    if bytes.len() == RECORD_LEN && bytes[72] <= 1 {
        Some(
            ChallengeRecord {
                challenge_id: spec_u64_from_le_bytes(bytes.subrange(0, 8)),
                flag_hash: bytes.subrange(8, 40),
                creator: bytes.subrange(40, 72),
                is_solved: bytes[72] == 1,
            },
        )
    } else {
        None
    }
}

/// Decoding what was encoded gives the record back.
pub proof fn lemma_decode_encode(r: ChallengeRecord)
    requires
        r.well_formed(),
    ensures
        encode_record(r).len() == RECORD_LEN,
        decode_record(encode_record(r)) == Some(r),
{
    lemma_auto_spec_u64_to_from_le_bytes();
    let bytes = encode_record(r);
    assert(bytes.len() == 73);
    assert(bytes.subrange(0, 8) =~= spec_u64_to_le_bytes(r.challenge_id));
    assert(bytes.subrange(8, 40) =~= r.flag_hash);
    assert(bytes.subrange(40, 72) =~= r.creator);
    assert(bytes[72] == flag_byte(r.is_solved));
}

/// Encoding what was decoded gives the bytes back: no two byte strings store
/// the same record.
pub proof fn lemma_encode_decode(bytes: Seq<u8>)
    requires
        decode_record(bytes) is Some,
    ensures
        decode_record(bytes).unwrap().well_formed(),
        encode_record(decode_record(bytes).unwrap()) == bytes,
{
    lemma_auto_spec_u64_to_from_le_bytes();
    let r = decode_record(bytes).unwrap();
    assert(spec_u64_to_le_bytes(r.challenge_id) == bytes.subrange(0, 8));
    assert(encode_record(r) =~= bytes);
}

/// Copies 32 bytes of `bytes`, starting at `start`, into an array.
fn take_32(bytes: &[u8], start: usize) -> (out: [u8; 32])
    requires
        start + 32 <= bytes@.len() <= usize::MAX,
    ensures
        out@ == bytes@.subrange(start as int, start + 32),
{
    let mut out: [u8; 32] = [0u8; 32];
    let mut i: usize = 0;
    while i < 32
        invariant
            i <= 32,
            start + 32 <= bytes@.len() <= usize::MAX,
            forall|j: int| 0 <= j < i ==> out@[j] == bytes@[start + j],
        decreases 32 - i,
    {
        out[i] = bytes[start + i];
        i = i + 1;
    }
    assert(out@ =~= bytes@.subrange(start as int, start + 32));
    out
}

impl ChallengeData {
    /// The record's stored form, `RECORD_LEN` bytes long.
    pub fn to_bytes(&self) -> (bytes: Vec<u8>)
        ensures
            bytes@ == encode_record(self@),
            bytes@.len() == RECORD_LEN,
    {
        let mut bytes = u64_to_le_bytes(self.challenge_id);
        bytes.extend_from_slice(self.flag_hash.as_slice());
        bytes.extend_from_slice(self.creator.as_slice());
        bytes.push(if self.is_solved { 1u8 } else { 0u8 });
        assert(bytes@ =~= encode_record(self@));
        bytes
    }

    /// Reads a record from its stored form.
    ///
    /// Returns `None` unless `bytes` is exactly `RECORD_LEN` long and its
    /// last byte is 0 or 1.
    pub fn from_bytes(bytes: &[u8]) -> (parsed: Option<ChallengeData>)
        ensures
            match parsed {
                Some(data) => decode_record(bytes@) == Some(data@),
                None => decode_record(bytes@) is None,
            },
    {
        if bytes.len() != RECORD_LEN {
            return None;
        }
        let flag: u8 = bytes[72];
        if flag > 1 {
            return None;
        }
        let challenge_id = u64_from_le_bytes(slice_subrange(bytes, 0, 8));
        let flag_hash = take_32(bytes, 8);
        let creator = take_32(bytes, 40);
        Some(ChallengeData { challenge_id, flag_hash, creator, is_solved: flag == 1 })
    }
}

} // verus!
