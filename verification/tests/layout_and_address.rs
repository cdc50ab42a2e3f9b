use ctf_anchor::address::build_challenge_seeds;
use ctf_anchor::compare::full_width_eq;
use ctf_anchor::{
    derive_challenge_address, ChallengeData, ChallengeRef, HEADER_LEN, PROGRAM_ID, RECORD_LEN,
    SEED_PREFIX,
};
use anchor_lang::AnchorSerialize;
use solana_program::pubkey::Pubkey;
use std::str::FromStr;

fn sample() -> ChallengeData {
    let mut flag_hash = [0u8; 32];
    let mut creator = [0u8; 32];
    for i in 0..32 {
        flag_hash[i] = i as u8;
        creator[i] = 0xF0 ^ (i as u8);
    }
    ChallengeData { challenge_id: 0x0102_0304_0506_0708, flag_hash, creator, is_solved: false }
}

#[test]
fn program_id_is_the_declared_address() {
    let declared = Pubkey::from_str("GrTTrdzrLzGnLE1rDbxxv4xdZgQi7pNXGeMpb5TaYecF").unwrap();
    assert_eq!(PROGRAM_ID, declared.to_bytes());
    assert_eq!(&SEED_PREFIX[..], b"challenge");
}

#[test]
fn seeds_are_prefix_creator_and_little_endian_id() {
    let creator = [0x11u8; 32];
    let seeds = build_challenge_seeds(&creator, 0x0102_0304_0506_0708);
    assert_eq!(
        seeds,
        vec![
            b"challenge".to_vec(),
            creator.to_vec(),
            vec![0x08, 0x07, 0x06, 0x05, 0x04, 0x03, 0x02, 0x01],
        ]
    );
    assert_eq!(build_challenge_seeds(&creator, 1)[2], 1u64.to_le_bytes().to_vec());
}

#[test]
fn derived_address_is_the_program_address_of_the_seeds() {
    let program = Pubkey::new_from_array(PROGRAM_ID);
    for (creator, id) in [([7u8; 32], 1u64), ([7u8; 32], 2), ([0u8; 32], 0), ([0xFFu8; 32], u64::MAX)] {
        let (address, bump) =
            Pubkey::find_program_address(&[b"challenge", &creator, &id.to_le_bytes()], &program);
        let handle = derive_challenge_address(&creator, id).unwrap();
        assert_eq!(handle, ChallengeRef { address: address.to_bytes(), bump });
        assert_ne!(handle.address, creator);
        assert!(!address.is_on_curve());
        // The bump seed closes the derivation.
        let closed = Pubkey::create_program_address(
            &[b"challenge", &creator, &id.to_le_bytes(), &[handle.bump]],
            &program,
        )
        .unwrap();
        assert_eq!(closed.to_bytes(), handle.address);
    }
}

#[test]
fn derivation_is_repeatable_and_separates_creators_and_ids() {
    let a = derive_challenge_address(&[7u8; 32], 1).unwrap();
    assert_eq!(derive_challenge_address(&[7u8; 32], 1), Some(a));
    assert_ne!(derive_challenge_address(&[7u8; 32], 2).unwrap().address, a.address);
    assert_ne!(derive_challenge_address(&[8u8; 32], 1).unwrap().address, a.address);
}

#[test]
fn record_is_stored_in_field_order() {
    let record = sample();
    let bytes = record.to_bytes();
    assert_eq!(bytes.len(), RECORD_LEN);
    assert_eq!(RECORD_LEN, 73);
    assert_eq!(HEADER_LEN + RECORD_LEN, ctf_anchor::CHALLENGE_SPACE);
    assert_eq!(&bytes[0..8], &[0x08, 0x07, 0x06, 0x05, 0x04, 0x03, 0x02, 0x01]);
    assert_eq!(&bytes[8..40], &record.flag_hash);
    assert_eq!(&bytes[40..72], &record.creator);
    assert_eq!(bytes[72], 0);
    let solved = ChallengeData { is_solved: true, ..record };
    assert_eq!(solved.to_bytes()[72], 1);
    assert_eq!(&solved.to_bytes()[..72], &bytes[..72]);
}

#[test]
fn record_layout_is_the_borsh_encoding_of_its_fields() {
    for record in [sample(), ChallengeData { is_solved: true, challenge_id: u64::MAX, ..sample() }] {
        let mut expected = Vec::new();
        let fields = (
            record.challenge_id,
            record.flag_hash,
            Pubkey::new_from_array(record.creator),
            record.is_solved,
        );
        fields.serialize(&mut expected).unwrap();
        assert_eq!(record.to_bytes(), expected);
    }
}

#[test]
fn record_round_trips_through_its_bytes() {
    for record in [
        sample(),
        ChallengeData { is_solved: true, ..sample() },
        ChallengeData { challenge_id: 0, flag_hash: [0u8; 32], creator: [0u8; 32], is_solved: false },
        ChallengeData { challenge_id: u64::MAX, flag_hash: [0xFFu8; 32], creator: [0xFFu8; 32], is_solved: true },
    ] {
        let bytes = record.to_bytes();
        assert_eq!(ChallengeData::from_bytes(&bytes), Some(record));
        assert_eq!(ChallengeData::from_bytes(&bytes).unwrap().to_bytes(), bytes);
    }
}

#[test]
fn record_is_not_read_from_malformed_bytes() {
    let bytes = sample().to_bytes();
    assert_eq!(ChallengeData::from_bytes(&bytes[..72]), None);
    assert_eq!(ChallengeData::from_bytes(&[]), None);
    let mut longer = bytes.clone();
    longer.push(0);
    assert_eq!(ChallengeData::from_bytes(&longer), None);
    let mut bad_flag = bytes.clone();
    bad_flag[72] = 2;
    assert_eq!(ChallengeData::from_bytes(&bad_flag), None);
    bad_flag[72] = 0xFF;
    assert_eq!(ChallengeData::from_bytes(&bad_flag), None);
    bad_flag[72] = 1;
    assert_eq!(ChallengeData::from_bytes(&bad_flag), Some(ChallengeData { is_solved: true, ..sample() }));
}

#[test]
fn full_width_comparison_sees_every_byte() {
    let a = [0x5Au8; 32];
    assert!(full_width_eq(&a, &a));
    assert!(full_width_eq(&a, &[0x5Au8; 32]));
    for i in 0..32 {
        for bit in 0..8 {
            let mut b = a;
            b[i] ^= 1 << bit;
            assert!(!full_width_eq(&a, &b));
            assert!(!full_width_eq(&b, &a));
        }
    }
    assert!(!full_width_eq(&[0u8; 32], &[0xFFu8; 32]));
}
