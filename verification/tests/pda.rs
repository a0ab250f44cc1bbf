use std::str::FromStr;

use anchor_lang::prelude::Pubkey as AnchorPubkey;
use apollo_swarm::constants::{AGENT_SEED, SWARM_SEED, TREASURY_SEED};
use apollo_swarm::pda::{derives_address2, derives_address3, find_address2, find_address3, u64_to_le_bytes};
use apollo_swarm::pubkey::Pubkey;

fn program() -> AnchorPubkey {
    AnchorPubkey::new_from_array(apollo_swarm::ID_BYTES)
}

fn key(n: u8) -> Pubkey {
    Pubkey::new_from_array([n; 32])
}

#[test]
fn program_id_is_the_declared_address() {
    let declared = AnchorPubkey::from_str("ApoLLoSwarm111111111111111111111111111111111").unwrap();
    assert_eq!(apollo_swarm::id().to_bytes(), declared.to_bytes());
}

#[test]
fn little_endian_bytes_match_std() {
    for x in [0u64, 1, 255, 256, 0x0102_0304_0506_0708, u64::MAX, 1_000_000_007] {
        assert_eq!(u64_to_le_bytes(x), x.to_le_bytes());
    }
}

#[test]
fn find_address2_matches_the_outside_search() {
    let authority = key(7);
    let (expected, expected_bump) =
        AnchorPubkey::find_program_address(&[&AGENT_SEED, &authority.bytes], &program());
    let (found, bump) = find_address2(&AGENT_SEED, authority.as_slice()).unwrap();
    assert_eq!(found.to_bytes(), expected.to_bytes());
    assert_eq!(bump, expected_bump);
    // The address is not the authority handed in.
    assert_ne!(found, authority);
}

#[test]
fn find_address3_matches_the_outside_search() {
    let authority = key(9);
    let id = 42u64.to_le_bytes();
    let (expected, expected_bump) =
        AnchorPubkey::find_program_address(&[&SWARM_SEED, &authority.bytes, &id], &program());
    let (found, bump) = find_address3(&SWARM_SEED, authority.as_slice(), &id).unwrap();
    assert_eq!(found.to_bytes(), expected.to_bytes());
    assert_eq!(bump, expected_bump);
}

#[test]
fn canonical_address_is_derived_again() {
    let swarm = key(3);
    let (found, bump) = find_address2(&TREASURY_SEED, swarm.as_slice()).unwrap();
    assert!(derives_address2(&TREASURY_SEED, swarm.as_slice(), bump, &found));
    // Another bump or another address does not derive it.
    assert!(!derives_address2(&TREASURY_SEED, swarm.as_slice(), bump, &key(1)));
    let other = AnchorPubkey::create_program_address(
        &[&TREASURY_SEED, &swarm.bytes, &[bump.wrapping_sub(1)]],
        &program(),
    );
    if let Ok(o) = other {
        assert_ne!(o.to_bytes(), found.to_bytes());
        assert!(!derives_address2(&TREASURY_SEED, swarm.as_slice(), bump.wrapping_sub(1), &found));
    }
}

#[test]
fn three_seed_derivation_matches_the_outside_derivation() {
    let authority = key(11);
    let id = 5u64.to_le_bytes();
    let (expected, bump) =
        AnchorPubkey::find_program_address(&[&SWARM_SEED, &authority.bytes, &id], &program());
    let k = Pubkey::new_from_array(expected.to_bytes());
    assert!(derives_address3(&SWARM_SEED, authority.as_slice(), &id, bump, &k));
    assert!(!derives_address3(&SWARM_SEED, authority.as_slice(), &6u64.to_le_bytes(), bump, &k));
}

#[test]
fn overlong_seeds_derive_nothing() {
    let long = [1u8; 33];
    assert!(find_address2(&AGENT_SEED, &long).is_none());
    assert!(!derives_address2(&AGENT_SEED, &long, 255, &key(0)));
}

#[test]
fn zeroed_key_is_all_zero() {
    assert_eq!(Pubkey::zeroed().to_bytes(), [0u8; 32]);
    assert_eq!(Pubkey::zeroed().to_bytes(), AnchorPubkey::default().to_bytes());
}
