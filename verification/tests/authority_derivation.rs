use anchor_looping::account::AccountKey;
use anchor_looping::authority::{auth_seed_vec, derive_program_address, ProtocolAuthority};

#[test]
fn authority_matches_the_reference_derivation() {
    let program_bytes = [7u8; 32];
    let expected = const_crypto::ed25519::derive_program_address(&[b"auth"], &program_bytes);
    let program_id = AccountKey { bytes: program_bytes };
    let got = ProtocolAuthority::derive(&program_id).unwrap();
    assert_eq!(got.key.bytes, expected.0);
    assert_eq!(got.bump, expected.1);
}

#[test]
fn authority_is_stable_per_program_and_differs_across_programs() {
    let a = ProtocolAuthority::derive(&AccountKey { bytes: [1u8; 32] }).unwrap();
    let again = ProtocolAuthority::derive(&AccountKey { bytes: [1u8; 32] }).unwrap();
    assert_eq!(a, again);
    let b = ProtocolAuthority::derive(&AccountKey { bytes: [2u8; 32] }).unwrap();
    assert_ne!(a.key.bytes, b.key.bytes);
}

#[test]
fn seed_bytes_spell_the_fixed_seed() {
    assert_eq!(auth_seed_vec(), b"auth".to_vec());
}

#[test]
fn other_seeds_match_the_reference_derivation_too() {
    let program_bytes = [9u8; 32];
    let expected = const_crypto::ed25519::derive_program_address(&[b"user_meta"], &program_bytes);
    let got = derive_program_address(
        &b"user_meta".to_vec(),
        &AccountKey { bytes: program_bytes },
    )
    .unwrap();
    assert_eq!(got.0.bytes, expected.0);
    assert_eq!(got.1, expected.1);
}
