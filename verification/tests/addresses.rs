use cz_story_commit::address::{find_bank_address, find_commit_address, find_metadata_address};
use cz_story_commit::pubkey::Pubkey;

fn outside(key: &Pubkey) -> anchor_lang::prelude::Pubkey {
    anchor_lang::prelude::Pubkey::new_from_array(key.bytes)
}

#[test]
fn bank_address_matches_runtime_derivation() {
    let program = Pubkey { bytes: [7u8; 32] };
    let (expected, bump) = anchor_lang::prelude::Pubkey::find_program_address(
        &[b"bank_v17".as_ref()],
        &outside(&program),
    );
    let found = find_bank_address(&program);
    assert_eq!(found, Some((Pubkey { bytes: expected.to_bytes() }, bump)));
}

#[test]
fn commit_address_matches_runtime_derivation() {
    let program = Pubkey { bytes: [7u8; 32] };
    let mint = Pubkey { bytes: [21u8; 32] };
    let (expected, bump) = anchor_lang::prelude::Pubkey::find_program_address(
        &[b"commit_v01".as_ref(), mint.bytes.as_ref()],
        &outside(&program),
    );
    let found = find_commit_address(&program, &mint);
    assert_eq!(found, Some((Pubkey { bytes: expected.to_bytes() }, bump)));
}

#[test]
fn commit_address_puts_the_tag_before_the_identity() {
    let program = Pubkey { bytes: [7u8; 32] };
    let mint = Pubkey { bytes: [21u8; 32] };
    let (swapped, _) = anchor_lang::prelude::Pubkey::find_program_address(
        &[mint.bytes.as_ref(), b"commit_v01".as_ref()],
        &outside(&program),
    );
    let (found, _) = find_commit_address(&program, &mint).unwrap();
    assert_ne!(found.bytes, swapped.to_bytes());
}

#[test]
fn metadata_address_matches_registry_derivation() {
    let registry = Pubkey { bytes: mpl_token_metadata::ID.to_bytes() };
    let mint = Pubkey { bytes: [21u8; 32] };
    let mut outside_mint = mpl_token_metadata::ID;
    assert_eq!(outside_mint.to_bytes(), registry.bytes);
    outside_mint = mint.bytes.into();
    let (expected, bump) = mpl_token_metadata::accounts::Metadata::find_pda(&outside_mint);
    let found = find_metadata_address(&registry, &mint);
    assert_eq!(found, Some((Pubkey { bytes: expected.to_bytes() }, bump)));
}

#[test]
fn metadata_address_uses_the_registry_seed() {
    let registry = Pubkey { bytes: [3u8; 32] };
    let mint = Pubkey { bytes: [21u8; 32] };
    let (expected, bump) = anchor_lang::prelude::Pubkey::find_program_address(
        &[b"metadata".as_ref(), registry.bytes.as_ref(), mint.bytes.as_ref()],
        &outside(&registry),
    );
    let found = find_metadata_address(&registry, &mint);
    assert_eq!(found, Some((Pubkey { bytes: expected.to_bytes() }, bump)));
}

#[test]
fn derivation_is_reproducible() {
    let program = Pubkey { bytes: [1u8; 32] };
    let mint = Pubkey { bytes: [2u8; 32] };
    assert_eq!(find_commit_address(&program, &mint), find_commit_address(&program, &mint));
    assert_eq!(find_bank_address(&program), find_bank_address(&program));
}

#[test]
fn collectibles_get_addresses_of_their_own() {
    let program = Pubkey { bytes: [1u8; 32] };
    let first = find_commit_address(&program, &Pubkey { bytes: [2u8; 32] }).unwrap();
    let second = find_commit_address(&program, &Pubkey { bytes: [3u8; 32] }).unwrap();
    let bank = find_bank_address(&program).unwrap();
    assert_ne!(first.0, second.0);
    assert_ne!(first.0, bank.0);
    assert_ne!(first.0, Pubkey { bytes: [2u8; 32] });
}

#[test]
fn programs_get_addresses_of_their_own() {
    let mint = Pubkey { bytes: [2u8; 32] };
    let first = find_commit_address(&Pubkey { bytes: [1u8; 32] }, &mint).unwrap();
    let second = find_commit_address(&Pubkey { bytes: [4u8; 32] }, &mint).unwrap();
    assert_ne!(first.0, second.0);
}
