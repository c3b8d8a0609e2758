use anchor_lang::prelude::Pubkey;
use cctpintegration::pda::{
    derive_local_token_pda, derive_message_transmitter_pda, derive_remote_token_messenger_pda,
    derive_sender_authority_pda, derive_token_messenger_pda, derive_token_minter_pda,
};

fn pid(tag: u8) -> [u8; 32] {
    let mut p = [0u8; 32];
    p[0] = tag;
    p[31] = tag.wrapping_mul(3);
    p
}

#[test]
fn local_token_derivation_is_idempotent() {
    // The same program id and the same mint, derived twice, give an
    // identical address both times.
    let program_id = pid(42);
    let mint = pid(7);
    let first = derive_local_token_pda(&program_id, &mint).unwrap();
    let second = derive_local_token_pda(&program_id, &mint).unwrap();
    assert_eq!(first.0, second.0);
    assert_eq!(first.1, second.1);
}

#[test]
fn every_role_derivation_is_deterministic() {
    let program_id = pid(9);
    assert_eq!(
        derive_token_messenger_pda(&program_id),
        derive_token_messenger_pda(&program_id)
    );
    assert_eq!(derive_token_minter_pda(&program_id), derive_token_minter_pda(&program_id));
    assert_eq!(
        derive_remote_token_messenger_pda(&program_id, 3),
        derive_remote_token_messenger_pda(&program_id, 3)
    );
    assert_eq!(
        derive_message_transmitter_pda(&program_id),
        derive_message_transmitter_pda(&program_id)
    );
}

#[test]
fn token_messenger_matches_platform_search() {
    // The derivation must agree with the platform's own search over the
    // exact seed bytes, and the derived address is no echo of the inputs.
    let program_id = pid(5);
    let expected =
        Pubkey::find_program_address(&[b"token_messenger"], &Pubkey::new_from_array(program_id));
    let got = derive_token_messenger_pda(&program_id).unwrap();
    assert_eq!(got.0, expected.0.to_bytes());
    assert_eq!(got.1, expected.1);
    assert_ne!(got.0, program_id);
}

#[test]
fn local_token_matches_platform_search() {
    let program_id = pid(11);
    let mint = pid(13);
    let expected = Pubkey::find_program_address(
        &[b"local_token", &mint],
        &Pubkey::new_from_array(program_id),
    );
    let got = derive_local_token_pda(&program_id, &mint).unwrap();
    assert_eq!(got.0, expected.0.to_bytes());
    assert_eq!(got.1, expected.1);
}

#[test]
fn remote_token_messenger_uses_little_endian_domain() {
    let program_id = pid(17);
    let domain: u32 = 0x01020304;
    let expected = Pubkey::find_program_address(
        &[b"remote_token_messenger", &domain.to_le_bytes()],
        &Pubkey::new_from_array(program_id),
    );
    let got = derive_remote_token_messenger_pda(&program_id, domain).unwrap();
    assert_eq!(got.0, expected.0.to_bytes());
    assert_eq!(got.1, expected.1);
}

#[test]
fn token_minter_matches_platform_search() {
    let program_id = pid(19);
    let expected =
        Pubkey::find_program_address(&[b"token_minter"], &Pubkey::new_from_array(program_id));
    let got = derive_token_minter_pda(&program_id).unwrap();
    assert_eq!(got.0, expected.0.to_bytes());
    assert_eq!(got.1, expected.1);
}

#[test]
fn message_transmitter_matches_platform_search() {
    let program_id = pid(23);
    let expected = Pubkey::find_program_address(
        &[b"message_transmitter"],
        &Pubkey::new_from_array(program_id),
    );
    let got = derive_message_transmitter_pda(&program_id).unwrap();
    assert_eq!(got.0, expected.0.to_bytes());
    assert_eq!(got.1, expected.1);
}

#[test]
fn sender_authority_ignores_bump_hint() {
    let program_id = pid(29);
    let expected = Pubkey::find_program_address(
        &[b"sender_authority"],
        &Pubkey::new_from_array(program_id),
    );
    let with_zero = derive_sender_authority_pda(&program_id, 0).unwrap();
    let with_hint = derive_sender_authority_pda(&program_id, 201).unwrap();
    assert_eq!(with_zero, with_hint);
    assert_eq!(with_zero.0, expected.0.to_bytes());
    assert_eq!(with_zero.1, expected.1);
}

#[test]
fn different_programs_get_different_addresses() {
    let a = derive_token_messenger_pda(&pid(1)).unwrap();
    let b = derive_token_messenger_pda(&pid(2)).unwrap();
    assert_ne!(a.0, b.0);
}
