//! Deterministic derivation of the program-derived addresses (PDAs) that the
//! external burn/message programs require.
//!
//! Each role has a fixed seed (its ASCII name), optionally followed by a
//! role-specific discriminator (the mint address, or the destination domain
//! as four little-endian bytes), and every seed list is scoped by the owning
//! program's identity. The search itself — hash the seeds with a bump byte
//! until the result leaves the ed25519 curve — is the platform's algorithm;
//! its outcome is a pure function of the seeds and the program id, named
//! here by [`pda_of`].

use vstd::prelude::*;
use vstd::bytes::{spec_u32_to_le_bytes, u32_to_le_bytes};
use vstd::slice::slice_to_vec;


verus! {

/// The ASCII bytes of `"token_messenger"`.
pub const TOKEN_MESSENGER_SEED: [u8; 15] = [116, 111, 107, 101, 110, 95, 109, 101, 115, 115, 101, 110, 103, 101, 114];

/// The ASCII bytes of `"token_minter"`.
pub const TOKEN_MINTER_SEED: [u8; 12] = [116, 111, 107, 101, 110, 95, 109, 105, 110, 116, 101, 114];

/// The ASCII bytes of `"local_token"`.
pub const LOCAL_TOKEN_SEED: [u8; 11] = [108, 111, 99, 97, 108, 95, 116, 111, 107, 101, 110];

/// The ASCII bytes of `"remote_token_messenger"`.
pub const REMOTE_TOKEN_MESSENGER_SEED: [u8; 22] = [114, 101, 109, 111, 116, 101, 95, 116, 111, 107, 101, 110, 95, 109, 101, 115, 115, 101, 110, 103, 101, 114];

/// The ASCII bytes of `"sender_authority"`.
pub const SENDER_AUTHORITY_SEED: [u8; 16] = [115, 101, 110, 100, 101, 114, 95, 97, 117, 116, 104, 111, 114, 105, 116, 121];

/// The ASCII bytes of `"message_transmitter"`.
pub const MESSAGE_TRANSMITTER_SEED: [u8; 19] = [109, 101, 115, 115, 97, 103, 101, 95, 116, 114, 97, 110, 115, 109, 105, 116, 116, 101, 114];

/// The address and bump that the platform's deterministic PDA search yields
/// for a seed list scoped by a program id, or `None` in the statistically
/// improbable event that no bump works (or a platform seed limit is hit).
/// The search is a pure function of its two arguments: no randomness, no
/// I/O, no ambient state.
pub uninterp spec fn pda_of(seeds: Seq<Seq<u8>>, program_id: Seq<u8>) -> Option<(Seq<u8>, u8)>;

/// The mathematical value of a derivation result: the address as its byte
/// sequence, alongside the bump.
pub open spec fn spec_pda_view(r: Option<([u8; 32], u8)>) -> Option<(Seq<u8>, u8)> {
    match r {
        Some(p) => Some((p.0@, p.1)),
        None => None,
    }
}

/// Relies on `Address::try_find_program_address` of the `solana-address`
/// crate (the `Pubkey` that `anchor_lang` re-exports): it hashes the seeds,
/// the program id and a bump byte counted down from 255 with SHA-256 until
/// the digest is no ed25519 curve point, so its result is a pure function of
/// `seeds` and `program_id`, and it returns `None` instead of panicking when
/// no bump works or a seed exceeds the platform's limits.
#[verifier::external_body]
fn try_find_pda(seeds: &Vec<Vec<u8>>, program_id: &[u8; 32]) -> (r: Option<([u8; 32], u8)>)
    ensures
        spec_pda_view(r) == pda_of(seeds.deep_view(), program_id@),
{
    let seed_slices: Vec<&[u8]> = seeds.iter().map(|s| s.as_slice()).collect();
    let pid = anchor_lang::prelude::Pubkey::new_from_array(*program_id);
    anchor_lang::prelude::Pubkey::try_find_program_address(&seed_slices, &pid)
        .map(|(addr, bump)| (addr.to_bytes(), bump))
}

/// Derive the token-messenger state PDA: seed `"token_messenger"`, no
/// discriminator, scoped by `program_id`.
pub fn derive_token_messenger_pda(program_id: &[u8; 32]) -> (r: Option<([u8; 32], u8)>)
    ensures
        spec_pda_view(r) == pda_of(seq![TOKEN_MESSENGER_SEED@], program_id@),
{
    let mut seeds: Vec<Vec<u8>> = Vec::new();
    seeds.push(slice_to_vec(TOKEN_MESSENGER_SEED.as_slice()));
    proof {
        assert(seeds.deep_view() =~~= seq![TOKEN_MESSENGER_SEED@]);
    }
    try_find_pda(&seeds, program_id)
}

/// Derive the token-minter state PDA: seed `"token_minter"`, no
/// discriminator, scoped by `program_id`.
pub fn derive_token_minter_pda(program_id: &[u8; 32]) -> (r: Option<([u8; 32], u8)>)
    ensures
        spec_pda_view(r) == pda_of(seq![TOKEN_MINTER_SEED@], program_id@),
{
    let mut seeds: Vec<Vec<u8>> = Vec::new();
    seeds.push(slice_to_vec(TOKEN_MINTER_SEED.as_slice()));
    proof {
        assert(seeds.deep_view() =~~= seq![TOKEN_MINTER_SEED@]);
    }
    try_find_pda(&seeds, program_id)
}

/// Derive the local-token state PDA: seed `"local_token"` followed by the
/// mint address bytes, scoped by `program_id`.
pub fn derive_local_token_pda(program_id: &[u8; 32], mint: &[u8; 32]) -> (r: Option<([u8; 32], u8)>)
    ensures
        spec_pda_view(r) == pda_of(seq![LOCAL_TOKEN_SEED@, mint@], program_id@),
{
    let mut seeds: Vec<Vec<u8>> = Vec::new();
    seeds.push(slice_to_vec(LOCAL_TOKEN_SEED.as_slice()));
    seeds.push(slice_to_vec(mint.as_slice()));
    proof {
        assert(seeds.deep_view() =~~= seq![LOCAL_TOKEN_SEED@, mint@]);
    }
    try_find_pda(&seeds, program_id)
}

/// Derive the remote-token-messenger state PDA: seed
/// `"remote_token_messenger"` followed by the destination domain as four
/// little-endian bytes, scoped by `program_id`.
pub fn derive_remote_token_messenger_pda(program_id: &[u8; 32], domain: u32) -> (r: Option<([u8; 32], u8)>)
    ensures
        spec_pda_view(r) == pda_of(
            seq![REMOTE_TOKEN_MESSENGER_SEED@, spec_u32_to_le_bytes(domain)],
            program_id@,
        ),
{
    let mut seeds: Vec<Vec<u8>> = Vec::new();
    seeds.push(slice_to_vec(REMOTE_TOKEN_MESSENGER_SEED.as_slice()));
    seeds.push(u32_to_le_bytes(domain));
    proof {
        assert(seeds.deep_view() =~~= seq![REMOTE_TOKEN_MESSENGER_SEED@, spec_u32_to_le_bytes(domain)]);
    }
    try_find_pda(&seeds, program_id)
}

/// Derive the sender-authority PDA: the constant seed `"sender_authority"`,
/// scoped by `program_id`. The bump hint is deliberately ignored — the seed
/// is constant regardless of it, as the contract shows.
pub fn derive_sender_authority_pda(program_id: &[u8; 32], _authority_bump: u8) -> (r: Option<([u8; 32], u8)>)
    ensures
        spec_pda_view(r) == pda_of(seq![SENDER_AUTHORITY_SEED@], program_id@),
{
    let mut seeds: Vec<Vec<u8>> = Vec::new();
    seeds.push(slice_to_vec(SENDER_AUTHORITY_SEED.as_slice()));
    proof {
        assert(seeds.deep_view() =~~= seq![SENDER_AUTHORITY_SEED@]);
    }
    try_find_pda(&seeds, program_id)
}

/// Derive the message-transmitter state PDA: seed `"message_transmitter"`,
/// no discriminator, scoped by `program_id`.
pub fn derive_message_transmitter_pda(program_id: &[u8; 32]) -> (r: Option<([u8; 32], u8)>)
    ensures
        spec_pda_view(r) == pda_of(seq![MESSAGE_TRANSMITTER_SEED@], program_id@),
{
    let mut seeds: Vec<Vec<u8>> = Vec::new();
    seeds.push(slice_to_vec(MESSAGE_TRANSMITTER_SEED.as_slice()));
    proof {
        assert(seeds.deep_view() =~~= seq![MESSAGE_TRANSMITTER_SEED@]);
    }
    try_find_pda(&seeds, program_id)
}

/// Law: PDA derivation is deterministic and idempotent — two derivations of
/// the same role with the same seeds and the same owning program id yield an
/// identical address and bump.
pub proof fn lemma_pda_derivation_deterministic(
    r1: Option<([u8; 32], u8)>,
    r2: Option<([u8; 32], u8)>,
    seeds: Seq<Seq<u8>>,
    program_id: Seq<u8>,
)
    requires
        spec_pda_view(r1) == pda_of(seeds, program_id),
        spec_pda_view(r2) == pda_of(seeds, program_id),
    ensures
        r1 == r2,
{
    broadcast use vstd::array::group_array_axioms;

    match (r1, r2) {
        (Some(p1), Some(p2)) => {
            assert(p1.0@ == p2.0@);
            assert(p1.0 =~= p2.0);
        },
        _ => {},
    }
}

} // verus!
