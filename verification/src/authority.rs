//! Deterministic derivation of program-controlled signing authorities.
//!
//! Given a fixed seed string and the program's own 32-byte identity, the host
//! environment defines a derived address plus a bump (disambiguation) value
//! such that only the program can produce a valid signature attributable to
//! that address. The derivation is pure: it depends on the seed and the
//! program identity alone. It is recomputed on every use, never cached, since
//! the bump can vary by seed.

use vstd::prelude::*;

verus! {

/// What the host's address derivation returns for a seed and a program
/// identity: the derived 32-byte address and its bump value, or nothing in the
/// statistically improbable event that no bump yields a valid address.
pub uninterp spec fn derived_authority_of(seed: Seq<char>, program_id: Seq<u8>) -> Option<
    ([u8; 32], u8),
>;

/// Relies on solana_pubkey's Pubkey::try_find_program_address: for fewer seeds
/// than the seed cap, the result is a function of the seeds and the program id
/// alone; it is None only when no bump yields a valid derived address.
#[verifier::external_body]
fn derive_authority(seed: &str, program_id: &[u8; 32]) -> (r: Option<([u8; 32], u8)>)
    ensures
        r == derived_authority_of(seed@, program_id@),
{
    let program = solana_pubkey::Pubkey::new_from_array(*program_id);
    let derived = solana_pubkey::Pubkey::try_find_program_address(&[seed.as_bytes()], &program);
    derived.map(|(key, bump)| (key.to_bytes(), bump))
}

/// The derived authority that approves delegated point transfers.
pub open spec fn platform_authority_spec(program_id: Seq<u8>) -> Option<([u8; 32], u8)> {
    derived_authority_of("platform_authority"@, program_id)
}

/// The derived authority that signs reward-point minting.
pub open spec fn mint_authority_spec(program_id: Seq<u8>) -> Option<([u8; 32], u8)> {
    derived_authority_of("mint_authority"@, program_id)
}

/// Holds when `key` is the platform authority derived for `program_id`.
pub open spec fn is_platform_authority(key: Seq<u8>, program_id: Seq<u8>) -> bool {
    platform_authority_spec(program_id) matches Some(p) && p.0@ == key
}

/// Holds when `key` is the mint authority derived for `program_id`.
pub open spec fn is_mint_authority(key: Seq<u8>, program_id: Seq<u8>) -> bool {
    mint_authority_spec(program_id) matches Some(p) && p.0@ == key
}

/// Derives the platform authority for the program identity.
pub fn platform_authority(program_id: &[u8; 32]) -> (r: Option<([u8; 32], u8)>)
    ensures
        r == platform_authority_spec(program_id@),
{
    derive_authority("platform_authority", program_id)
}

/// Derives the mint authority for the program identity.
pub fn mint_authority(program_id: &[u8; 32]) -> (r: Option<([u8; 32], u8)>)
    ensures
        r == mint_authority_spec(program_id@),
{
    derive_authority("mint_authority", program_id)
}

} // verus!
