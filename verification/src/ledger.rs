//! Trusted bindings to the external collaborators: the asset-ledger (token)
//! program's identity and account encoding, and the deterministic address
//! derivation primitive.
//!
//! Each binding wraps one outside function; its contract states what that
//! function's source shows, and the processor's own guarantees are proved
//! from these contracts.

use vstd::prelude::*;
use vstd::bytes::spec_u64_from_le_bytes;
use solana_program::program_pack::Pack;

verus! {

/// The well-known identity of the asset-ledger program, as the 32 raw bytes
/// of the address that spl-token declares for itself.
pub open spec fn spec_token_program_id() -> Seq<u8> {
    seq![
        6u8, 221u8, 246u8, 225u8, 215u8, 101u8, 161u8, 147u8,
        217u8, 203u8, 225u8, 70u8, 206u8, 235u8, 121u8, 172u8,
        28u8, 180u8, 133u8, 237u8, 95u8, 91u8, 55u8, 145u8,
        58u8, 140u8, 245u8, 133u8, 126u8, 255u8, 0u8, 169u8,
    ]
}

/// Relies on `spl_token::id`: it returns the constant address that
/// spl-token's source declares for the token program, whose raw bytes are
/// [`spec_token_program_id`].
#[verifier::external_body]
pub(crate) fn token_program_id() -> (r: [u8; 32])
    ensures
        r@ == spec_token_program_id(),
{
    spl_token::id().to_bytes()
}

/// The address and bump seed that the platform derives from a seed and a
/// program identity, if any: a deterministic function of its two arguments
/// alone (a hash-based search over bump seeds, stated here only by name).
pub uninterp spec fn derived_address_of(seed: Seq<u8>, program_id: Seq<u8>) -> Option<(Seq<u8>, u8)>;

/// Relies on `solana_program::pubkey::Pubkey::try_find_program_address`:
/// its result depends on the seed and the program identity alone (a
/// deterministic, hash-based search over bump seeds), and is `None`
/// exactly when that search yields no address — no viable bump seed
/// exists, a statistically improbable event, or the derivation refuses
/// the seed outright (over 32 bytes).
#[verifier::external_body]
pub(crate) fn try_derive_address(seed: &Vec<u8>, program_id: &[u8; 32]) -> (r: Option<([u8; 32], u8)>)
    ensures
        r is Some <==> derived_address_of(seed@, program_id@) is Some,
        r matches Some(p) ==> derived_address_of(seed@, program_id@) == Some((p.0@, p.1)),
{
    let pid = solana_program::pubkey::Pubkey::new_from_array(*program_id);
    solana_program::pubkey::Pubkey::try_find_program_address(&[seed.as_slice()], &pid)
        .map(|(addr, bump)| (addr.to_bytes(), bump))
}

/// A four-byte tag of an optional field inside a token-ledger account
/// buffer, in the two encodings the ledger accepts: absent or present.
pub open spec fn spec_coption_tag_ok(t: Seq<u8>) -> bool {
    t == seq![0u8, 0u8, 0u8, 0u8] || t == seq![1u8, 0u8, 0u8, 0u8]
}

/// A token-ledger account buffer that the ledger's own decoder accepts:
/// the fixed length of 165 bytes, a state byte (offset 108) marking an
/// initialized or frozen account, and well-formed tags for the three
/// optional fields (delegate, native marker, close authority).
pub open spec fn spec_token_account_accepted(s: Seq<u8>) -> bool {
    &&& s.len() == 165
    &&& spec_coption_tag_ok(s.subrange(72, 76))
    &&& (s[108] == 1 || s[108] == 2)
    &&& spec_coption_tag_ok(s.subrange(109, 113))
    &&& spec_coption_tag_ok(s.subrange(129, 133))
}

/// The balance recorded in a token-ledger account buffer: bytes 64..72,
/// little-endian.
pub open spec fn spec_token_account_amount(s: Seq<u8>) -> u64 {
    spec_u64_from_le_bytes(s.subrange(64, 72))
}

/// Relies on `spl_token::state::Account::unpack`: it accepts exactly the
/// buffers that [`spec_token_account_accepted`] describes (its source
/// checks the length, decodes the three optional-field tags as 0 or 1, and
/// requires the account state byte to be initialized or frozen), and the
/// amount it returns is the field at bytes 64..72, little-endian.
#[verifier::external_body]
pub(crate) fn unpack_token_amount(data: &Vec<u8>) -> (r: Option<u64>)
    ensures
        r is Some <==> spec_token_account_accepted(data@),
        r matches Some(a) ==> a == spec_token_account_amount(data@),
{
    spl_token::state::Account::unpack(data.as_slice()).ok().map(|a| a.amount)
}

} // verus!
