//! The Solana primitives the library relies on: SHA-256, program derived
//! addresses and the base58 text form of addresses. Each is computed by the
//! Solana crates that `anchor_lang` re-exports; the library states over named
//! results what they return.
use vstd::prelude::*;

verus! {

/// The SHA-256 digest of `data`.
pub uninterp spec fn spec_sha256(data: Seq<u8>) -> Seq<u8>;

/// What `Pubkey::try_find_program_address` returns for the seeds and program
/// id: the derived address and bump seed, or `None` when no bump seed works.
pub uninterp spec fn spec_find_program_address(seeds: Seq<Seq<u8>>, program_id: Seq<u8>) -> Option<
    (Seq<u8>, u8),
>;

/// The base58 text form of a 32-byte address.
pub uninterp spec fn spec_base58(key: Seq<u8>) -> Seq<char>;

/// The 32 bytes of the address `Pubkey::from_str` reads from the text, or
/// `None` when the text is not the base58 form of 32 bytes.
pub uninterp spec fn spec_parse_pubkey(text: Seq<char>) -> Option<Seq<u8>>;

/// Calls `solana_program::hash::hash`, the SHA-256 digest of `data`, and
/// returns its 32 bytes. The contract claims that the result is the digest
/// (by name) and is 32 bytes long.
#[verifier::external_body]
pub(crate) fn sha256(data: &[u8]) -> (r: Vec<u8>)
    ensures
        r@ == spec_sha256(data@),
        r@.len() == 32,
{
    anchor_lang::solana_program::hash::hash(data).to_bytes().to_vec()
}

/// Calls `Pubkey::try_find_program_address` with the given seeds and the
/// 32-byte program id, and returns the derived address's bytes and the bump
/// seed. The contract claims that the result is the named result of the call
/// and that a derived address is 32 bytes long.
#[verifier::external_body]
pub(crate) fn try_find_program_address(seeds: &Vec<Vec<u8>>, program_id: &Vec<u8>) -> (r: Option<
    (Vec<u8>, u8),
>)
    requires
        program_id@.len() == 32,
    ensures
        match r {
            Some((key, bump)) => {
                &&& key@.len() == 32
                &&& spec_find_program_address(seeds.deep_view(), program_id@) == Some((key@, bump))
            },
            None => spec_find_program_address(seeds.deep_view(), program_id@) is None,
        },
{
    let seed_slices: Vec<&[u8]> = seeds.iter().map(|s| s.as_slice()).collect();
    let id = anchor_lang::prelude::Pubkey::new_from_array(program_id.as_slice().try_into().unwrap());
    anchor_lang::prelude::Pubkey::try_find_program_address(&seed_slices, &id).map(
        |(key, bump)| (key.to_bytes().to_vec(), bump),
    )
}

/// Calls `Pubkey::to_string` (its `Display` form, base58) on the address with
/// the given 32 bytes. The contract claims that the result is the named base58
/// form of the bytes, and that `Pubkey::from_str` reads that text back as the
/// same 32 bytes (base58 text of 32 bytes is at most 44 characters, which
/// `from_str` accepts, and base58 decoding inverts the encoding).
#[verifier::external_body]
pub(crate) fn base58_string(key: &Vec<u8>) -> (r: String)
    requires
        key@.len() == 32,
    ensures
        r@ == spec_base58(key@),
        spec_parse_pubkey(r@) == Some(key@),
{
    anchor_lang::prelude::Pubkey::new_from_array(key.as_slice().try_into().unwrap()).to_string()
}

/// Calls `Pubkey::from_str` (base58) and returns the address's 32 bytes.
/// The contract claims that the result is the named result of the call and
/// that an address read is 32 bytes long.
#[verifier::external_body]
pub(crate) fn parse_pubkey_text(text: &str) -> (r: Option<Vec<u8>>)
    ensures
        match r {
            Some(b) => b@.len() == 32 && spec_parse_pubkey(text@) == Some(b@),
            None => spec_parse_pubkey(text@) is None,
        },
{
    <anchor_lang::prelude::Pubkey as core::str::FromStr>::from_str(text).ok().map(|k| k.to_bytes().to_vec())
}

} // verus!
