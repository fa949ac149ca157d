//! The boundary to the external ledger's key and address formats.
//!
//! The two parsers are pure functions of their input text; their outside
//! implementations are relied on, with each outcome given a name that the
//! processor's contracts are stated over.
use vstd::prelude::*;
use solana_sdk::pubkey::Pubkey;
use solana_sdk::signature::Keypair;

verus! {

#[verifier::external_type_specification]
#[verifier::external_body]
pub struct ExKeypair(Keypair);

#[verifier::external_type_specification]
#[verifier::external_body]
pub struct ExPubkey(Pubkey);

/// Whether `s` is a well-formed buyer credential: base58 text that decodes
/// to 64 bytes whose second half is the public key derived from the first.
pub uninterp spec fn credential_valid(s: Seq<char>) -> bool;

/// Whether `s` is a well-formed ledger address: base58 text that decodes to
/// exactly 32 bytes.
pub uninterp spec fn address_valid(s: Seq<char>) -> bool;

/// Relies on solana_sdk's Keypair::try_from_base58_string: it returns a
/// signing identity, or an error on malformed text, and its outcome depends
/// on the text alone.
#[verifier::external_body]
pub(crate) fn parse_credential(s: &str) -> (r: Option<Keypair>)
    ensures
        r is Some <==> credential_valid(s@),
{
    Keypair::try_from_base58_string(s).ok()
}

/// Relies on solana_sdk's Pubkey::from_str: it returns an account address,
/// or an error on malformed text, and its outcome depends on the text alone.
#[verifier::external_body]
pub(crate) fn parse_address(s: &str) -> (r: Option<Pubkey>)
    ensures
        r is Some <==> address_valid(s@),
{
    <Pubkey as core::str::FromStr>::from_str(s).ok()
}

} // verus!
