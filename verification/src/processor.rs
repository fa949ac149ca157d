//! The front half of a purchase: the request, the transfer plan built from
//! it, and the resolution of the buyer credential and the vendor address
//! into ledger identities.
use vstd::prelude::*;
use solana_sdk::pubkey::Pubkey;
use solana_sdk::signature::Keypair;
use crate::errors::BuyError;
use crate::ledger::{address_valid, credential_valid, parse_address, parse_credential};
use crate::registry::{whitelisted, Registry};

verus! {

/// A purchase request: the amount in the smallest currency unit, the target
/// vendor's wallet identifier, and the buyer's secret credential.
pub struct BuyParams {
    pub lamports: u64,
    pub vendor: String,
    pub buyer_pair: String,
}

/// Everything needed to build and sign the transfer: the buyer's signing
/// identity, the vendor's ledger address, and the amount.
pub struct TransferPlan {
    pub payer: Keypair,
    pub recipient: Pubkey,
    pub lamports: u64,
}

/// Checks the target vendor against the registry. This happens before any
/// ledger interaction: an unknown vendor is refused with no resource spent.
pub fn authorize(registry: &Registry, vendor: &String) -> (r: Result<(), BuyError>)
    ensures
        r is Ok <==> whitelisted(registry@, vendor@),
        r matches Err(e) ==> (e matches BuyError::VendorNotWhitelisted(v) && v@ == vendor@),
{
    if registry.contains(vendor) {
        Ok(())
    } else {
        Err(BuyError::VendorNotWhitelisted(vendor.clone()))
    }
}

/// Parses the buyer credential, then the vendor address, into the ledger
/// identities of a transfer plan. The credential is checked first, so a
/// malformed credential is reported even when the address is bad too.
pub fn resolve(params: &BuyParams) -> (r: Result<TransferPlan, BuyError>)
    ensures
        r is Ok <==> credential_valid(params.buyer_pair@) && address_valid(params.vendor@),
        !credential_valid(params.buyer_pair@) ==> (r matches Err(e) && e
            == BuyError::MalformedCredential),
        credential_valid(params.buyer_pair@) && !address_valid(params.vendor@) ==> (r matches Err(e)
            && e == BuyError::MalformedAddress),
        r matches Ok(p) ==> p.lamports == params.lamports,
{
    let payer = match parse_credential(params.buyer_pair.as_str()) {
        Some(k) => k,
        None => {
            return Err(BuyError::MalformedCredential);
        },
    };
    let recipient = match parse_address(params.vendor.as_str()) {
        Some(a) => a,
        None => {
            return Err(BuyError::MalformedAddress);
        },
    };
    Ok(TransferPlan { payer, recipient, lamports: params.lamports })
}

} // verus!
