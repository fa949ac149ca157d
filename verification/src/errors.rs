//! The failure taxonomy of a purchase. Every kind is terminal for its
//! request; the server reports the message to the caller.
use vstd::prelude::*;
use vstd::string::StringExecFns;

verus! {

/// Why a purchase request was refused or abandoned.
#[derive(Debug, PartialEq, Eq)]
pub enum BuyError {
    /// The target vendor is not in the registry; carries the identifier
    /// that was asked for.
    VendorNotWhitelisted(String),
    /// The buyer credential does not decode to a signing identity.
    MalformedCredential,
    /// The vendor identifier does not decode to a ledger address.
    MalformedAddress,
    /// The ledger refused or could not accept the submission.
    SubmissionFailed,
    /// A confirmation poll itself failed (as opposed to reporting
    /// "not yet confirmed").
    ConfirmationCheckFailed,
    /// The poll budget was spent and the ledger still had not confirmed.
    ConfirmationTimeout,
}

impl BuyError {
    /// The human-readable message reported to the caller.
    pub open spec fn spec_message(&self) -> Seq<char> {
        match self {
            BuyError::VendorNotWhitelisted(v) => v@ + " is not whitelisted"@,
            BuyError::MalformedCredential => "malformed buyer credential"@,
            BuyError::MalformedAddress => "malformed vendor address"@,
            BuyError::SubmissionFailed => "transaction submission failed"@,
            BuyError::ConfirmationCheckFailed => "confirmation check failed"@,
            BuyError::ConfirmationTimeout => "confirmation timed out"@,
        }
    }

    /// Renders the message. The buyer credential never appears in it.
    pub fn message(&self) -> (r: String)
        ensures
            r@ == self.spec_message(),
    {
        match self {
            BuyError::VendorNotWhitelisted(v) => v.clone().concat(" is not whitelisted"),
            BuyError::MalformedCredential => "malformed buyer credential".to_owned(),
            BuyError::MalformedAddress => "malformed vendor address".to_owned(),
            BuyError::SubmissionFailed => "transaction submission failed".to_owned(),
            BuyError::ConfirmationCheckFailed => "confirmation check failed".to_owned(),
            BuyError::ConfirmationTimeout => "confirmation timed out".to_owned(),
        }
    }
}

} // verus!
