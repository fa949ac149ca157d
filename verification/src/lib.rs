//! A small payment gateway: a vendor whitelist registry and a payment
//! processor that authorizes a transfer request against the registry and
//! drives an external ledger through a submit/confirm protocol.
//!
//! The registry and the processor's decisions are verified; the ledger
//! itself (network submission and confirmation polling) is an external
//! collaborator that a server drives, feeding each outcome back into the
//! verified session state machine.
pub mod errors;
pub mod ledger;
pub mod processor;
pub mod registry;
pub mod session;
