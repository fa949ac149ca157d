use payment_gateway::errors::BuyError;
use payment_gateway::processor::BuyParams;
use payment_gateway::registry::{Registry, Vendor};
use payment_gateway::session::{BuyPhase, BuySession};

// An ed25519 keypair in the ledger's base58 wire form: 64 bytes, the secret
// seed followed by the public key it derives.
const VALID_BUYER_PAIR: &str =
    "49W385L4rePHy6PAaQUovbD2aacgN4HsKXSMeUzRg4fmwXszN91JuMFrQRj3vMDpZuRF3ZknQBuRBoWQJEfXstMw";

// The matching public key alone, base58: a well-formed 32-byte address.
const VALID_ADDRESS: &str = "FVen3X669xLzsi6N2V91DoiyzHzg1uAgqiT8jZ9nS96Z";

fn registry_with(wallet_id: &str, name: &str) -> Registry {
    let mut registry = Registry::new();
    registry.insert(Vendor {
        wallet_id: wallet_id.to_string(),
        name: name.to_string(),
        address: String::new(),
        services: Vec::new(),
    });
    registry
}

#[test]
fn unknown_vendor_fails_before_any_ledger_step() {
    let registry = registry_with("V1", "Acme");
    let session = BuySession::start(&registry, &"V2".to_string());
    match &session.phase {
        BuyPhase::Failed(BuyError::VendorNotWhitelisted(v)) => assert_eq!(v, "V2"),
        other => panic!("expected a whitelist failure, got {:?}", other),
    }
    assert_eq!(session.polls, 0);
}

#[test]
fn whitelist_failure_message_names_the_vendor() {
    let registry = registry_with("V1", "Acme");
    let session = BuySession::start(&registry, &"V2".to_string());
    match session.phase {
        BuyPhase::Failed(e) => assert_eq!(e.message(), "V2 is not whitelisted"),
        other => panic!("expected a failure, got {:?}", other),
    }
}

#[test]
fn malformed_credential_fails_before_submission() {
    let registry = registry_with("V1", "Acme");
    let mut session = BuySession::start(&registry, &"V1".to_string());
    assert_eq!(session.phase, BuyPhase::AwaitingResolve);
    let params = BuyParams {
        lamports: 100,
        vendor: "V1".to_string(),
        buyer_pair: "not a credential".to_string(),
    };
    let plan = session.resolve_step(&params);
    assert!(plan.is_none());
    assert_eq!(
        session.phase,
        BuyPhase::Failed(BuyError::MalformedCredential)
    );
    assert_eq!(session.polls, 0);
}

#[test]
fn confirms_only_after_three_polls() {
    // A ledger stub that accepts the submission and answers "not confirmed"
    // twice before confirming.
    let registry = registry_with("V1", "Acme");
    let mut session = BuySession::start(&registry, &"V1".to_string());
    session.on_resolve(true, true);
    session.on_submit(true);
    session.on_poll(Some(false));
    assert_eq!(session.phase, BuyPhase::AwaitingConfirm);
    session.on_poll(Some(false));
    assert_eq!(session.phase, BuyPhase::AwaitingConfirm);
    session.on_poll(Some(true));
    assert_eq!(session.phase, BuyPhase::Succeeded);
    assert_eq!(session.polls, 3);
}

#[test]
fn submission_error_is_terminal_and_skips_confirmation() {
    // A ledger stub whose submission call always errors.
    let registry = registry_with("V1", "Acme");
    let mut session = BuySession::start(&registry, &"V1".to_string());
    session.on_resolve(true, true);
    session.on_submit(false);
    assert_eq!(session.phase, BuyPhase::Failed(BuyError::SubmissionFailed));
    // No confirmation poll was ever made.
    assert_eq!(session.polls, 0);
}

#[test]
fn poll_error_fails_the_purchase() {
    let registry = registry_with("V1", "Acme");
    let mut session = BuySession::start(&registry, &"V1".to_string());
    session.on_resolve(true, true);
    session.on_submit(true);
    session.on_poll(None);
    assert_eq!(
        session.phase,
        BuyPhase::Failed(BuyError::ConfirmationCheckFailed)
    );
    assert_eq!(session.polls, 1);
}

#[test]
fn purchase_succeeds_for_registered_vendor() {
    // Register {wallet_id: "V1", name: "Acme"}, then buy 100 lamports from
    // "V1" with resolution stubbed and a ledger stub that confirms at once.
    let registry = registry_with("V1", "Acme");
    let mut session = BuySession::start(&registry, &"V1".to_string());
    assert_eq!(session.phase, BuyPhase::AwaitingResolve);
    session.on_resolve(true, true);
    assert_eq!(session.phase, BuyPhase::AwaitingSubmit);
    session.on_submit(true);
    session.on_poll(Some(true));
    assert_eq!(session.phase, BuyPhase::Succeeded);
}

#[test]
fn full_flow_with_real_parsers() {
    let registry = registry_with(VALID_ADDRESS, "Acme");
    let vendor = VALID_ADDRESS.to_string();
    let mut session = BuySession::start(&registry, &vendor);
    assert_eq!(session.phase, BuyPhase::AwaitingResolve);
    let params = BuyParams {
        lamports: 100,
        vendor,
        buyer_pair: VALID_BUYER_PAIR.to_string(),
    };
    let plan = session
        .resolve_step(&params)
        .expect("a well-formed request must resolve");
    assert_eq!(plan.lamports, 100);
    assert_eq!(session.phase, BuyPhase::AwaitingSubmit);
    session.on_submit(true);
    session.on_poll(Some(true));
    assert_eq!(session.phase, BuyPhase::Succeeded);
    assert_eq!(session.polls, 1);
}

#[test]
fn bounded_polling_times_out() {
    // A poll budget of two, against a ledger that never confirms.
    let registry = registry_with("V1", "Acme");
    let mut session = BuySession::start(&registry, &"V1".to_string());
    session.on_resolve(true, true);
    session.on_submit(true);
    session.on_poll_deadline(Some(false), 2);
    assert_eq!(session.phase, BuyPhase::AwaitingConfirm);
    session.on_poll_deadline(Some(false), 2);
    assert_eq!(session.phase, BuyPhase::Failed(BuyError::ConfirmationTimeout));
    assert_eq!(session.polls, 2);
}

#[test]
fn bounded_polling_still_confirms_within_budget() {
    let registry = registry_with("V1", "Acme");
    let mut session = BuySession::start(&registry, &"V1".to_string());
    session.on_resolve(true, true);
    session.on_submit(true);
    session.on_poll_deadline(Some(false), 3);
    session.on_poll_deadline(Some(true), 3);
    assert_eq!(session.phase, BuyPhase::Succeeded);
    assert_eq!(session.polls, 2);
}

#[test]
fn timeout_has_its_own_message() {
    assert_eq!(
        BuyError::ConfirmationTimeout.message(),
        "confirmation timed out"
    );
}
