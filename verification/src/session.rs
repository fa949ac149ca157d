//! The per-request purchase session: a state machine over the outcomes of
//! the external steps.
//!
//! A server drives it: authorization runs against the registry when the
//! session starts; then each external outcome — credential and address
//! resolution, the ledger's answer to the submission, each confirmation
//! poll — is fed back in, and the machine decides what follows. The
//! contracts pin the decision for every possible outcome, so the protocol
//! is verified whatever the ledger does.
use vstd::prelude::*;
use crate::errors::BuyError;
use crate::ledger::{address_valid, credential_valid};
use crate::processor::{resolve, BuyParams, TransferPlan};
use crate::registry::{whitelisted, Registry};

verus! {

/// Where a purchase stands: which external step is owed next, or how it
/// ended.
#[derive(Debug, PartialEq, Eq)]
pub enum BuyPhase {
    /// Authorized; the buyer credential and vendor address are to be
    /// resolved next.
    AwaitingResolve,
    /// Resolved; the transfer is to be submitted to the ledger next.
    AwaitingSubmit,
    /// Submitted; confirmation polls are owed until the ledger confirms.
    AwaitingConfirm,
    /// The transfer is durably confirmed.
    Succeeded,
    /// The purchase ended with this failure; no further step is taken.
    Failed(BuyError),
}

/// One purchase request in flight.
#[derive(Debug, PartialEq, Eq)]
pub struct BuySession {
    /// The step the session is at.
    pub phase: BuyPhase,
    /// How many confirmation polls have been made so far.
    pub polls: u64,
}

impl BuySession {
    /// Begins a purchase by authorizing the vendor against the registry.
    /// An unregistered vendor fails the session at once, before any ledger
    /// interaction, and no later step accepts a failed session.
    pub fn start(registry: &Registry, vendor: &String) -> (s: BuySession)
        ensures
            s.polls == 0,
            whitelisted(registry@, vendor@) ==> s.phase == BuyPhase::AwaitingResolve,
            !whitelisted(registry@, vendor@) ==> (s.phase matches BuyPhase::Failed(e) && e matches
                BuyError::VendorNotWhitelisted(v) && v@ == vendor@),
    {
        if registry.contains(vendor) {
            BuySession { phase: BuyPhase::AwaitingResolve, polls: 0 }
        } else {
            BuySession {
                phase: BuyPhase::Failed(BuyError::VendorNotWhitelisted(vendor.clone())),
                polls: 0,
            }
        }
    }

    /// Records the outcome of resolving the buyer credential and the vendor
    /// address. A malformed credential is reported first; either flaw fails
    /// the session before any network submission.
    pub fn on_resolve(&mut self, credential_ok: bool, address_ok: bool)
        requires
            old(self).phase == BuyPhase::AwaitingResolve,
        ensures
            final(self).polls == old(self).polls,
            !credential_ok ==> final(self).phase == BuyPhase::Failed(
                BuyError::MalformedCredential,
            ),
            credential_ok && !address_ok ==> final(self).phase == BuyPhase::Failed(
                BuyError::MalformedAddress,
            ),
            credential_ok && address_ok ==> final(self).phase == BuyPhase::AwaitingSubmit,
    {
        if !credential_ok {
            self.phase = BuyPhase::Failed(BuyError::MalformedCredential);
        } else if !address_ok {
            self.phase = BuyPhase::Failed(BuyError::MalformedAddress);
        } else {
            self.phase = BuyPhase::AwaitingSubmit;
        }
    }

    /// Resolves the request's credential and address with the real parsers
    /// and records the outcome, handing back the transfer plan when both
    /// parse.
    pub fn resolve_step(&mut self, params: &BuyParams) -> (r: Option<TransferPlan>)
        requires
            old(self).phase == BuyPhase::AwaitingResolve,
        ensures
            final(self).polls == old(self).polls,
            r is Some <==> credential_valid(params.buyer_pair@) && address_valid(params.vendor@),
            r is Some <==> final(self).phase == BuyPhase::AwaitingSubmit,
            !credential_valid(params.buyer_pair@) ==> final(self).phase == BuyPhase::Failed(
                BuyError::MalformedCredential,
            ),
            credential_valid(params.buyer_pair@) && !address_valid(params.vendor@)
                ==> final(self).phase == BuyPhase::Failed(BuyError::MalformedAddress),
            r matches Some(p) ==> p.lamports == params.lamports,
    {
        match resolve(params) {
            Ok(plan) => {
                self.on_resolve(true, true);
                Some(plan)
            },
            Err(e) => {
                match e {
                    BuyError::MalformedCredential => self.on_resolve(false, false),
                    _ => self.on_resolve(true, false),
                }
                None
            },
        }
    }

    /// Records the ledger's answer to the submission: accepted, and
    /// confirmation polling begins; refused, and the purchase fails with
    /// `SubmissionFailed`, with no confirmation step owed.
    pub fn on_submit(&mut self, accepted: bool)
        requires
            old(self).phase == BuyPhase::AwaitingSubmit,
        ensures
            final(self).polls == old(self).polls,
            accepted ==> final(self).phase == BuyPhase::AwaitingConfirm,
            !accepted ==> final(self).phase == BuyPhase::Failed(BuyError::SubmissionFailed),
    {
        if accepted {
            self.phase = BuyPhase::AwaitingConfirm;
        } else {
            self.phase = BuyPhase::Failed(BuyError::SubmissionFailed);
        }
    }

    /// Records one confirmation poll: `Some(true)` means the ledger
    /// confirmed and the purchase succeeds; `Some(false)` means not yet,
    /// and another poll is owed; `None` means the poll itself failed, which
    /// ends the purchase with `ConfirmationCheckFailed`.
    pub fn on_poll(&mut self, outcome: Option<bool>)
        requires
            old(self).phase == BuyPhase::AwaitingConfirm,
            old(self).polls < u64::MAX,
        ensures
            final(self).polls == old(self).polls + 1,
            final(self).phase == phase_after_poll(outcome),
            outcome == Some(true) ==> final(self).phase == BuyPhase::Succeeded,
            outcome == Some(false) ==> final(self).phase == BuyPhase::AwaitingConfirm,
            outcome is None ==> final(self).phase == BuyPhase::Failed(
                BuyError::ConfirmationCheckFailed,
            ),
    {
        self.polls = self.polls + 1;
        match outcome {
            Some(true) => {
                self.phase = BuyPhase::Succeeded;
            },
            Some(false) => {},
            None => {
                self.phase = BuyPhase::Failed(BuyError::ConfirmationCheckFailed);
            },
        }
    }

    /// Records one confirmation poll under a poll budget: as `on_poll`, but
    /// when the answer is "not yet confirmed" and this poll spends the last
    /// of the budget, the purchase times out with `ConfirmationTimeout`
    /// instead of waiting forever.
    pub fn on_poll_deadline(&mut self, outcome: Option<bool>, max_polls: u64)
        requires
            old(self).phase == BuyPhase::AwaitingConfirm,
            old(self).polls < max_polls,
        ensures
            final(self).polls == old(self).polls + 1,
            outcome == Some(true) ==> final(self).phase == BuyPhase::Succeeded,
            outcome is None ==> final(self).phase == BuyPhase::Failed(
                BuyError::ConfirmationCheckFailed,
            ),
            outcome == Some(false) && old(self).polls + 1 < max_polls ==> final(self).phase
                == BuyPhase::AwaitingConfirm,
            outcome == Some(false) && old(self).polls + 1 == max_polls ==> final(self).phase
                == BuyPhase::Failed(BuyError::ConfirmationTimeout),
    {
        self.on_poll(outcome);
        if matches!(self.phase, BuyPhase::AwaitingConfirm) && self.polls == max_polls {
            self.phase = BuyPhase::Failed(BuyError::ConfirmationTimeout);
        }
    }
}

/// The phase a session awaiting confirmation is in after one poll with this
/// outcome.
pub open spec fn phase_after_poll(outcome: Option<bool>) -> BuyPhase {
    match outcome {
        Some(true) => BuyPhase::Succeeded,
        Some(false) => BuyPhase::AwaitingConfirm,
        None => BuyPhase::Failed(BuyError::ConfirmationCheckFailed),
    }
}

/// The phase a session that has just submitted reaches after this run of
/// poll outcomes, each fed to `on_poll` while the session still awaits
/// confirmation.
pub open spec fn phase_after_polls(outcomes: Seq<Option<bool>>) -> BuyPhase
    decreases outcomes.len(),
{
    if outcomes.len() == 0 {
        BuyPhase::AwaitingConfirm
    } else {
        let before = phase_after_polls(outcomes.drop_last());
        if before == BuyPhase::AwaitingConfirm {
            phase_after_poll(outcomes.last())
        } else {
            before
        }
    }
}

/// A ledger that keeps answering "not yet confirmed" keeps the session
/// awaiting confirmation: another poll is owed after every such answer.
pub proof fn lemma_waiting_while_not_confirmed(outcomes: Seq<Option<bool>>)
    requires
        forall|i: int| 0 <= i < outcomes.len() ==> outcomes[i] == Some(false),
    ensures
        phase_after_polls(outcomes) == BuyPhase::AwaitingConfirm,
    decreases outcomes.len(),
{
    if outcomes.len() > 0 {
        lemma_waiting_while_not_confirmed(outcomes.drop_last());
    }
}

/// Law: against a ledger that answers "not yet confirmed" some number of
/// times and then confirms, the purchase is still awaiting confirmation
/// after every poll but the last, and succeeds exactly at the last one —
/// after as many polls as the ledger took answers.
pub proof fn lemma_succeeds_only_after_last_poll(outcomes: Seq<Option<bool>>)
    requires
        outcomes.len() > 0,
        forall|i: int| 0 <= i < outcomes.len() - 1 ==> outcomes[i] == Some(false),
        outcomes.last() == Some(true),
    ensures
        forall|j: int| 0 <= j < outcomes.len() ==> phase_after_polls(#[trigger] outcomes.take(j))
            == BuyPhase::AwaitingConfirm,
        phase_after_polls(outcomes) == BuyPhase::Succeeded,
{
    assert forall|j: int| 0 <= j < outcomes.len() implies phase_after_polls(
        #[trigger] outcomes.take(j),
    ) == BuyPhase::AwaitingConfirm by {
        assert(forall|i: int| 0 <= i < j ==> outcomes.take(j)[i] == Some(false));
        lemma_waiting_while_not_confirmed(outcomes.take(j));
    }
    assert(outcomes.drop_last() =~= outcomes.take(outcomes.len() - 1));
}

/// Law: a failed session is terminal. It is at none of the phases that the
/// resolution, submission or polling steps require, so no ledger step
/// accepts it.
pub proof fn lemma_failed_is_terminal(s: BuySession)
    requires
        s.phase matches BuyPhase::Failed(_),
    ensures
        s.phase != BuyPhase::AwaitingResolve,
        s.phase != BuyPhase::AwaitingSubmit,
        s.phase != BuyPhase::AwaitingConfirm,
{
}

} // verus!
