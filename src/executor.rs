//! One transfer's run against the ledger service, as a state machine.
//!
//! The service calls themselves happen outside: the machine says which call
//! to make next and turns each reply into the next step, ending in exactly
//! one outcome.

use vstd::prelude::*;
use vstd::string::*;
use crate::dispatch::TransferRequest;

verus! {

/// How a transfer ended.
pub enum TransferStatus {
    /// Confirmed by the service under this reference.
    Success { reference: String },
    /// Not applied, for this reason.
    Failed { reason: String },
}

/// The record of one dispatched transfer.
pub struct TransferOutcome {
    pub source: String,
    pub destination: String,
    pub status: TransferStatus,
    /// Time from start to confirmation; zero for a failed transfer.
    pub elapsed_nanos: u64,
}

/// What a status text starts with when the transfer failed.
pub open spec fn failure_marker() -> Seq<char> {
    "Failed: "@
}

/// What the status reads as.
pub open spec fn status_text_of(status: TransferStatus) -> Seq<char> {
    match status {
        TransferStatus::Success { .. } => "Success"@,
        TransferStatus::Failed { reason } => failure_marker() + reason@,
    }
}

/// The confirmation reference, present for a success alone.
pub open spec fn reference_of(status: TransferStatus) -> Option<Seq<char>> {
    match status {
        TransferStatus::Success { reference } => Some(reference@),
        TransferStatus::Failed { .. } => None,
    }
}

/// The reason given when no reference point could be fetched.
pub open spec fn reference_point_failure(cause: Seq<char>) -> Seq<char> {
    "could not obtain reference point: "@ + cause
}

/// The text that stands for a missing reference in a report.
pub open spec fn not_applicable() -> Seq<char> {
    "N/A"@
}

impl TransferStatus {
    pub fn is_success(&self) -> (r: bool)
        ensures
            r == (self is Success),
    {
        match self {
            TransferStatus::Success { .. } => true,
            TransferStatus::Failed { .. } => false,
        }
    }
}

impl TransferOutcome {
    /// The status as text: `Success`, or the failure marker and the reason.
    pub fn status_text(&self) -> (r: String)
        ensures
            r@ == status_text_of(self.status),
    {
        match &self.status {
            TransferStatus::Success { .. } => String::from_str("Success"),
            TransferStatus::Failed { reason } => String::from_str("Failed: ").concat(reason.as_str()),
        }
    }

    /// The confirmation reference, if the transfer succeeded.
    pub fn reference(&self) -> (r: Option<String>)
        ensures
            r is Some <==> reference_of(self.status) is Some,
            r is Some ==> r.unwrap()@ == reference_of(self.status).unwrap(),
    {
        match &self.status {
            TransferStatus::Success { reference } => Some(reference.clone()),
            TransferStatus::Failed { .. } => None,
        }
    }

    /// The reference as it appears in a report, `N/A` when there is none.
    pub fn reference_text(&self) -> (r: String)
        ensures
            r@ == match reference_of(self.status) {
                Some(x) => x,
                None => not_applicable(),
            },
    {
        match &self.status {
            TransferStatus::Success { reference } => reference.clone(),
            TransferStatus::Failed { .. } => String::from_str("N/A"),
        }
    }
}

/// An outcome's status is a success exactly when it carries a reference.
pub proof fn lemma_success_iff_reference(outcome: TransferOutcome)
    ensures
        (outcome.status is Success) <==> reference_of(outcome.status) is Some,
{
}

/// A failed transfer, whether the reference point could not be fetched or the
/// submission failed, reads as the failure marker followed by its reason and
/// carries no reference.
pub proof fn lemma_failure_marked(outcome: TransferOutcome, source: Seq<char>, destination: Seq<char>, reason: Seq<char>)
    requires
        failed_outcome(outcome, source, destination, reason),
    ensures
        status_text_of(outcome.status) == failure_marker() + reason,
        status_text_of(outcome.status).subrange(0, failure_marker().len() as int) == failure_marker(),
        reference_of(outcome.status) is None,
{
    assert((failure_marker() + reason).subrange(0, failure_marker().len() as int) =~= failure_marker());
}

/// Where a transfer's run stands.
#[derive(Debug, PartialEq, Eq, Structural)]
pub enum Phase {
    AwaitingReferencePoint,
    AwaitingConfirmation,
    Finished,
}

/// A reply of the service, handed to the machine.
pub enum ExecutorEvent {
    ReferencePointObtained,
    ReferencePointFailed { cause: String },
    Confirmed { reference: String, elapsed_nanos: u64 },
    SubmissionFailed { cause: String },
}

/// What to do next.
pub enum ExecutorAction {
    /// Ask the service for a current reference point.
    FetchReferencePoint,
    /// Build the transfer on the reference point, sign it with the sender's
    /// key pair, submit it and await confirmation.
    SignAndSubmit,
    /// The transfer is over: record this outcome.
    Report(TransferOutcome),
    /// The reply did not fit the phase and changed nothing.
    Ignore,
}

/// The run of one transfer.
pub struct Execution {
    pub source: String,
    pub destination: String,
    pub phase: Phase,
}

/// The outcome of a failed transfer between two addresses.
pub open spec fn failed_outcome(o: TransferOutcome, source: Seq<char>, destination: Seq<char>, reason: Seq<char>) -> bool {
    &&& o.source@ == source
    &&& o.destination@ == destination
    &&& o.status matches TransferStatus::Failed { reason: r } && r@ == reason
    &&& o.elapsed_nanos == 0
}

/// The outcome of a confirmed transfer between two addresses.
pub open spec fn succeeded_outcome(o: TransferOutcome, source: Seq<char>, destination: Seq<char>, reference: Seq<char>, elapsed: u64) -> bool {
    &&& o.source@ == source
    &&& o.destination@ == destination
    &&& o.status matches TransferStatus::Success { reference: r } && r@ == reference
    &&& o.elapsed_nanos == elapsed
}

impl Execution {
    /// Starts the run of a request: the first step fetches a reference point.
    pub fn start(request: &TransferRequest) -> (r: (Execution, ExecutorAction))
        ensures
            r.0.source@ == request.source@,
            r.0.destination@ == request.destination@,
            r.0.phase == Phase::AwaitingReferencePoint,
            r.1 is FetchReferencePoint,
    {
        (
            Execution {
                source: request.source.clone(),
                destination: request.destination.clone(),
                phase: Phase::AwaitingReferencePoint,
            },
            ExecutorAction::FetchReferencePoint,
        )
    }

    /// Takes one reply of the service. A reference point leads to submission;
    /// a failure to fetch it, a failed submission or a confirmation ends the run
    /// with its outcome. A failure records no reference and zero elapsed time.
    /// A reply that does not fit the phase is ignored.
    pub fn advance(&mut self, event: ExecutorEvent) -> (a: ExecutorAction)
        ensures
            final(self).source == old(self).source,
            final(self).destination == old(self).destination,
            match (old(self).phase, event) {
                (Phase::AwaitingReferencePoint, ExecutorEvent::ReferencePointObtained) => {
                    &&& final(self).phase == Phase::AwaitingConfirmation
                    &&& a is SignAndSubmit
                },
                (Phase::AwaitingReferencePoint, ExecutorEvent::ReferencePointFailed { cause }) => {
                    &&& final(self).phase == Phase::Finished
                    &&& a matches ExecutorAction::Report(o) && failed_outcome(
                        o, old(self).source@, old(self).destination@, reference_point_failure(cause@))
                },
                (Phase::AwaitingConfirmation, ExecutorEvent::Confirmed { reference, elapsed_nanos }) => {
                    &&& final(self).phase == Phase::Finished
                    &&& a matches ExecutorAction::Report(o) && succeeded_outcome(
                        o, old(self).source@, old(self).destination@, reference@, elapsed_nanos)
                },
                (Phase::AwaitingConfirmation, ExecutorEvent::SubmissionFailed { cause }) => {
                    &&& final(self).phase == Phase::Finished
                    &&& a matches ExecutorAction::Report(o) && failed_outcome(
                        o, old(self).source@, old(self).destination@, cause@)
                },
                _ => {
                    &&& final(self).phase == old(self).phase
                    &&& a is Ignore
                },
            },
    {
        match (&self.phase, event) {
            (Phase::AwaitingReferencePoint, ExecutorEvent::ReferencePointObtained) => {
                self.phase = Phase::AwaitingConfirmation;
                ExecutorAction::SignAndSubmit
            },
            (Phase::AwaitingReferencePoint, ExecutorEvent::ReferencePointFailed { cause }) => {
                self.phase = Phase::Finished;
                let reason = String::from_str("could not obtain reference point: ").concat(cause.as_str());
                ExecutorAction::Report(TransferOutcome {
                    source: self.source.clone(),
                    destination: self.destination.clone(),
                    status: TransferStatus::Failed { reason },
                    elapsed_nanos: 0,
                })
            },
            (Phase::AwaitingConfirmation, ExecutorEvent::Confirmed { reference, elapsed_nanos }) => {
                self.phase = Phase::Finished;
                ExecutorAction::Report(TransferOutcome {
                    source: self.source.clone(),
                    destination: self.destination.clone(),
                    status: TransferStatus::Success { reference },
                    elapsed_nanos,
                })
            },
            (Phase::AwaitingConfirmation, ExecutorEvent::SubmissionFailed { cause }) => {
                self.phase = Phase::Finished;
                ExecutorAction::Report(TransferOutcome {
                    source: self.source.clone(),
                    destination: self.destination.clone(),
                    status: TransferStatus::Failed { reason: cause },
                    elapsed_nanos: 0,
                })
            },
            _ => ExecutorAction::Ignore,
        }
    }
}

} // verus!
