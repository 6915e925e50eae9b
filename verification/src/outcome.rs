//! How a run ends, and the coarse states it passes through on the way.

use crate::payment::PaymentFailure;
use vstd::prelude::*;

verus! {

/// The part of a run in which a failure happened.
#[derive(Clone, Copy, Debug, PartialEq, Eq)]
pub enum Stage {
    Credentials,
    Artifacts,
    Connection,
    Payment,
    Nonce,
    Submission,
    Report,
}

/// What went wrong.
#[derive(Clone, Copy, Debug, PartialEq, Eq)]
pub enum Cause {
    /// The password prompt could not be read.
    PasswordUnreadable,
    /// The keystore did not decrypt: wrong password, corrupt or unsupported
    /// file.
    KeystoreRejected,
    ProofUnreadable,
    ProgramUnreadable,
    /// A public-input file was named but could not be read.
    PublicInputUnreadable,
    /// No connection to the node could be set up.
    EndpointUnreachable,
    Payment(PaymentFailure),
    /// The network did not hand out a nonce.
    NonceUnavailable,
    /// The submission was refused or its connection failed.
    SubmissionRejected,
    /// The caller reported something that the run was not waiting for.
    UnexpectedEvent,
}

/// The result of a run.
#[derive(Clone, Copy, Debug, PartialEq, Eq)]
pub enum Outcome {
    /// The network accepted the proof into the batch with this root.
    Success { batch_root: [u8; 32] },
    /// The user declined to pay. No funds moved and nothing was submitted.
    Cancelled,
    /// The run failed at `stage`. `paid` tells whether the fee had already
    /// been paid, and so is spent, when it did.
    Failed { stage: Stage, cause: Cause, paid: bool },
}

/// The states of a run, in the order in which it passes through them.
/// `Reported` ends a successful run; `Aborted` ends every other.
#[derive(Clone, Copy, Debug, PartialEq, Eq)]
pub enum State {
    Start,
    CredentialsLoaded,
    ArtifactsLoaded,
    Connected,
    Paid,
    NonceAcquired,
    Submitted,
    Reported,
    Aborted,
}

impl State {
    /// How far along a state is: the number of steps from `Start`.
    /// `Aborted` ranks after all others.
    pub open spec fn rank(self) -> nat {
        match self {
            State::Start => 0,
            State::CredentialsLoaded => 1,
            State::ArtifactsLoaded => 2,
            State::Connected => 3,
            State::Paid => 4,
            State::NonceAcquired => 5,
            State::Submitted => 6,
            State::Reported => 7,
            State::Aborted => 8,
        }
    }

    /// Whether a run in this state has ended.
    pub open spec fn is_terminal(self) -> bool {
        self is Reported || self is Aborted
    }
}

impl Outcome {
    /// Whether the fee was spent in a run that ended this way.
    pub open spec fn spec_fee_spent(self) -> bool {
        match self {
            Outcome::Success { .. } => true,
            Outcome::Cancelled => false,
            Outcome::Failed { paid, .. } => paid,
        }
    }

    /// Whether the fee was spent in a run that ended this way.
    #[verifier::when_used_as_spec(spec_fee_spent)]
    pub fn fee_spent(self) -> (spent: bool)
        ensures
            spent == self.spec_fee_spent(),
    {
        match self {
            Outcome::Success { .. } => true,
            Outcome::Cancelled => false,
            Outcome::Failed { paid, .. } => paid,
        }
    }
}

/// The line that describes a payment failure.
pub open spec fn payment_failure_text(failure: PaymentFailure) -> Seq<char> {
    match failure {
        PaymentFailure::InvalidContractAddress => "Invalid payment contract address"@,
        PaymentFailure::BroadcastFailed => "Failed to send tx"@,
        PaymentFailure::ConfirmationFailed => "Failed to submit tx"@,
        PaymentFailure::ReceiptAbsent => "Payment failed"@,
        PaymentFailure::UnexpectedEvent => "Unexpected payment event"@,
    }
}

/// The line that describes a cause of failure.
pub open spec fn cause_text(cause: Cause) -> Seq<char> {
    match cause {
        Cause::PasswordUnreadable => "Failed to read keystore password"@,
        Cause::KeystoreRejected => "Failed to decrypt keystore"@,
        Cause::ProofUnreadable => "Failed to Read Proof"@,
        Cause::ProgramUnreadable => "Failed to Read ELF"@,
        Cause::PublicInputUnreadable => "Failed to Read Public Inputs"@,
        Cause::EndpointUnreachable => "Failed to connect to provider"@,
        Cause::Payment(failure) => payment_failure_text(failure),
        Cause::NonceUnavailable => "could not get nonce"@,
        Cause::SubmissionRejected => "Proof generation failed"@,
        Cause::UnexpectedEvent => "Unexpected event"@,
    }
}

/// The line to log for a cause of failure.
pub fn cause_message(cause: Cause) -> (text: &'static str)
    ensures
        text@ == cause_text(cause),
{
    match cause {
        Cause::PasswordUnreadable => "Failed to read keystore password",
        Cause::KeystoreRejected => "Failed to decrypt keystore",
        Cause::ProofUnreadable => "Failed to Read Proof",
        Cause::ProgramUnreadable => "Failed to Read ELF",
        Cause::PublicInputUnreadable => "Failed to Read Public Inputs",
        Cause::EndpointUnreachable => "Failed to connect to provider",
        Cause::Payment(failure) => match failure {
            PaymentFailure::InvalidContractAddress => "Invalid payment contract address",
            PaymentFailure::BroadcastFailed => "Failed to send tx",
            PaymentFailure::ConfirmationFailed => "Failed to submit tx",
            PaymentFailure::ReceiptAbsent => "Payment failed",
            PaymentFailure::UnexpectedEvent => "Unexpected payment event",
        },
        Cause::NonceUnavailable => "could not get nonce",
        Cause::SubmissionRejected => "Proof generation failed",
        Cause::UnexpectedEvent => "Unexpected event",
    }
}

} // verus!
