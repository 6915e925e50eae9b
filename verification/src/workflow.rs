//! The workflow orchestrator: the decisions of one submission run.
//!
//! A run is a value that the caller advances one event at a time. Each event
//! says how the step that the run last asked for went; the answer is the
//! run's new value and the next step to perform. The run owns the order of
//! the steps, what each collaborator is handed, and how the run ends; the
//! caller owns the prompts, the files and the network.

use crate::address::{payment_contract, payment_contract_address, Address};
use crate::chain::{resolve_chain, resolved_chain, signer_chain_id};
use crate::explorer::{explorer_url, explorer_url_of};
use crate::outcome::{Cause, Outcome, Stage, State};
use crate::payment::{
    pay_batcher_to, payment_start, payment_step, start_payment, Payment, PaymentAction,
    PaymentEvent, PaymentOutcome, PaymentStage,
};
use crate::request::{
    build_request, optional_bytes, request_for, Nonce, ProvingSystem, Settings, Submission,
    SubmissionView, VerificationRequest, VerificationRequestView,
};
use vstd::prelude::*;

verus! {

/// What the caller reports back to a run.
#[derive(Clone, Debug, PartialEq, Eq)]
pub enum Event {
    /// The password prompt was answered.
    PasswordRead,
    PasswordUnreadable,
    /// The keystore decrypted to a signer with this address.
    KeystoreDecrypted(Address),
    KeystoreRejected,
    /// The file that was asked for, in full.
    FileRead(Vec<u8>),
    FileUnreadable,
    /// A connection to the node is set up.
    Connected,
    ConnectionFailed,
    Payment(PaymentEvent),
    NonceFetched(Nonce),
    NonceUnavailable,
    /// The network included the proof in the batch with this root.
    Included([u8; 32]),
    SubmissionFailed,
    /// The report was shown to the user.
    Reported,
}

/// The contents of an `Event`.
pub enum EventView {
    PasswordRead,
    PasswordUnreadable,
    KeystoreDecrypted(Address),
    KeystoreRejected,
    FileRead(Seq<u8>),
    FileUnreadable,
    Connected,
    ConnectionFailed,
    Payment(PaymentEvent),
    NonceFetched(Nonce),
    NonceUnavailable,
    Included([u8; 32]),
    SubmissionFailed,
    Reported,
}

impl View for Event {
    type V = EventView;

    open spec fn view(&self) -> EventView {
        match *self {
            Event::PasswordRead => EventView::PasswordRead,
            Event::PasswordUnreadable => EventView::PasswordUnreadable,
            Event::KeystoreDecrypted(signer) => EventView::KeystoreDecrypted(signer),
            Event::KeystoreRejected => EventView::KeystoreRejected,
            Event::FileRead(bytes) => EventView::FileRead(bytes@),
            Event::FileUnreadable => EventView::FileUnreadable,
            Event::Connected => EventView::Connected,
            Event::ConnectionFailed => EventView::ConnectionFailed,
            Event::Payment(event) => EventView::Payment(event),
            Event::NonceFetched(nonce) => EventView::NonceFetched(nonce),
            Event::NonceUnavailable => EventView::NonceUnavailable,
            Event::Included(batch_root) => EventView::Included(batch_root),
            Event::SubmissionFailed => EventView::SubmissionFailed,
            Event::Reported => EventView::Reported,
        }
    }
}

/// What the caller is asked to do next.
#[derive(Clone, Debug, PartialEq, Eq)]
pub enum Action {
    /// Ask the user for the keystore's password.
    PromptPassword,
    /// Decrypt the keystore and bind the signer to `chain_id`.
    DecryptKeystore { chain_id: u64 },
    ReadProof,
    ReadProgram,
    ReadPublicInput,
    /// Set up the connection to the node.
    Connect,
    Payment(PaymentAction),
    /// Ask the network for the next nonce of `signer` at the payment
    /// contract.
    FetchNonce { signer: Address },
    /// Submit, and wait for the network's verdict.
    Submit(Submission),
    /// Show the user where the result can be looked up.
    Report { url: String },
    /// Nothing more to do: the run has ended.
    Finish(Outcome),
}

/// The contents of an `Action`.
pub enum ActionView {
    PromptPassword,
    DecryptKeystore { chain_id: u64 },
    ReadProof,
    ReadProgram,
    ReadPublicInput,
    Connect,
    Payment(PaymentAction),
    FetchNonce { signer: Address },
    Submit(SubmissionView),
    Report { url: Seq<char> },
    Finish(Outcome),
}

impl View for Action {
    type V = ActionView;

    open spec fn view(&self) -> ActionView {
        match *self {
            Action::PromptPassword => ActionView::PromptPassword,
            Action::DecryptKeystore { chain_id } => ActionView::DecryptKeystore { chain_id },
            Action::ReadProof => ActionView::ReadProof,
            Action::ReadProgram => ActionView::ReadProgram,
            Action::ReadPublicInput => ActionView::ReadPublicInput,
            Action::Connect => ActionView::Connect,
            Action::Payment(action) => ActionView::Payment(action),
            Action::FetchNonce { signer } => ActionView::FetchNonce { signer },
            Action::Submit(submission) => ActionView::Submit(submission@),
            Action::Report { url } => ActionView::Report { url: url@ },
            Action::Finish(outcome) => ActionView::Finish(outcome),
        }
    }
}

/// What a run has loaded from local storage, and for whom.
#[derive(Clone, Debug, PartialEq, Eq)]
pub struct Artifacts {
    pub signer: Address,
    pub proof: Vec<u8>,
    pub program: Vec<u8>,
    pub public_input: Option<Vec<u8>>,
}

/// The contents of `Artifacts`.
pub struct ArtifactsView {
    pub signer: Address,
    pub proof: Seq<u8>,
    pub program: Seq<u8>,
    pub public_input: Option<Seq<u8>>,
}

impl View for Artifacts {
    type V = ArtifactsView;

    open spec fn view(&self) -> ArtifactsView {
        ArtifactsView {
            signer: self.signer,
            proof: self.proof@,
            program: self.program@,
            public_input: optional_bytes(self.public_input),
        }
    }
}

impl ArtifactsView {
    /// The verification request that these artifacts make up.
    pub open spec fn request(self, proving_system: ProvingSystem) -> VerificationRequestView {
        request_for(proving_system, self.signer, self.proof, self.program, self.public_input)
    }
}

/// Where a run stands: what it is waiting for, and what it holds.
#[derive(Clone, Debug, PartialEq, Eq)]
pub enum Step {
    AwaitingPassword,
    AwaitingKeystore,
    AwaitingProof { signer: Address },
    AwaitingProgram { signer: Address, proof: Vec<u8> },
    AwaitingPublicInput { signer: Address, proof: Vec<u8>, program: Vec<u8> },
    AwaitingConnection { artifacts: Artifacts },
    Paying { artifacts: Artifacts, payment: Payment },
    AwaitingNonce { request: VerificationRequest },
    AwaitingSubmission,
    AwaitingReport { batch_root: [u8; 32] },
    Finished(Outcome),
}

/// The contents of a `Step`.
pub enum StepView {
    AwaitingPassword,
    AwaitingKeystore,
    AwaitingProof { signer: Address },
    AwaitingProgram { signer: Address, proof: Seq<u8> },
    AwaitingPublicInput { signer: Address, proof: Seq<u8>, program: Seq<u8> },
    AwaitingConnection { artifacts: ArtifactsView },
    Paying { artifacts: ArtifactsView, payment: Payment },
    AwaitingNonce { request: VerificationRequestView },
    AwaitingSubmission,
    AwaitingReport { batch_root: [u8; 32] },
    Finished(Outcome),
}

impl View for Step {
    type V = StepView;

    open spec fn view(&self) -> StepView {
        match *self {
            Step::AwaitingPassword => StepView::AwaitingPassword,
            Step::AwaitingKeystore => StepView::AwaitingKeystore,
            Step::AwaitingProof { signer } => StepView::AwaitingProof { signer },
            Step::AwaitingProgram { signer, proof } => StepView::AwaitingProgram {
                signer,
                proof: proof@,
            },
            Step::AwaitingPublicInput { signer, proof, program } => StepView::AwaitingPublicInput {
                signer,
                proof: proof@,
                program: program@,
            },
            Step::AwaitingConnection { artifacts } => StepView::AwaitingConnection {
                artifacts: artifacts@,
            },
            Step::Paying { artifacts, payment } => StepView::Paying {
                artifacts: artifacts@,
                payment,
            },
            Step::AwaitingNonce { request } => StepView::AwaitingNonce { request: request@ },
            Step::AwaitingSubmission => StepView::AwaitingSubmission,
            Step::AwaitingReport { batch_root } => StepView::AwaitingReport { batch_root },
            Step::Finished(outcome) => StepView::Finished(outcome),
        }
    }
}

impl StepView {
    /// The state that a run at this step is in.
    pub open spec fn state(self) -> State {
        match self {
            StepView::AwaitingPassword | StepView::AwaitingKeystore => State::Start,
            StepView::AwaitingProof { .. }
            | StepView::AwaitingProgram { .. }
            | StepView::AwaitingPublicInput { .. } => State::CredentialsLoaded,
            StepView::AwaitingConnection { .. } => State::ArtifactsLoaded,
            StepView::Paying { .. } => State::Connected,
            StepView::AwaitingNonce { .. } => State::Paid,
            StepView::AwaitingSubmission => State::NonceAcquired,
            StepView::AwaitingReport { .. } => State::Submitted,
            StepView::Finished(Outcome::Success { .. }) => State::Reported,
            StepView::Finished(_) => State::Aborted,
        }
    }
}

impl StepView {
    /// How the run ended, if it has.
    pub open spec fn outcome(self) -> Option<Outcome> {
        match self {
            StepView::Finished(outcome) => Some(outcome),
            _ => None,
        }
    }
}

/// One submission run.
#[derive(Clone, Debug, PartialEq, Eq)]
pub struct Workflow {
    pub settings: Settings,
    pub step: Step,
}

/// The contents of a `Workflow`.
pub struct WorkflowView {
    pub settings: Settings,
    pub step: StepView,
}

impl View for Workflow {
    type V = WorkflowView;

    open spec fn view(&self) -> WorkflowView {
        WorkflowView { settings: self.settings, step: self.step@ }
    }
}

impl WorkflowView {
    /// The run moved on to `step`, and asks for `action`.
    pub open spec fn proceed(self, step: StepView, action: ActionView) -> (
        WorkflowView,
        ActionView,
    ) {
        (WorkflowView { settings: self.settings, step }, action)
    }

    /// The run ended with `outcome`.
    pub open spec fn halt(self, outcome: Outcome) -> (WorkflowView, ActionView) {
        (
            WorkflowView { settings: self.settings, step: StepView::Finished(outcome) },
            ActionView::Finish(outcome),
        )
    }

    /// The run failed at `stage`; `paid` says whether the fee is spent.
    pub open spec fn fail(self, stage: Stage, cause: Cause, paid: bool) -> (
        WorkflowView,
        ActionView,
    ) {
        self.halt(Outcome::Failed { stage, cause, paid })
    }
}

/// A fresh run, and its first action: the password prompt.
pub open spec fn workflow_start(settings: Settings) -> (WorkflowView, ActionView) {
    (WorkflowView { settings, step: StepView::AwaitingPassword }, ActionView::PromptPassword)
}

/// The run's rule: the next state and action for each state and event,
/// given the decoded address of the payment contract.
///
/// The steps come in one fixed order: password, keystore, proof, program,
/// public input if one was named, connection, payment, nonce, submission,
/// report. A step that fails ends the run, and so does an event that the run
/// was not waiting for; a declined payment ends it as cancelled. Every
/// artifact is held to the same rule: a public-input file that was named
/// and cannot be read ends the run as an unreadable proof does, and a run
/// for which none was named never asks for one. The signer
/// is bound to the chain that the run resolves to. The request is put
/// together once the payment is included, the nonce is asked for right
/// after, and the submission carries the nonce that was then handed out. A
/// run that has ended stays as it is.
pub open spec fn workflow_step(run: WorkflowView, event: EventView, contract: Option<Address>) -> (
    WorkflowView,
    ActionView,
) {
    let settings = run.settings;
    match run.step {
        StepView::AwaitingPassword => match event {
            EventView::PasswordRead => run.proceed(
                StepView::AwaitingKeystore,
                ActionView::DecryptKeystore {
                    chain_id: resolved_chain(settings.chain_id).spec_id(),
                },
            ),
            EventView::PasswordUnreadable => run.fail(
                Stage::Credentials,
                Cause::PasswordUnreadable,
                false,
            ),
            _ => run.fail(Stage::Credentials, Cause::UnexpectedEvent, false),
        },
        StepView::AwaitingKeystore => match event {
            EventView::KeystoreDecrypted(signer) => run.proceed(
                StepView::AwaitingProof { signer },
                ActionView::ReadProof,
            ),
            EventView::KeystoreRejected => run.fail(
                Stage::Credentials,
                Cause::KeystoreRejected,
                false,
            ),
            _ => run.fail(Stage::Credentials, Cause::UnexpectedEvent, false),
        },
        StepView::AwaitingProof { signer } => match event {
            EventView::FileRead(proof) => run.proceed(
                StepView::AwaitingProgram { signer, proof },
                ActionView::ReadProgram,
            ),
            EventView::FileUnreadable => run.fail(Stage::Artifacts, Cause::ProofUnreadable, false),
            _ => run.fail(Stage::Artifacts, Cause::UnexpectedEvent, false),
        },
        StepView::AwaitingProgram { signer, proof } => match event {
            EventView::FileRead(program) => if settings.has_public_input {
                run.proceed(
                    StepView::AwaitingPublicInput { signer, proof, program },
                    ActionView::ReadPublicInput,
                )
            } else {
                run.proceed(
                    StepView::AwaitingConnection {
                        artifacts: ArtifactsView { signer, proof, program, public_input: None },
                    },
                    ActionView::Connect,
                )
            },
            EventView::FileUnreadable => run.fail(
                Stage::Artifacts,
                Cause::ProgramUnreadable,
                false,
            ),
            _ => run.fail(Stage::Artifacts, Cause::UnexpectedEvent, false),
        },
        StepView::AwaitingPublicInput { signer, proof, program } => match event {
            EventView::FileRead(public_input) => run.proceed(
                StepView::AwaitingConnection {
                    artifacts: ArtifactsView {
                        signer,
                        proof,
                        program,
                        public_input: Some(public_input),
                    },
                },
                ActionView::Connect,
            ),
            EventView::FileUnreadable => run.fail(
                Stage::Artifacts,
                Cause::PublicInputUnreadable,
                false,
            ),
            _ => run.fail(Stage::Artifacts, Cause::UnexpectedEvent, false),
        },
        StepView::AwaitingConnection { artifacts } => match event {
            EventView::Connected => {
                let (payment, action) = payment_start(artifacts.signer, settings.payment_amount);
                run.proceed(StepView::Paying { artifacts, payment }, ActionView::Payment(action))
            },
            EventView::ConnectionFailed => run.fail(
                Stage::Connection,
                Cause::EndpointUnreachable,
                false,
            ),
            _ => run.fail(Stage::Connection, Cause::UnexpectedEvent, false),
        },
        StepView::Paying { artifacts, payment } => match event {
            EventView::Payment(payment_event) => {
                let (payment, action) = payment_step(payment, payment_event, contract);
                match payment.stage {
                    PaymentStage::Settled(PaymentOutcome::Paid { .. }) => run.proceed(
                        StepView::AwaitingNonce {
                            request: artifacts.request(settings.proving_system),
                        },
                        ActionView::FetchNonce { signer: artifacts.signer },
                    ),
                    PaymentStage::Settled(PaymentOutcome::Cancelled) => run.halt(
                        Outcome::Cancelled,
                    ),
                    PaymentStage::Settled(PaymentOutcome::Failed(failure)) => run.fail(
                        Stage::Payment,
                        Cause::Payment(failure),
                        false,
                    ),
                    _ => run.proceed(
                        StepView::Paying { artifacts, payment },
                        ActionView::Payment(action),
                    ),
                }
            },
            _ => run.fail(Stage::Payment, Cause::UnexpectedEvent, false),
        },
        StepView::AwaitingNonce { request } => match event {
            EventView::NonceFetched(nonce) => run.proceed(
                StepView::AwaitingSubmission,
                ActionView::Submit(
                    SubmissionView {
                        chain: resolved_chain(settings.chain_id),
                        request,
                        max_fee: settings.max_fee,
                        signer: request.proof_generator_addr,
                        nonce,
                    },
                ),
            ),
            EventView::NonceUnavailable => run.fail(Stage::Nonce, Cause::NonceUnavailable, true),
            _ => run.fail(Stage::Nonce, Cause::UnexpectedEvent, true),
        },
        StepView::AwaitingSubmission => match event {
            EventView::Included(batch_root) => run.proceed(
                StepView::AwaitingReport { batch_root },
                ActionView::Report { url: explorer_url_of(batch_root@) },
            ),
            EventView::SubmissionFailed => run.fail(
                Stage::Submission,
                Cause::SubmissionRejected,
                true,
            ),
            _ => run.fail(Stage::Submission, Cause::UnexpectedEvent, true),
        },
        StepView::AwaitingReport { batch_root } => match event {
            EventView::Reported => run.halt(Outcome::Success { batch_root }),
            _ => run.fail(Stage::Report, Cause::UnexpectedEvent, true),
        },
        StepView::Finished(outcome) => (run, ActionView::Finish(outcome)),
    }
}

impl Workflow {
    /// The state that the run is in.
    pub fn state(&self) -> (state: State)
        ensures
            state == self@.step.state(),
    {
        match &self.step {
            Step::AwaitingPassword => State::Start,
            Step::AwaitingKeystore => State::Start,
            Step::AwaitingProof { .. } => State::CredentialsLoaded,
            Step::AwaitingProgram { .. } => State::CredentialsLoaded,
            Step::AwaitingPublicInput { .. } => State::CredentialsLoaded,
            Step::AwaitingConnection { .. } => State::ArtifactsLoaded,
            Step::Paying { .. } => State::Connected,
            Step::AwaitingNonce { .. } => State::Paid,
            Step::AwaitingSubmission => State::NonceAcquired,
            Step::AwaitingReport { .. } => State::Submitted,
            Step::Finished(Outcome::Success { .. }) => State::Reported,
            Step::Finished(_) => State::Aborted,
        }
    }

    /// How the run ended, or `None` while it is under way.
    pub fn outcome(&self) -> (outcome: Option<Outcome>)
        ensures
            outcome == self@.step.outcome(),
    {
        match &self.step {
            Step::Finished(outcome) => Some(*outcome),
            _ => None,
        }
    }
}

/// Opens a run. The first thing to do is to ask for the keystore's
/// password.
pub fn begin(settings: Settings) -> (started: (Workflow, Action))
    ensures
        (started.0@, started.1@) == workflow_start(settings),
{
    (Workflow { settings, step: Step::AwaitingPassword }, Action::PromptPassword)
}

fn halt(settings: Settings, outcome: Outcome) -> (next: (Workflow, Action))
    ensures
        next.0@ == (WorkflowView { settings, step: StepView::Finished(outcome) }),
        next.1@ == ActionView::Finish(outcome),
{
    (Workflow { settings, step: Step::Finished(outcome) }, Action::Finish(outcome))
}

fn fail(settings: Settings, stage: Stage, cause: Cause, paid: bool) -> (next: (Workflow, Action))
    ensures
        next.0@ == (WorkflowView {
            settings,
            step: StepView::Finished(Outcome::Failed { stage, cause, paid }),
        }),
        next.1@ == ActionView::Finish(Outcome::Failed { stage, cause, paid }),
{
    halt(settings, Outcome::Failed { stage, cause, paid })
}

/// Advances a run by one event, given the decoded address of the payment
/// contract (`None` if it did not decode).
pub fn advance(run: Workflow, event: Event, contract: Option<Address>) -> (next: (Workflow, Action))
    ensures
        (next.0@, next.1@) == workflow_step(run@, event@, contract),
{
    let Workflow { settings, step } = run;
    match step {
        Step::AwaitingPassword => match event {
            Event::PasswordRead => (
                Workflow { settings, step: Step::AwaitingKeystore },
                Action::DecryptKeystore { chain_id: signer_chain_id(settings.chain_id) },
            ),
            Event::PasswordUnreadable => fail(
                settings,
                Stage::Credentials,
                Cause::PasswordUnreadable,
                false,
            ),
            _ => fail(settings, Stage::Credentials, Cause::UnexpectedEvent, false),
        },
        Step::AwaitingKeystore => match event {
            Event::KeystoreDecrypted(signer) => (
                Workflow { settings, step: Step::AwaitingProof { signer } },
                Action::ReadProof,
            ),
            Event::KeystoreRejected => fail(
                settings,
                Stage::Credentials,
                Cause::KeystoreRejected,
                false,
            ),
            _ => fail(settings, Stage::Credentials, Cause::UnexpectedEvent, false),
        },
        Step::AwaitingProof { signer } => match event {
            Event::FileRead(proof) => (
                Workflow { settings, step: Step::AwaitingProgram { signer, proof } },
                Action::ReadProgram,
            ),
            Event::FileUnreadable => fail(
                settings,
                Stage::Artifacts,
                Cause::ProofUnreadable,
                false,
            ),
            _ => fail(settings, Stage::Artifacts, Cause::UnexpectedEvent, false),
        },
        Step::AwaitingProgram { signer, proof } => match event {
            Event::FileRead(program) => {
                if settings.has_public_input {
                    (
                        Workflow {
                            settings,
                            step: Step::AwaitingPublicInput { signer, proof, program },
                        },
                        Action::ReadPublicInput,
                    )
                } else {
                    let artifacts = Artifacts { signer, proof, program, public_input: None };
                    (
                        Workflow { settings, step: Step::AwaitingConnection { artifacts } },
                        Action::Connect,
                    )
                }
            },
            Event::FileUnreadable => fail(
                settings,
                Stage::Artifacts,
                Cause::ProgramUnreadable,
                false,
            ),
            _ => fail(settings, Stage::Artifacts, Cause::UnexpectedEvent, false),
        },
        Step::AwaitingPublicInput { signer, proof, program } => match event {
            Event::FileRead(public_input) => {
                let artifacts = Artifacts {
                    signer,
                    proof,
                    program,
                    public_input: Some(public_input),
                };
                (
                    Workflow { settings, step: Step::AwaitingConnection { artifacts } },
                    Action::Connect,
                )
            },
            Event::FileUnreadable => fail(
                settings,
                Stage::Artifacts,
                Cause::PublicInputUnreadable,
                false,
            ),
            _ => fail(settings, Stage::Artifacts, Cause::UnexpectedEvent, false),
        },
        Step::AwaitingConnection { artifacts } => match event {
            Event::Connected => {
                let (payment, action) = start_payment(artifacts.signer, settings.payment_amount);
                (
                    Workflow { settings, step: Step::Paying { artifacts, payment } },
                    Action::Payment(action),
                )
            },
            Event::ConnectionFailed => fail(
                settings,
                Stage::Connection,
                Cause::EndpointUnreachable,
                false,
            ),
            _ => fail(settings, Stage::Connection, Cause::UnexpectedEvent, false),
        },
        Step::Paying { artifacts, payment } => match event {
            Event::Payment(payment_event) => {
                let (payment, action) = pay_batcher_to(payment, payment_event, contract);
                match payment.stage {
                    PaymentStage::Settled(PaymentOutcome::Paid { .. }) => {
                        let signer = artifacts.signer;
                        let request = build_request(
                            settings.proving_system,
                            signer,
                            artifacts.proof,
                            artifacts.program,
                            artifacts.public_input,
                        );
                        (
                            Workflow { settings, step: Step::AwaitingNonce { request } },
                            Action::FetchNonce { signer },
                        )
                    },
                    PaymentStage::Settled(PaymentOutcome::Cancelled) => halt(
                        settings,
                        Outcome::Cancelled,
                    ),
                    PaymentStage::Settled(PaymentOutcome::Failed(failure)) => fail(
                        settings,
                        Stage::Payment,
                        Cause::Payment(failure),
                        false,
                    ),
                    _ => (
                        Workflow { settings, step: Step::Paying { artifacts, payment } },
                        Action::Payment(action),
                    ),
                }
            },
            _ => fail(settings, Stage::Payment, Cause::UnexpectedEvent, false),
        },
        Step::AwaitingNonce { request } => match event {
            Event::NonceFetched(nonce) => {
                let signer = request.proof_generator_addr;
                let submission = Submission {
                    chain: resolve_chain(settings.chain_id),
                    request,
                    max_fee: settings.max_fee,
                    signer,
                    nonce,
                };
                (Workflow { settings, step: Step::AwaitingSubmission }, Action::Submit(submission))
            },
            Event::NonceUnavailable => fail(settings, Stage::Nonce, Cause::NonceUnavailable, true),
            _ => fail(settings, Stage::Nonce, Cause::UnexpectedEvent, true),
        },
        Step::AwaitingSubmission => match event {
            Event::Included(batch_root) => {
                let url = explorer_url(&batch_root);
                (
                    Workflow { settings, step: Step::AwaitingReport { batch_root } },
                    Action::Report { url },
                )
            },
            Event::SubmissionFailed => fail(
                settings,
                Stage::Submission,
                Cause::SubmissionRejected,
                true,
            ),
            _ => fail(settings, Stage::Submission, Cause::UnexpectedEvent, true),
        },
        Step::AwaitingReport { batch_root } => match event {
            Event::Reported => halt(settings, Outcome::Success { batch_root }),
            _ => fail(settings, Stage::Report, Cause::UnexpectedEvent, true),
        },
        Step::Finished(outcome) => (
            Workflow { settings, step: Step::Finished(outcome) },
            Action::Finish(outcome),
        ),
    }
}

/// Advances a run by one event. A confirmed payment goes to the well-known
/// payment contract.
pub fn submit_proof_to_aligned(run: Workflow, event: Event) -> (next: (Workflow, Action))
    ensures
        (next.0@, next.1@) == workflow_step(run@, event@, payment_contract()),
{
    advance(run, event, payment_contract_address())
}

} // verus!
