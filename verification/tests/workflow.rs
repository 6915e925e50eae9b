use proof_submission::address::Address;
use proof_submission::chain::Chain;
use proof_submission::outcome::{Cause, Outcome, Stage, State};
use proof_submission::payment::{
    PaymentAction, PaymentEvent, PaymentFailure, PaymentTransaction,
};
use proof_submission::report::describe;
use proof_submission::request::{
    Nonce, ProvingSystem, Settings, Submission, VerificationRequest,
};
use proof_submission::workflow::{advance, begin, submit_proof_to_aligned, Action, Event, Workflow};

const SIGNER: Address = Address { bytes: [0xaa; 20] };

const CONTRACT: Address = Address {
    bytes: [
        0x81, 0x5a, 0xec, 0xa6, 0x4a, 0x97, 0x42, 0x97, 0x94, 0x2d, 0x2b, 0xbf, 0x03, 0x4a, 0xbe,
        0xe2, 0x2a, 0x38, 0xa0, 0x03,
    ],
};

const FEE: u128 = 4_000_000_000_000_000;

fn settings(has_public_input: bool) -> Settings {
    Settings::new(17000, 1_000_000, ProvingSystem::Sp1, has_public_input)
}

fn batch_root() -> [u8; 32] {
    let mut root = [0u8; 32];
    root[0] = 0xab;
    root[1] = 0xc1;
    root[31] = 0x09;
    root
}

fn nonce() -> Nonce {
    Nonce { limbs: [42, 0, 0, 0] }
}

/// Hands the events to a fresh run, one by one, and collects the answers.
fn drive(settings: Settings, events: Vec<Event>) -> (Workflow, Vec<Action>, Vec<State>) {
    let (mut run, first) = begin(settings);
    let mut actions = vec![first];
    let mut states = vec![run.state()];
    for event in events {
        let (next, action) = submit_proof_to_aligned(run, event);
        run = next;
        actions.push(action);
        states.push(run.state());
    }
    (run, actions, states)
}

fn up_to_payment() -> Vec<Event> {
    vec![
        Event::PasswordRead,
        Event::KeystoreDecrypted(SIGNER),
        Event::FileRead(vec![1, 2, 3]),
        Event::FileRead(vec![4, 5]),
        Event::Connected,
    ]
}

fn up_to_nonce() -> Vec<Event> {
    let mut events = up_to_payment();
    events.push(Event::Payment(PaymentEvent::Confirmation(true)));
    events.push(Event::Payment(PaymentEvent::Broadcast));
    events.push(Event::Payment(PaymentEvent::Receipt(Some([0x33; 32]))));
    events
}

fn request(pub_input: Option<Vec<u8>>) -> VerificationRequest {
    VerificationRequest {
        proving_system: ProvingSystem::Sp1,
        proof: vec![1, 2, 3],
        proof_generator_addr: SIGNER,
        vm_program_code: Some(vec![4, 5]),
        verification_key: None,
        pub_input,
    }
}

fn failure(stage: Stage, cause: Cause, paid: bool) -> Outcome {
    Outcome::Failed { stage, cause, paid }
}

fn is_loud(action: &Action) -> bool {
    matches!(
        action,
        Action::Payment(PaymentAction::Send(_)) | Action::FetchNonce { .. } | Action::Submit(_)
    )
}

#[test]
fn run_starts_with_the_password_prompt() {
    let (run, action) = begin(settings(false));
    assert_eq!(action, Action::PromptPassword);
    assert_eq!(run.state(), State::Start);
    assert_eq!(run.outcome(), None);
    assert_eq!(run.settings, settings(false));
}

#[test]
fn scenario_confirmed_payment_and_inclusion_reports_explorer_url() {
    let mut events = up_to_nonce();
    events.push(Event::NonceFetched(nonce()));
    events.push(Event::Included(batch_root()));
    events.push(Event::Reported);
    let (run, actions, states) = drive(settings(false), events);
    let url = "https://explorer.alignedlayer.com/batches/0xabc1000000000000000000000000000000000000000000000000000000000009";
    assert_eq!(
        actions,
        vec![
            Action::PromptPassword,
            Action::DecryptKeystore { chain_id: 17000 },
            Action::ReadProof,
            Action::ReadProgram,
            Action::Connect,
            Action::Payment(PaymentAction::Confirm { amount: FEE }),
            Action::Payment(PaymentAction::Send(PaymentTransaction {
                from: SIGNER,
                to: CONTRACT,
                value: FEE,
            })),
            Action::Payment(PaymentAction::AwaitReceipt),
            Action::FetchNonce { signer: SIGNER },
            Action::Submit(Submission {
                chain: Chain::Holesky,
                request: request(None),
                max_fee: 1_000_000,
                signer: SIGNER,
                nonce: nonce(),
            }),
            Action::Report { url: url.to_string() },
            Action::Finish(Outcome::Success { batch_root: batch_root() }),
        ]
    );
    assert_eq!(
        states,
        vec![
            State::Start,
            State::Start,
            State::CredentialsLoaded,
            State::CredentialsLoaded,
            State::ArtifactsLoaded,
            State::Connected,
            State::Connected,
            State::Connected,
            State::Paid,
            State::NonceAcquired,
            State::Submitted,
            State::Reported,
        ]
    );
    assert_eq!(run.outcome(), Some(Outcome::Success { batch_root: batch_root() }));
    assert!(url.contains("0xabc1"));
    assert_eq!(describe(Outcome::Success { batch_root: batch_root() }), url);
}

#[test]
fn scenario_declined_payment_ends_cancelled_with_nothing_moved() {
    let mut events = up_to_payment();
    events.push(Event::Payment(PaymentEvent::Confirmation(false)));
    events.push(Event::Payment(PaymentEvent::Broadcast));
    events.push(Event::NonceFetched(nonce()));
    events.push(Event::Included(batch_root()));
    let (run, actions, states) = drive(settings(false), events);
    assert_eq!(run.outcome(), Some(Outcome::Cancelled));
    assert_eq!(run.state(), State::Aborted);
    assert!(actions.iter().all(|action| !is_loud(action)));
    assert_eq!(actions[6], Action::Finish(Outcome::Cancelled));
    assert_eq!(actions[7], Action::Finish(Outcome::Cancelled));
    assert_eq!(actions[8], Action::Finish(Outcome::Cancelled));
    assert_eq!(actions[9], Action::Finish(Outcome::Cancelled));
    assert_eq!(states[5], State::Connected);
    assert_eq!(states[6], State::Aborted);
    assert!(!Outcome::Cancelled.fee_spent());
}

#[test]
fn scenario_failed_submission_after_payment_records_fee_as_spent() {
    let mut events = up_to_nonce();
    events.push(Event::NonceFetched(nonce()));
    events.push(Event::SubmissionFailed);
    let (run, actions, _) = drive(settings(false), events);
    let outcome = failure(Stage::Submission, Cause::SubmissionRejected, true);
    assert_eq!(run.outcome(), Some(outcome));
    assert_eq!(run.state(), State::Aborted);
    assert_eq!(actions[10], Action::Finish(outcome));
    assert!(outcome.fee_spent());
    assert_eq!(
        describe(outcome),
        "Proof generation failed (the payment went through: the fee is spent)"
    );
}

#[test]
fn submission_comes_only_after_the_receipt_and_the_nonce() {
    let mut events = up_to_nonce();
    events.push(Event::NonceFetched(nonce()));
    let (_, actions, _) = drive(settings(false), events);
    let send = actions.iter().position(|a| matches!(a, Action::Payment(PaymentAction::Send(_))));
    let wait = actions.iter().position(|a| *a == Action::Payment(PaymentAction::AwaitReceipt));
    let fetch = actions.iter().position(|a| matches!(a, Action::FetchNonce { .. }));
    let submit = actions.iter().position(|a| matches!(a, Action::Submit(_)));
    assert_eq!(send, Some(6));
    assert_eq!(wait, Some(7));
    assert_eq!(fetch, Some(8));
    assert_eq!(submit, Some(9));
    assert_eq!(actions.iter().filter(|a| is_loud(a)).count(), 3);
}

#[test]
fn submission_carries_the_nonce_that_was_fetched() {
    let fresh = Nonce { limbs: [7, 8, 9, 10] };
    let mut events = up_to_nonce();
    events.push(Event::NonceFetched(fresh));
    let (run, actions, _) = drive(settings(false), events);
    assert_eq!(run.state(), State::NonceAcquired);
    match &actions[9] {
        Action::Submit(submission) => {
            assert_eq!(submission.nonce, fresh);
            assert_eq!(submission.signer, SIGNER);
            assert_eq!(submission.max_fee, 1_000_000);
            assert_eq!(submission.chain, Chain::Holesky);
            assert_eq!(submission.request, request(None));
        },
        other => panic!("expected a submission, got {:?}", other),
    }
}

#[test]
fn public_input_is_read_when_one_is_named() {
    let events = vec![
        Event::PasswordRead,
        Event::KeystoreDecrypted(SIGNER),
        Event::FileRead(vec![1, 2, 3]),
        Event::FileRead(vec![4, 5]),
        Event::FileRead(vec![6, 7, 8, 9]),
        Event::Connected,
        Event::Payment(PaymentEvent::Confirmation(true)),
        Event::Payment(PaymentEvent::Broadcast),
        Event::Payment(PaymentEvent::Receipt(Some([0x33; 32]))),
        Event::NonceFetched(nonce()),
    ];
    let (_, actions, states) = drive(settings(true), events);
    assert_eq!(actions[4], Action::ReadPublicInput);
    assert_eq!(actions[5], Action::Connect);
    assert_eq!(states[4], State::CredentialsLoaded);
    assert_eq!(states[5], State::ArtifactsLoaded);
    match &actions[10] {
        Action::Submit(submission) => {
            assert_eq!(submission.request, request(Some(vec![6, 7, 8, 9])));
        },
        other => panic!("expected a submission, got {:?}", other),
    }
}

#[test]
fn unreadable_password_aborts_the_run() {
    let (run, actions, _) = drive(settings(false), vec![Event::PasswordUnreadable]);
    let outcome = failure(Stage::Credentials, Cause::PasswordUnreadable, false);
    assert_eq!(actions[1], Action::Finish(outcome));
    assert_eq!(run.outcome(), Some(outcome));
    assert_eq!(run.state(), State::Aborted);
}

#[test]
fn wrong_password_aborts_without_retry_or_reading_artifacts() {
    let events = vec![
        Event::PasswordRead,
        Event::KeystoreRejected,
        Event::PasswordRead,
        Event::KeystoreDecrypted(SIGNER),
        Event::FileRead(vec![1]),
    ];
    let (run, actions, _) = drive(settings(false), events);
    let outcome = failure(Stage::Credentials, Cause::KeystoreRejected, false);
    assert_eq!(
        actions,
        vec![
            Action::PromptPassword,
            Action::DecryptKeystore { chain_id: 17000 },
            Action::Finish(outcome),
            Action::Finish(outcome),
            Action::Finish(outcome),
            Action::Finish(outcome),
        ]
    );
    assert_eq!(run.outcome(), Some(outcome));
    assert_eq!(describe(outcome), "Failed to decrypt keystore (no payment was confirmed)");
}

#[test]
fn unreadable_proof_aborts_the_run() {
    let events = vec![Event::PasswordRead, Event::KeystoreDecrypted(SIGNER), Event::FileUnreadable];
    let (run, actions, _) = drive(settings(false), events);
    let outcome = failure(Stage::Artifacts, Cause::ProofUnreadable, false);
    assert_eq!(actions[3], Action::Finish(outcome));
    assert_eq!(run.outcome(), Some(outcome));
}

#[test]
fn unreadable_program_aborts_the_run() {
    let events = vec![
        Event::PasswordRead,
        Event::KeystoreDecrypted(SIGNER),
        Event::FileRead(vec![1]),
        Event::FileUnreadable,
    ];
    let (run, actions, _) = drive(settings(true), events);
    let outcome = failure(Stage::Artifacts, Cause::ProgramUnreadable, false);
    assert_eq!(actions[4], Action::Finish(outcome));
    assert_eq!(run.outcome(), Some(outcome));
}

#[test]
fn unreadable_public_input_aborts_the_run() {
    let events = vec![
        Event::PasswordRead,
        Event::KeystoreDecrypted(SIGNER),
        Event::FileRead(vec![1]),
        Event::FileRead(vec![2]),
        Event::FileUnreadable,
    ];
    let (run, actions, _) = drive(settings(true), events);
    let outcome = failure(Stage::Artifacts, Cause::PublicInputUnreadable, false);
    assert_eq!(actions[5], Action::Finish(outcome));
    assert_eq!(run.outcome(), Some(outcome));
    assert!(actions.iter().all(|action| *action != Action::Connect));
}

#[test]
fn unreachable_endpoint_aborts_the_run() {
    let events = vec![
        Event::PasswordRead,
        Event::KeystoreDecrypted(SIGNER),
        Event::FileRead(vec![1]),
        Event::FileRead(vec![2]),
        Event::ConnectionFailed,
    ];
    let (run, actions, _) = drive(settings(false), events);
    let outcome = failure(Stage::Connection, Cause::EndpointUnreachable, false);
    assert_eq!(actions[5], Action::Finish(outcome));
    assert_eq!(run.outcome(), Some(outcome));
    assert!(actions.iter().all(|action| !matches!(action, Action::Payment(_))));
}

#[test]
fn refused_broadcast_aborts_the_run_unpaid() {
    let mut events = up_to_payment();
    events.push(Event::Payment(PaymentEvent::Confirmation(true)));
    events.push(Event::Payment(PaymentEvent::BroadcastFailed));
    let (run, actions, _) = drive(settings(false), events);
    let outcome =
        failure(Stage::Payment, Cause::Payment(PaymentFailure::BroadcastFailed), false);
    assert_eq!(actions[7], Action::Finish(outcome));
    assert_eq!(run.outcome(), Some(outcome));
    assert_eq!(describe(outcome), "Failed to send tx (no payment was confirmed)");
}

#[test]
fn failed_wait_for_receipt_aborts_the_run_unpaid() {
    let mut events = up_to_payment();
    events.push(Event::Payment(PaymentEvent::Confirmation(true)));
    events.push(Event::Payment(PaymentEvent::Broadcast));
    events.push(Event::Payment(PaymentEvent::ReceiptFailed));
    let (run, actions, _) = drive(settings(false), events);
    let outcome =
        failure(Stage::Payment, Cause::Payment(PaymentFailure::ConfirmationFailed), false);
    assert_eq!(actions[8], Action::Finish(outcome));
    assert_eq!(run.outcome(), Some(outcome));
}

#[test]
fn absent_receipt_aborts_the_run_like_a_refused_broadcast() {
    let mut events = up_to_payment();
    events.push(Event::Payment(PaymentEvent::Confirmation(true)));
    events.push(Event::Payment(PaymentEvent::Broadcast));
    events.push(Event::Payment(PaymentEvent::Receipt(None)));
    events.push(Event::NonceFetched(nonce()));
    let (run, actions, _) = drive(settings(false), events);
    let outcome = failure(Stage::Payment, Cause::Payment(PaymentFailure::ReceiptAbsent), false);
    assert_eq!(actions[8], Action::Finish(outcome));
    assert_eq!(actions[9], Action::Finish(outcome));
    assert_eq!(run.outcome(), Some(outcome));
    assert!(actions.iter().all(|a| !matches!(a, Action::FetchNonce { .. } | Action::Submit(_))));
    assert_eq!(describe(outcome), "Payment failed (no payment was confirmed)");
}

#[test]
fn undecodable_contract_address_aborts_before_any_broadcast() {
    let (mut run, _) = begin(settings(false));
    let mut actions = Vec::new();
    let mut events = up_to_payment();
    events.push(Event::Payment(PaymentEvent::Confirmation(true)));
    for event in events {
        let (next, action) = advance(run, event, None);
        run = next;
        actions.push(action);
    }
    let outcome =
        failure(Stage::Payment, Cause::Payment(PaymentFailure::InvalidContractAddress), false);
    assert_eq!(actions[5], Action::Finish(outcome));
    assert_eq!(run.outcome(), Some(outcome));
    assert!(actions.iter().all(|action| !is_loud(action)));
}

#[test]
fn unavailable_nonce_aborts_without_submission() {
    let mut events = up_to_nonce();
    events.push(Event::NonceUnavailable);
    events.push(Event::Included(batch_root()));
    let (run, actions, _) = drive(settings(false), events);
    let outcome = failure(Stage::Nonce, Cause::NonceUnavailable, true);
    assert_eq!(actions[9], Action::Finish(outcome));
    assert_eq!(actions[10], Action::Finish(outcome));
    assert_eq!(run.outcome(), Some(outcome));
    assert!(actions.iter().all(|action| !matches!(action, Action::Submit(_))));
    assert_eq!(
        describe(outcome),
        "could not get nonce (the payment went through: the fee is spent)"
    );
}

#[test]
fn events_out_of_turn_abort_the_run() {
    let (run, actions, _) = drive(settings(false), vec![Event::Connected]);
    let outcome = failure(Stage::Credentials, Cause::UnexpectedEvent, false);
    assert_eq!(actions[1], Action::Finish(outcome));
    assert_eq!(run.outcome(), Some(outcome));

    let mut events = up_to_payment();
    events.push(Event::NonceFetched(nonce()));
    let (run, actions, _) = drive(settings(false), events);
    let outcome = failure(Stage::Payment, Cause::UnexpectedEvent, false);
    assert_eq!(actions[6], Action::Finish(outcome));
    assert_eq!(run.outcome(), Some(outcome));

    let mut events = up_to_payment();
    events.push(Event::Payment(PaymentEvent::Broadcast));
    let (run, _, _) = drive(settings(false), events);
    assert_eq!(
        run.outcome(),
        Some(failure(Stage::Payment, Cause::Payment(PaymentFailure::UnexpectedEvent), false))
    );

    let mut events = up_to_nonce();
    events.push(Event::Reported);
    let (run, _, _) = drive(settings(false), events);
    assert_eq!(run.outcome(), Some(failure(Stage::Nonce, Cause::UnexpectedEvent, true)));

    let mut events = up_to_nonce();
    events.push(Event::NonceFetched(nonce()));
    events.push(Event::Reported);
    let (run, _, _) = drive(settings(false), events);
    assert_eq!(run.outcome(), Some(failure(Stage::Submission, Cause::UnexpectedEvent, true)));

    let mut events = up_to_nonce();
    events.push(Event::NonceFetched(nonce()));
    events.push(Event::Included(batch_root()));
    events.push(Event::Connected);
    let (run, _, _) = drive(settings(false), events);
    assert_eq!(run.outcome(), Some(failure(Stage::Report, Cause::UnexpectedEvent, true)));
}

#[test]
fn devnet_run_binds_signer_and_submission_to_devnet() {
    let devnet = Settings::new(31337, 5, ProvingSystem::Risc0, false);
    let mut events = up_to_nonce();
    events.push(Event::NonceFetched(nonce()));
    let (_, actions, _) = drive(devnet, events);
    assert_eq!(actions[1], Action::DecryptKeystore { chain_id: 31337 });
    match &actions[9] {
        Action::Submit(submission) => {
            assert_eq!(submission.chain, Chain::Devnet);
            assert_eq!(submission.max_fee, 5);
            assert_eq!(submission.request.proving_system, ProvingSystem::Risc0);
        },
        other => panic!("expected a submission, got {:?}", other),
    }
}

#[test]
fn unrecognised_chain_id_runs_on_the_testnet() {
    let odd = Settings::new(999999, 5, ProvingSystem::Sp1, false);
    let mut events = up_to_nonce();
    events.push(Event::NonceFetched(nonce()));
    let (_, actions, _) = drive(odd, events);
    assert_eq!(actions[1], Action::DecryptKeystore { chain_id: 17000 });
    match &actions[9] {
        Action::Submit(submission) => assert_eq!(submission.chain, Chain::Holesky),
        other => panic!("expected a submission, got {:?}", other),
    }
}

#[test]
fn configured_payment_amount_is_what_is_confirmed_and_sent() {
    let custom = settings(false).with_payment_amount(123);
    let mut events = up_to_payment();
    events.push(Event::Payment(PaymentEvent::Confirmation(true)));
    let (_, actions, _) = drive(custom, events);
    assert_eq!(actions[5], Action::Payment(PaymentAction::Confirm { amount: 123 }));
    assert_eq!(
        actions[6],
        Action::Payment(PaymentAction::Send(PaymentTransaction {
            from: SIGNER,
            to: CONTRACT,
            value: 123,
        }))
    );
}

#[test]
fn finished_run_answers_every_event_with_its_outcome() {
    let mut events = up_to_nonce();
    events.push(Event::NonceFetched(nonce()));
    events.push(Event::Included(batch_root()));
    events.push(Event::Reported);
    events.push(Event::PasswordRead);
    events.push(Event::Payment(PaymentEvent::Confirmation(true)));
    events.push(Event::Included([0x01; 32]));
    let (run, actions, states) = drive(settings(false), events);
    let outcome = Outcome::Success { batch_root: batch_root() };
    assert_eq!(actions[11], Action::Finish(outcome));
    assert_eq!(actions[12], Action::Finish(outcome));
    assert_eq!(actions[13], Action::Finish(outcome));
    assert_eq!(actions[14], Action::Finish(outcome));
    assert_eq!(states[14], State::Reported);
    assert_eq!(run.outcome(), Some(outcome));
    assert_eq!(actions.iter().filter(|a| matches!(a, Action::Submit(_))).count(), 1);
}
