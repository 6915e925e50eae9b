//! What holds of every run: the order of its steps, and what its outcome
//! says about the fee.
//!
//! A run is followed here through a whole sequence of events, from the
//! moment it is opened. `run_after` is the run once the events are handled
//! and `actions_of` the actions it answered them with, one per event.

use crate::address::Address;
use crate::chain::resolved_chain;
use crate::outcome::{Cause, Outcome, Stage, State};
use crate::payment::{PaymentAction, PaymentEvent, PaymentStage};
use crate::request::Settings;
use crate::workflow::{
    workflow_start, workflow_step, ActionView, EventView, StepView, WorkflowView,
};
use vstd::prelude::*;

verus! {

/// How far a step is from the start of a run. Every step but the last has
/// a position of its own.
pub open spec fn position(step: StepView) -> nat {
    match step {
        StepView::AwaitingPassword => 0,
        StepView::AwaitingKeystore => 1,
        StepView::AwaitingProof { .. } => 2,
        StepView::AwaitingProgram { .. } => 3,
        StepView::AwaitingPublicInput { .. } => 4,
        StepView::AwaitingConnection { .. } => 5,
        StepView::Paying { payment, .. } => match payment.stage {
            PaymentStage::AwaitingConfirmation => 6,
            PaymentStage::AwaitingBroadcast => 7,
            _ => 8,
        },
        StepView::AwaitingNonce { .. } => 9,
        StepView::AwaitingSubmission => 10,
        StepView::AwaitingReport { .. } => 11,
        StepView::Finished(_) => 12,
    }
}

/// The run that `start` has become once it has handled `events` in order.
pub open spec fn run_after(
    start: WorkflowView,
    events: Seq<EventView>,
    contract: Option<Address>,
) -> WorkflowView
    decreases events.len(),
{
    if events.len() == 0 {
        start
    } else {
        workflow_step(run_after(start, events.drop_last(), contract), events.last(), contract).0
    }
}

/// The actions with which `start` answers `events`, one for each event.
pub open spec fn actions_of(
    start: WorkflowView,
    events: Seq<EventView>,
    contract: Option<Address>,
) -> Seq<ActionView>
    decreases events.len(),
{
    if events.len() == 0 {
        Seq::empty()
    } else {
        actions_of(start, events.drop_last(), contract).push(
            workflow_step(
                run_after(start, events.drop_last(), contract),
                events.last(),
                contract,
            ).1,
        )
    }
}

/// The run in which the first `count` of `events` have been handled, from
/// the moment it was opened with `settings`.
pub open spec fn run_at(
    settings: Settings,
    events: Seq<EventView>,
    count: int,
    contract: Option<Address>,
) -> WorkflowView {
    run_after(workflow_start(settings).0, events.take(count), contract)
}

/// The action with which a run opened with `settings` answers the event at
/// `index`.
pub open spec fn action_at(
    settings: Settings,
    events: Seq<EventView>,
    index: int,
    contract: Option<Address>,
) -> ActionView {
    workflow_step(run_at(settings, events, index, contract), events[index], contract).1
}

/// Whether the event at `index` is the receipt of the run's payment: the
/// run was waiting for the receipt, and one came back.
pub open spec fn receipt_obtained_at(
    settings: Settings,
    events: Seq<EventView>,
    index: int,
    contract: Option<Address>,
) -> bool {
    &&& run_at(settings, events, index, contract).step matches StepView::Paying { payment, .. }
    &&& payment.stage is AwaitingReceipt
    &&& events[index] matches EventView::Payment(PaymentEvent::Receipt(Some(_)))
}

/// Handling one more event is one step from the run before it.
pub proof fn lemma_run_at_next(
    settings: Settings,
    events: Seq<EventView>,
    index: int,
    contract: Option<Address>,
)
    requires
        0 <= index < events.len(),
    ensures
        run_at(settings, events, index + 1, contract) == workflow_step(
            run_at(settings, events, index, contract),
            events[index],
            contract,
        ).0,
        run_at(settings, events, 0, contract) == workflow_start(settings).0,
        run_at(settings, events, events.len() as int, contract) == run_after(
            workflow_start(settings).0,
            events,
            contract,
        ),
{
    let upto = events.take(index + 1);
    assert(upto.drop_last() =~= events.take(index));
    assert(upto.last() == events[index]);
    assert(events.take(0).len() == 0);
    assert(events.take(events.len() as int) =~= events);
}

/// The actions of a run are those that `action_at` names, one per event.
pub proof fn lemma_actions_of_run(
    settings: Settings,
    events: Seq<EventView>,
    contract: Option<Address>,
)
    ensures
        actions_of(workflow_start(settings).0, events, contract).len() == events.len(),
        forall|i: int|
            0 <= i < events.len() ==> #[trigger] actions_of(
                workflow_start(settings).0,
                events,
                contract,
            )[i] == action_at(settings, events, i, contract),
    decreases events.len(),
{
    let start = workflow_start(settings).0;
    if events.len() > 0 {
        let earlier = events.drop_last();
        lemma_actions_of_run(settings, earlier, contract);
        assert forall|i: int| 0 <= i < events.len() implies #[trigger] actions_of(
            start,
            events,
            contract,
        )[i] == action_at(settings, events, i, contract) by {
            if i < earlier.len() {
                assert(earlier.take(i) =~= events.take(i));
                assert(actions_of(start, earlier, contract)[i] == action_at(
                    settings,
                    earlier,
                    i,
                    contract,
                ));
            } else {
                assert(events.take(i) =~= earlier);
            }
        }
    }
}

/// One step never goes back. The settings stay, a run that has ended stays
/// as it is, and any other run moves to a later step: none is taken twice.
/// Its state stays, moves on to the next, or becomes `Aborted`.
pub proof fn lemma_step_moves_forward(
    run: WorkflowView,
    event: EventView,
    contract: Option<Address>,
)
    ensures
        ({
            let next = workflow_step(run, event, contract).0;
            &&& next.settings == run.settings
            &&& run.step is Finished ==> next == run
            &&& !(run.step is Finished) ==> position(next.step) > position(run.step)
            &&& (next.step.state() == run.step.state() || next.step.state().rank()
                == run.step.state().rank() + 1 || next.step.state() == State::Aborted)
        }),
{
}

/// The signer that a step holds, where it holds one.
pub open spec fn signer_of(step: StepView) -> Option<Address> {
    match step {
        StepView::AwaitingProof { signer } => Some(signer),
        StepView::AwaitingProgram { signer, .. } => Some(signer),
        StepView::AwaitingPublicInput { signer, .. } => Some(signer),
        StepView::AwaitingConnection { artifacts } => Some(artifacts.signer),
        StepView::Paying { artifacts, .. } => Some(artifacts.signer),
        StepView::AwaitingNonce { request } => Some(request.proof_generator_addr),
        _ => None,
    }
}

/// Whether an action touches neither the funds nor the network: it is no
/// payment transaction, no request for a nonce and no submission.
pub open spec fn is_quiet(action: ActionView) -> bool {
    &&& !(action matches ActionView::Payment(PaymentAction::Send(_)))
    &&& !(action is FetchNonce)
    &&& !(action is Submit)
}

/// Whether the receipt of the payment is among the first `count` events.
pub open spec fn receipt_obtained_before(
    settings: Settings,
    events: Seq<EventView>,
    count: int,
    contract: Option<Address>,
) -> bool {
    exists|j: int| 0 <= j < count && receipt_obtained_at(settings, events, j, contract)
}

/// What every run that was opened with `settings` looks like: it still has
/// those settings, and a payment in progress is unsettled, for the
/// configured amount, and paid by the run's signer.
pub open spec fn well_formed(settings: Settings, run: WorkflowView) -> bool {
    &&& run.settings == settings
    &&& run.step matches StepView::Paying { artifacts, payment } ==> {
        &&& !(payment.stage is Settled)
        &&& payment.amount == settings.payment_amount
        &&& payment.from == artifacts.signer
    }
}

/// Every run keeps its settings, and its payment is for the configured
/// amount, from its signer, and unsettled while it is in progress.
pub proof fn lemma_run_well_formed(
    settings: Settings,
    events: Seq<EventView>,
    count: int,
    contract: Option<Address>,
)
    requires
        0 <= count <= events.len(),
    ensures
        well_formed(settings, run_at(settings, events, count, contract)),
    decreases count,
{
    if count == 0 {
        assert(events.take(0).len() == 0);
    } else {
        lemma_run_well_formed(settings, events, count - 1, contract);
        lemma_run_at_next(settings, events, count - 1, contract);
    }
}

/// A run only ever moves on. Between two moments of a run its position
/// does not fall, and it rises unless the run had already ended, in which
/// case the run is the same at both moments.
pub proof fn lemma_no_step_twice(
    settings: Settings,
    events: Seq<EventView>,
    earlier: int,
    later: int,
    contract: Option<Address>,
)
    requires
        0 <= earlier <= later <= events.len(),
    ensures
        ({
            let before = run_at(settings, events, earlier, contract);
            let after = run_at(settings, events, later, contract);
            &&& position(after.step) >= position(before.step)
            &&& before.step is Finished ==> after == before
            &&& earlier < later && !(before.step is Finished) ==> position(after.step) > position(
                before.step,
            )
        }),
    decreases later - earlier,
{
    if earlier < later {
        lemma_no_step_twice(settings, events, earlier, later - 1, contract);
        lemma_run_at_next(settings, events, later - 1, contract);
        lemma_step_moves_forward(
            run_at(settings, events, later - 1, contract),
            events[later - 1],
            contract,
        );
    }
}

/// Once a run has ended, every further event is answered with the same
/// outcome: nothing is retried and nothing else is asked for.
pub proof fn lemma_outcome_is_final(
    settings: Settings,
    events: Seq<EventView>,
    ended: int,
    later: int,
    contract: Option<Address>,
)
    requires
        0 <= ended <= later < events.len(),
        action_at(settings, events, ended, contract) is Finish,
    ensures
        action_at(settings, events, later, contract) == action_at(
            settings,
            events,
            ended,
            contract,
        ),
        run_at(settings, events, later + 1, contract).step == StepView::Finished(
            action_at(settings, events, ended, contract)->Finish_0,
        ),
{
    lemma_run_at_next(settings, events, ended, contract);
    lemma_run_at_next(settings, events, later, contract);
    lemma_run_well_formed(settings, events, ended, contract);
    lemma_no_step_twice(settings, events, ended + 1, later + 1, contract);
    if ended < later {
        lemma_no_step_twice(settings, events, ended + 1, later, contract);
    }
}

/// The payment transaction is asked for only in answer to the user's
/// confirmation, and it moves the configured amount from the run's signer
/// to the payment contract.
pub proof fn lemma_payment_needs_confirmation(
    settings: Settings,
    events: Seq<EventView>,
    index: int,
    contract: Option<Address>,
)
    requires
        0 <= index < events.len(),
        action_at(settings, events, index, contract) matches ActionView::Payment(
            PaymentAction::Send(_),
        ),
    ensures
        events[index] == EventView::Payment(PaymentEvent::Confirmation(true)),
        ({
            let transaction = action_at(settings, events, index, contract)->Payment_0->Send_0;
            &&& transaction.value == settings.payment_amount
            &&& Some(transaction.to) == contract
            &&& Some(transaction.from) == signer_of(
                run_at(settings, events, index, contract).step,
            )
        }),
{
    lemma_run_well_formed(settings, events, index, contract);
}

/// The payment transaction is asked for at most once in a run.
pub proof fn lemma_payment_at_most_once(
    settings: Settings,
    events: Seq<EventView>,
    first: int,
    second: int,
    contract: Option<Address>,
)
    requires
        0 <= first < second < events.len(),
        action_at(settings, events, first, contract) matches ActionView::Payment(
            PaymentAction::Send(_),
        ),
    ensures
        !(action_at(settings, events, second, contract) matches ActionView::Payment(
            PaymentAction::Send(_),
        )),
{
    lemma_run_well_formed(settings, events, first, contract);
    lemma_run_well_formed(settings, events, second, contract);
    lemma_no_step_twice(settings, events, first, second, contract);
}

/// As long as the user has not confirmed the payment, and in a run that
/// ended as cancelled, nothing has touched the funds or the network: no
/// transaction was asked for, no nonce, no submission.
pub proof fn lemma_unconfirmed_run_is_quiet(
    settings: Settings,
    events: Seq<EventView>,
    count: int,
    contract: Option<Address>,
)
    requires
        0 <= count <= events.len(),
        position(run_at(settings, events, count, contract).step) <= 6 || run_at(
            settings,
            events,
            count,
            contract,
        ).step == StepView::Finished(Outcome::Cancelled),
    ensures
        forall|k: int|
            0 <= k < count ==> is_quiet(#[trigger] action_at(settings, events, k, contract)),
        !receipt_obtained_before(settings, events, count, contract),
    decreases count,
{
    if count > 0 {
        let before = run_at(settings, events, count - 1, contract);
        lemma_run_at_next(settings, events, count - 1, contract);
        lemma_run_well_formed(settings, events, count - 1, contract);
        lemma_step_moves_forward(before, events[count - 1], contract);
        lemma_unconfirmed_run_is_quiet(settings, events, count - 1, contract);
        assert(is_quiet(action_at(settings, events, count - 1, contract)));
        assert(!receipt_obtained_at(settings, events, count - 1, contract));
    }
}

/// A declined confirmation ends the run as cancelled, with no funds moved:
/// no transaction, no request for a nonce and no submission is ever asked
/// for, before or after.
pub proof fn lemma_declined_payment_moves_nothing(
    settings: Settings,
    events: Seq<EventView>,
    declined: int,
    contract: Option<Address>,
)
    requires
        0 <= declined < events.len(),
        run_at(settings, events, declined, contract).step matches StepView::Paying {
            payment,
            ..
        } && payment.stage is AwaitingConfirmation,
        events[declined] == EventView::Payment(PaymentEvent::Confirmation(false)),
    ensures
        run_after(workflow_start(settings).0, events, contract).step == StepView::Finished(
            Outcome::Cancelled,
        ),
        forall|k: int|
            0 <= k < events.len() ==> is_quiet(
                #[trigger] action_at(settings, events, k, contract),
            ),
        forall|k: int|
            declined <= k < events.len() ==> #[trigger] action_at(settings, events, k, contract)
                == ActionView::Finish(Outcome::Cancelled),
{
    let last = events.len() as int;
    lemma_run_at_next(settings, events, declined, contract);
    lemma_no_step_twice(settings, events, declined + 1, last, contract);
    lemma_unconfirmed_run_is_quiet(settings, events, last, contract);
    assert forall|k: int| declined <= k < events.len() implies #[trigger] action_at(
        settings,
        events,
        k,
        contract,
    ) == ActionView::Finish(Outcome::Cancelled) by {
        lemma_outcome_is_final(settings, events, declined, k, contract);
    }
}

/// The nonce is asked for in direct answer to the receipt of the payment,
/// and nowhere else.
pub proof fn lemma_nonce_follows_receipt(
    settings: Settings,
    events: Seq<EventView>,
    index: int,
    contract: Option<Address>,
)
    requires
        0 <= index < events.len(),
    ensures
        action_at(settings, events, index, contract) is FetchNonce <==> receipt_obtained_at(
            settings,
            events,
            index,
            contract,
        ),
        action_at(settings, events, index, contract) matches ActionView::FetchNonce { signer }
            ==> Some(signer) == signer_of(run_at(settings, events, index, contract).step),
{
    lemma_run_well_formed(settings, events, index, contract);
}

/// A submission is asked for only after the payment's receipt: the event
/// just before it was that receipt, answered with the request for a nonce,
/// and the submission carries the nonce that came back, for the chain and
/// the fee limit of the run's settings, signed by the proof's generator.
pub proof fn lemma_submission_follows_payment(
    settings: Settings,
    events: Seq<EventView>,
    index: int,
    contract: Option<Address>,
)
    requires
        0 <= index < events.len(),
        action_at(settings, events, index, contract) is Submit,
    ensures
        index >= 1,
        receipt_obtained_at(settings, events, index - 1, contract),
        action_at(settings, events, index - 1, contract) is FetchNonce,
        ({
            let submission = action_at(settings, events, index, contract)->Submit_0;
            &&& events[index] == EventView::NonceFetched(submission.nonce)
            &&& submission.signer == submission.request.proof_generator_addr
            &&& submission.max_fee == settings.max_fee
            &&& submission.chain == resolved_chain(settings.chain_id)
            &&& submission.request.proving_system == settings.proving_system
            &&& action_at(settings, events, index - 1, contract) == (ActionView::FetchNonce {
                signer: submission.signer,
            })
        }),
{
    lemma_run_well_formed(settings, events, index, contract);
    if index == 0 {
        assert(events.take(0).len() == 0);
    } else {
        lemma_run_at_next(settings, events, index - 1, contract);
        lemma_run_well_formed(settings, events, index - 1, contract);
    }
}

/// Whether the fee is spent at a step: the payment's receipt has come
/// back.
pub open spec fn fee_spent_at(step: StepView) -> bool {
    match step {
        StepView::Finished(outcome) => outcome.spec_fee_spent(),
        _ => position(step) >= 9,
    }
}

/// A run records the fee as spent exactly when the payment's receipt has
/// come back. In particular the outcome of a run that has ended says
/// `paid`, or is a success, if and only if the payment was included.
pub proof fn lemma_fee_spent_iff_receipt(
    settings: Settings,
    events: Seq<EventView>,
    count: int,
    contract: Option<Address>,
)
    requires
        0 <= count <= events.len(),
    ensures
        fee_spent_at(run_at(settings, events, count, contract).step) <==> receipt_obtained_before(
            settings,
            events,
            count,
            contract,
        ),
    decreases count,
{
    if count == 0 {
        assert(events.take(0).len() == 0);
    } else {
        let before = run_at(settings, events, count - 1, contract);
        lemma_run_at_next(settings, events, count - 1, contract);
        lemma_run_well_formed(settings, events, count - 1, contract);
        lemma_fee_spent_iff_receipt(settings, events, count - 1, contract);
        if receipt_obtained_before(settings, events, count - 1, contract) {
            let j = choose|j: int|
                0 <= j < count - 1 && receipt_obtained_at(settings, events, j, contract);
            assert(0 <= j < count && receipt_obtained_at(settings, events, j, contract));
        } else if receipt_obtained_at(settings, events, count - 1, contract) {
            assert(0 <= count - 1 < count);
        } else {
            assert forall|j: int| 0 <= j < count implies !receipt_obtained_at(
                settings,
                events,
                j,
                contract,
            ) by {
                if j < count - 1 {
                    assert(!(0 <= j < count - 1 && receipt_obtained_at(
                        settings,
                        events,
                        j,
                        contract,
                    )));
                }
            }
        }
    }
}

/// The signer of a run is the one that the keystore decrypted to. From the
/// second event on, a run that has not ended got there through a password
/// that was read and a keystore that decrypted, and until the submission is
/// handed over it holds the address that the keystore decrypted to.
pub proof fn lemma_signer_is_keystore_owner(
    settings: Settings,
    events: Seq<EventView>,
    count: int,
    contract: Option<Address>,
)
    requires
        2 <= count <= events.len(),
        !(run_at(settings, events, count, contract).step is Finished),
    ensures
        events[0] == EventView::PasswordRead,
        events[1] matches EventView::KeystoreDecrypted(signer) && (position(
            run_at(settings, events, count, contract).step,
        ) <= 9 ==> signer_of(run_at(settings, events, count, contract).step) == Some(signer)),
    decreases count,
{
    lemma_run_at_next(settings, events, count - 1, contract);
    lemma_run_well_formed(settings, events, count - 1, contract);
    lemma_step_moves_forward(
        run_at(settings, events, count - 1, contract),
        events[count - 1],
        contract,
    );
    if count == 2 {
        lemma_run_at_next(settings, events, 0, contract);
    } else {
        lemma_signer_is_keystore_owner(settings, events, count - 1, contract);
    }
}

/// A keystore that does not decrypt ends the run then and there. Decryption
/// was asked for once; every later event is answered with the same
/// failure, so no artifact is read, nothing is paid and nothing submitted.
pub proof fn lemma_rejected_keystore_ends_run(
    settings: Settings,
    events: Seq<EventView>,
    contract: Option<Address>,
)
    requires
        events.len() >= 2,
        events[0] == EventView::PasswordRead,
        events[1] == EventView::KeystoreRejected,
    ensures
        action_at(settings, events, 0, contract) == (ActionView::DecryptKeystore {
            chain_id: resolved_chain(settings.chain_id).spec_id(),
        }),
        forall|k: int|
            1 <= k < events.len() ==> #[trigger] action_at(settings, events, k, contract)
                == ActionView::Finish(
                Outcome::Failed {
                    stage: Stage::Credentials,
                    cause: Cause::KeystoreRejected,
                    paid: false,
                },
            ),
{
    lemma_run_at_next(settings, events, 0, contract);
    lemma_run_at_next(settings, events, 1, contract);
    assert forall|k: int| 1 <= k < events.len() implies #[trigger] action_at(
        settings,
        events,
        k,
        contract,
    ) == ActionView::Finish(
        Outcome::Failed { stage: Stage::Credentials, cause: Cause::KeystoreRejected, paid: false },
    ) by {
        lemma_outcome_is_final(settings, events, 1, k, contract);
    }
}

/// The steps are taken one at a time. Each event moves a run that has not
/// ended exactly one position on, but for the public-input step, which is
/// passed over when no public input was named.
pub proof fn lemma_position_bounded_by_events(
    settings: Settings,
    events: Seq<EventView>,
    count: int,
    contract: Option<Address>,
)
    requires
        0 <= count <= events.len(),
        !(run_at(settings, events, count, contract).step is Finished),
    ensures
        count <= position(run_at(settings, events, count, contract).step) <= count + 1,
        position(run_at(settings, events, count, contract).step) == count + 1 ==> count >= 4
            && !settings.has_public_input,
    decreases count,
{
    if count == 0 {
        assert(events.take(0).len() == 0);
    } else {
        lemma_run_at_next(settings, events, count - 1, contract);
        lemma_run_well_formed(settings, events, count - 1, contract);
        lemma_step_moves_forward(
            run_at(settings, events, count - 1, contract),
            events[count - 1],
            contract,
        );
        lemma_position_bounded_by_events(settings, events, count - 1, contract);
    }
}

/// Whoever an action names as payer, as owner of the nonce or as signer of
/// the submission is the signer that the keystore decrypted to.
pub proof fn lemma_actions_name_the_signer(
    settings: Settings,
    events: Seq<EventView>,
    index: int,
    contract: Option<Address>,
)
    requires
        0 <= index < events.len(),
        !is_quiet(action_at(settings, events, index, contract)),
    ensures
        index >= 2,
        events[1] matches EventView::KeystoreDecrypted(signer) && (match action_at(
            settings,
            events,
            index,
            contract,
        ) {
            ActionView::Payment(PaymentAction::Send(transaction)) => transaction.from == signer,
            ActionView::FetchNonce { signer: owner } => owner == signer,
            ActionView::Submit(submission) => submission.signer == signer
                && submission.request.proof_generator_addr == signer,
            _ => true,
        }),
{
    lemma_run_well_formed(settings, events, index, contract);
    lemma_position_bounded_by_events(settings, events, index, contract);
    lemma_signer_is_keystore_owner(settings, events, index, contract);
}

/// The kind of an action, whatever it carries.
pub open spec fn kind_of(action: ActionView) -> nat {
    match action {
        ActionView::PromptPassword => 0,
        ActionView::DecryptKeystore { .. } => 1,
        ActionView::ReadProof => 2,
        ActionView::ReadProgram => 3,
        ActionView::ReadPublicInput => 4,
        ActionView::Connect => 5,
        ActionView::Payment(PaymentAction::Confirm { .. }) => 6,
        ActionView::Payment(PaymentAction::Send(_)) => 7,
        ActionView::Payment(PaymentAction::AwaitReceipt) => 8,
        ActionView::Payment(PaymentAction::Finish(_)) => 9,
        ActionView::FetchNonce { .. } => 10,
        ActionView::Submit(_) => 11,
        ActionView::Report { .. } => 12,
        ActionView::Finish(_) => 13,
    }
}

/// Nothing is retried. Apart from the closing `Finish`, a run asks for each
/// kind of action at most once: one decryption, one read of each file, one
/// payment, one nonce, one submission.
pub proof fn lemma_nothing_is_asked_twice(
    settings: Settings,
    events: Seq<EventView>,
    first: int,
    second: int,
    contract: Option<Address>,
)
    requires
        0 <= first < second < events.len(),
        !(action_at(settings, events, first, contract) is Finish),
    ensures
        kind_of(action_at(settings, events, second, contract)) != kind_of(
            action_at(settings, events, first, contract),
        ),
        !(action_at(settings, events, second, contract) is PromptPassword),
{
    lemma_run_well_formed(settings, events, first, contract);
    lemma_run_well_formed(settings, events, second, contract);
    lemma_no_step_twice(settings, events, first, second, contract);
}

} // verus!
