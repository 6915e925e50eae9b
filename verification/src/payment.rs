//! The payment authorizer: the decisions that turn a user's confirmation
//! into one flat-fee transfer to the payment contract.
//!
//! The caller shows the prompt, broadcasts the transaction and waits for its
//! receipt; after each of these it reports what happened and is told what to
//! do next.

use crate::address::{payment_contract, payment_contract_address, Address};
use vstd::prelude::*;

verus! {

/// The flat fee charged for one submission, in the smallest unit of the
/// chain's native currency. This is the default; a run may be configured
/// with another amount.
pub const PAYMENT_AMOUNT: u128 = 4000000000000000;

/// A transfer of the submission fee.
#[derive(Clone, Copy, Debug, PartialEq, Eq)]
pub struct PaymentTransaction {
    pub from: Address,
    pub to: Address,
    pub value: u128,
}

/// Why a payment did not go through.
#[derive(Clone, Copy, Debug, PartialEq, Eq)]
pub enum PaymentFailure {
    /// The textual address of the payment contract did not decode.
    InvalidContractAddress,
    /// The node refused the transaction.
    BroadcastFailed,
    /// Waiting for the transaction's inclusion failed.
    ConfirmationFailed,
    /// The node accepted the transaction but returned no receipt.
    ReceiptAbsent,
    /// The caller reported something that the payment was not waiting for.
    UnexpectedEvent,
}

/// How a payment ended.
#[derive(Clone, Copy, Debug, PartialEq, Eq)]
pub enum PaymentOutcome {
    /// The transfer was included; `transaction` is its hash.
    Paid { transaction: [u8; 32] },
    /// The user declined. Nothing was broadcast.
    Cancelled,
    Failed(PaymentFailure),
}

/// What a payment is waiting for.
#[derive(Clone, Copy, Debug, PartialEq, Eq)]
pub enum PaymentStage {
    AwaitingConfirmation,
    AwaitingBroadcast,
    AwaitingReceipt,
    Settled(PaymentOutcome),
}

/// A payment in progress: who pays, how much, and how far it has come.
#[derive(Clone, Copy, Debug, PartialEq, Eq)]
pub struct Payment {
    pub from: Address,
    pub amount: u128,
    pub stage: PaymentStage,
}

/// What the caller reports back to a payment.
#[derive(Clone, Copy, Debug, PartialEq, Eq)]
pub enum PaymentEvent {
    /// The user's answer to the confirmation prompt.
    Confirmation(bool),
    /// The node accepted the transaction.
    Broadcast,
    BroadcastFailed,
    /// The wait for inclusion ended, with the transaction's hash if a
    /// receipt came back.
    Receipt(Option<[u8; 32]>),
    ReceiptFailed,
}

/// What the caller is asked to do next.
#[derive(Clone, Copy, Debug, PartialEq, Eq)]
pub enum PaymentAction {
    /// Ask the user to confirm a charge of `amount`.
    Confirm { amount: u128 },
    /// Sign and broadcast this transaction.
    Send(PaymentTransaction),
    /// Wait for the broadcast transaction to be included.
    AwaitReceipt,
    /// Nothing more to do: the payment has ended.
    Finish(PaymentOutcome),
}

impl Payment {
    /// A payment that has ended with `outcome`, and the action that says so.
    pub open spec fn settled(self, outcome: PaymentOutcome) -> (Payment, PaymentAction) {
        (Payment { stage: PaymentStage::Settled(outcome), ..self }, PaymentAction::Finish(outcome))
    }

    /// Whether the payment has ended.
    pub open spec fn is_settled(self) -> bool {
        self.stage is Settled
    }
}

/// A fresh payment of `amount` from `from`, and its first action: the
/// confirmation prompt.
pub open spec fn payment_start(from: Address, amount: u128) -> (Payment, PaymentAction) {
    (
        Payment { from, amount, stage: PaymentStage::AwaitingConfirmation },
        PaymentAction::Confirm { amount },
    )
}

/// The payment's rule: the next state and action for each state and event,
/// given the decoded address of the payment contract.
///
/// A declined confirmation cancels. A confirmed one sends the configured
/// amount from the payer to the contract. An absent receipt fails the
/// payment just as a refused broadcast does. Anything reported out of turn
/// fails it too, and an ended payment stays as it is.
pub open spec fn payment_step(payment: Payment, event: PaymentEvent, contract: Option<Address>) -> (
    Payment,
    PaymentAction,
) {
    match payment.stage {
        PaymentStage::AwaitingConfirmation => match event {
            PaymentEvent::Confirmation(true) => match contract {
                Some(to) => (
                    Payment { stage: PaymentStage::AwaitingBroadcast, ..payment },
                    PaymentAction::Send(
                        PaymentTransaction { from: payment.from, to, value: payment.amount },
                    ),
                ),
                None => payment.settled(
                    PaymentOutcome::Failed(PaymentFailure::InvalidContractAddress),
                ),
            },
            PaymentEvent::Confirmation(false) => payment.settled(PaymentOutcome::Cancelled),
            _ => payment.settled(PaymentOutcome::Failed(PaymentFailure::UnexpectedEvent)),
        },
        PaymentStage::AwaitingBroadcast => match event {
            PaymentEvent::Broadcast => (
                Payment { stage: PaymentStage::AwaitingReceipt, ..payment },
                PaymentAction::AwaitReceipt,
            ),
            PaymentEvent::BroadcastFailed => payment.settled(
                PaymentOutcome::Failed(PaymentFailure::BroadcastFailed),
            ),
            _ => payment.settled(PaymentOutcome::Failed(PaymentFailure::UnexpectedEvent)),
        },
        PaymentStage::AwaitingReceipt => match event {
            PaymentEvent::Receipt(Some(transaction)) => payment.settled(
                PaymentOutcome::Paid { transaction },
            ),
            PaymentEvent::Receipt(None) => payment.settled(
                PaymentOutcome::Failed(PaymentFailure::ReceiptAbsent),
            ),
            PaymentEvent::ReceiptFailed => payment.settled(
                PaymentOutcome::Failed(PaymentFailure::ConfirmationFailed),
            ),
            _ => payment.settled(PaymentOutcome::Failed(PaymentFailure::UnexpectedEvent)),
        },
        PaymentStage::Settled(outcome) => (payment, PaymentAction::Finish(outcome)),
    }
}

/// Opens a payment of `amount` from `from`. The first thing to do is to ask
/// the user for confirmation of exactly that amount.
pub fn start_payment(from: Address, amount: u128) -> (started: (Payment, PaymentAction))
    ensures
        started == payment_start(from, amount),
{
    (
        Payment { from, amount, stage: PaymentStage::AwaitingConfirmation },
        PaymentAction::Confirm { amount },
    )
}

fn settle(payment: Payment, outcome: PaymentOutcome) -> (next: (Payment, PaymentAction))
    ensures
        next == payment.settled(outcome),
{
    (
        Payment { from: payment.from, amount: payment.amount, stage: PaymentStage::Settled(outcome) },
        PaymentAction::Finish(outcome),
    )
}

/// Advances a payment by one event, given the decoded address of the
/// payment contract (`None` if it did not decode).
pub fn pay_batcher_to(payment: Payment, event: PaymentEvent, contract: Option<Address>) -> (next: (
    Payment,
    PaymentAction,
))
    ensures
        next == payment_step(payment, event, contract),
{
    match payment.stage {
        PaymentStage::AwaitingConfirmation => match event {
            PaymentEvent::Confirmation(confirmed) => {
                if !confirmed {
                    settle(payment, PaymentOutcome::Cancelled)
                } else {
                    match contract {
                        Some(to) => (
                            Payment {
                                from: payment.from,
                                amount: payment.amount,
                                stage: PaymentStage::AwaitingBroadcast,
                            },
                            PaymentAction::Send(
                                PaymentTransaction {
                                    from: payment.from,
                                    to,
                                    value: payment.amount,
                                },
                            ),
                        ),
                        None => settle(
                            payment,
                            PaymentOutcome::Failed(PaymentFailure::InvalidContractAddress),
                        ),
                    }
                }
            },
            _ => settle(payment, PaymentOutcome::Failed(PaymentFailure::UnexpectedEvent)),
        },
        PaymentStage::AwaitingBroadcast => match event {
            PaymentEvent::Broadcast => (
                Payment {
                    from: payment.from,
                    amount: payment.amount,
                    stage: PaymentStage::AwaitingReceipt,
                },
                PaymentAction::AwaitReceipt,
            ),
            PaymentEvent::BroadcastFailed => settle(
                payment,
                PaymentOutcome::Failed(PaymentFailure::BroadcastFailed),
            ),
            _ => settle(payment, PaymentOutcome::Failed(PaymentFailure::UnexpectedEvent)),
        },
        PaymentStage::AwaitingReceipt => match event {
            PaymentEvent::Receipt(Some(transaction)) => settle(
                payment,
                PaymentOutcome::Paid { transaction },
            ),
            PaymentEvent::Receipt(None) => settle(
                payment,
                PaymentOutcome::Failed(PaymentFailure::ReceiptAbsent),
            ),
            PaymentEvent::ReceiptFailed => settle(
                payment,
                PaymentOutcome::Failed(PaymentFailure::ConfirmationFailed),
            ),
            _ => settle(payment, PaymentOutcome::Failed(PaymentFailure::UnexpectedEvent)),
        },
        PaymentStage::Settled(outcome) => (payment, PaymentAction::Finish(outcome)),
    }
}

/// Advances a payment by one event. The transfer, once confirmed, goes to
/// the well-known payment contract.
pub fn pay_batcher(payment: Payment, event: PaymentEvent) -> (next: (Payment, PaymentAction))
    ensures
        next == payment_step(payment, event, payment_contract()),
{
    pay_batcher_to(payment, event, payment_contract_address())
}

/// A transaction is sent only in answer to the user's confirmation, and a
/// declined confirmation cancels the payment with nothing sent.
pub proof fn lemma_send_only_on_confirmation(
    payment: Payment,
    event: PaymentEvent,
    contract: Option<Address>,
)
    ensures
        payment_step(payment, event, contract).1 is Send ==> payment.stage is AwaitingConfirmation
            && event == PaymentEvent::Confirmation(true) && payment_step(
            payment,
            event,
            contract,
        ).1 == PaymentAction::Send(
            PaymentTransaction { from: payment.from, to: contract->0, value: payment.amount },
        ),
        payment.stage is AwaitingConfirmation && event == PaymentEvent::Confirmation(false)
            ==> payment_step(payment, event, contract) == payment.settled(
            PaymentOutcome::Cancelled,
        ),
{
}

/// A payment is recorded as paid only in answer to a receipt that came
/// back while it was waiting for one; an absent receipt fails it.
pub proof fn lemma_paid_only_on_receipt(
    payment: Payment,
    event: PaymentEvent,
    contract: Option<Address>,
)
    requires
        !payment.is_settled(),
    ensures
        payment_step(payment, event, contract).0.stage matches PaymentStage::Settled(
            PaymentOutcome::Paid { transaction },
        ) ==> payment.stage is AwaitingReceipt && event == PaymentEvent::Receipt(
            Some(transaction),
        ),
        payment.stage is AwaitingReceipt && event == PaymentEvent::Receipt(None) ==> payment_step(
            payment,
            event,
            contract,
        ) == payment.settled(PaymentOutcome::Failed(PaymentFailure::ReceiptAbsent)),
{
}

/// A payment never changes its payer or its amount, and once it has ended
/// it stays as it is.
pub proof fn lemma_payment_keeps_terms(
    payment: Payment,
    event: PaymentEvent,
    contract: Option<Address>,
)
    ensures
        payment_step(payment, event, contract).0.from == payment.from,
        payment_step(payment, event, contract).0.amount == payment.amount,
        payment.is_settled() ==> payment_step(payment, event, contract).0 == payment,
{
}

} // verus!
