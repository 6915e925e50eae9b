//! The line that tells the user how a run ended.

use crate::explorer::{explorer_url, explorer_url_of};
use crate::outcome::{cause_message, cause_text, Outcome};
use vstd::prelude::*;
use vstd::string::*;

verus! {

/// Said of a run that the user cancelled.
pub const CANCELLED_TEXT: &'static str = "Payment cancelled";

/// Added to a failure that came after the fee was paid.
pub const PAID_NOTE: &'static str = " (the payment went through: the fee is spent)";

/// Added to a failure that came before any payment was confirmed.
pub const UNPAID_NOTE: &'static str = " (no payment was confirmed)";

/// The line for an outcome: where to look the result up, that the run was
/// cancelled, or what failed and whether the fee is spent all the same.
pub open spec fn report_text(outcome: Outcome) -> Seq<char> {
    match outcome {
        Outcome::Success { batch_root } => explorer_url_of(batch_root@),
        Outcome::Cancelled => CANCELLED_TEXT@,
        Outcome::Failed { cause, paid, .. } => cause_text(cause) + (if paid {
            PAID_NOTE@
        } else {
            UNPAID_NOTE@
        }),
    }
}

/// Writes the line that tells the user how a run ended.
pub fn describe(outcome: Outcome) -> (text: String)
    ensures
        text@ == report_text(outcome),
{
    match outcome {
        Outcome::Success { batch_root } => explorer_url(&batch_root),
        Outcome::Cancelled => String::from_str(CANCELLED_TEXT),
        Outcome::Failed { cause, paid, .. } => {
            let note = if paid {
                PAID_NOTE
            } else {
                UNPAID_NOTE
            };
            String::from_str(cause_message(cause)).concat(note)
        },
    }
}

} // verus!
