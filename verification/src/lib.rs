//! Fee-paid submission of zero-knowledge proofs to a remote verification
//! network, as a pair of verified decision procedures.
//!
//! The library owns every decision of a submission run: which step comes
//! next, what is handed to each collaborator, and how the run ends. The
//! caller performs the steps (prompts, file reads, network calls) and reports
//! back what happened.

pub mod chain;
pub mod address;
pub mod explorer;
pub mod payment;
pub mod outcome;
pub mod request;
pub mod workflow;
pub mod laws;
pub mod report;

pub use crate::payment::pay_batcher;
pub use crate::workflow::submit_proof_to_aligned;
