//! What a run is configured with, and what it hands to the verification
//! network.

use crate::address::Address;
use crate::chain::Chain;
use crate::payment::PAYMENT_AMOUNT;
use vstd::prelude::*;

verus! {

/// Endpoint of the batcher, the service that collects verification
/// requests.
pub const BATCHER_URL: &'static str = "wss://batcher.alignedlayer.com";

/// The proof formats that can be submitted.
#[derive(Clone, Copy, Debug, PartialEq, Eq)]
pub enum ProvingSystem {
    Sp1,
    Risc0,
}

/// A submission nonce: a 256-bit counter, least significant limb first.
#[derive(Clone, Copy, Debug, PartialEq, Eq)]
pub struct Nonce {
    pub limbs: [u64; 4],
}

/// The fixed choices of one run.
#[derive(Clone, Copy, Debug, PartialEq, Eq)]
pub struct Settings {
    /// Identifier of the chain to submit to, as the caller gave it.
    pub chain_id: u64,
    /// The most the requester will pay for inclusion in a batch. Not to be
    /// confused with `payment_amount`.
    pub max_fee: u128,
    pub proving_system: ProvingSystem,
    /// The flat fee paid to the payment contract before submission.
    pub payment_amount: u128,
    /// Whether the caller named a public-input file.
    pub has_public_input: bool,
}

impl Settings {
    /// Settings with the default flat fee.
    pub fn new(
        chain_id: u64,
        max_fee: u128,
        proving_system: ProvingSystem,
        has_public_input: bool,
    ) -> (settings: Settings)
        ensures
            settings == (Settings {
                chain_id,
                max_fee,
                proving_system,
                payment_amount: PAYMENT_AMOUNT,
                has_public_input,
            }),
    {
        Settings {
            chain_id,
            max_fee,
            proving_system,
            payment_amount: PAYMENT_AMOUNT,
            has_public_input,
        }
    }

    /// The same settings with another flat fee.
    pub fn with_payment_amount(self, payment_amount: u128) -> (settings: Settings)
        ensures
            settings == (Settings { payment_amount, ..self }),
    {
        Settings {
            chain_id: self.chain_id,
            max_fee: self.max_fee,
            proving_system: self.proving_system,
            payment_amount,
            has_public_input: self.has_public_input,
        }
    }
}

/// The contents of an optional byte buffer.
pub open spec fn optional_bytes(buffer: Option<Vec<u8>>) -> Option<Seq<u8>> {
    match buffer {
        Some(bytes) => Some(bytes@),
        None => None,
    }
}

/// A request to verify one proof.
#[derive(Clone, Debug, PartialEq, Eq)]
pub struct VerificationRequest {
    pub proving_system: ProvingSystem,
    pub proof: Vec<u8>,
    pub proof_generator_addr: Address,
    pub vm_program_code: Option<Vec<u8>>,
    pub verification_key: Option<Vec<u8>>,
    pub pub_input: Option<Vec<u8>>,
}

/// The contents of a `VerificationRequest`.
pub struct VerificationRequestView {
    pub proving_system: ProvingSystem,
    pub proof: Seq<u8>,
    pub proof_generator_addr: Address,
    pub vm_program_code: Option<Seq<u8>>,
    pub verification_key: Option<Seq<u8>>,
    pub pub_input: Option<Seq<u8>>,
}

impl View for VerificationRequest {
    type V = VerificationRequestView;

    open spec fn view(&self) -> VerificationRequestView {
        VerificationRequestView {
            proving_system: self.proving_system,
            proof: self.proof@,
            proof_generator_addr: self.proof_generator_addr,
            vm_program_code: optional_bytes(self.vm_program_code),
            verification_key: optional_bytes(self.verification_key),
            pub_input: optional_bytes(self.pub_input),
        }
    }
}

/// The request for a proof made by `signer` for a program: it names the
/// signer as the proof's generator, always carries the program and never a
/// verification key.
pub open spec fn request_for(
    proving_system: ProvingSystem,
    signer: Address,
    proof: Seq<u8>,
    program: Seq<u8>,
    public_input: Option<Seq<u8>>,
) -> VerificationRequestView {
    VerificationRequestView {
        proving_system,
        proof,
        proof_generator_addr: signer,
        vm_program_code: Some(program),
        verification_key: None,
        pub_input: public_input,
    }
}

/// Puts together the request for a proof made by `signer`.
pub fn build_request(
    proving_system: ProvingSystem,
    signer: Address,
    proof: Vec<u8>,
    program: Vec<u8>,
    public_input: Option<Vec<u8>>,
) -> (request: VerificationRequest)
    ensures
        request@ == request_for(
            proving_system,
            signer,
            proof@,
            program@,
            optional_bytes(public_input),
        ),
{
    VerificationRequest {
        proving_system,
        proof,
        proof_generator_addr: signer,
        vm_program_code: Some(program),
        verification_key: None,
        pub_input: public_input,
    }
}

/// Everything the submission client is called with, but for the two
/// endpoints.
#[derive(Clone, Debug, PartialEq, Eq)]
pub struct Submission {
    pub chain: Chain,
    pub request: VerificationRequest,
    pub max_fee: u128,
    pub signer: Address,
    pub nonce: Nonce,
}

/// The contents of a `Submission`.
pub struct SubmissionView {
    pub chain: Chain,
    pub request: VerificationRequestView,
    pub max_fee: u128,
    pub signer: Address,
    pub nonce: Nonce,
}

impl View for Submission {
    type V = SubmissionView;

    open spec fn view(&self) -> SubmissionView {
        SubmissionView {
            chain: self.chain,
            request: self.request@,
            max_fee: self.max_fee,
            signer: self.signer,
            nonce: self.nonce,
        }
    }
}

} // verus!
