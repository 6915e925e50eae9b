//! Account addresses, and the well-known address of the payment contract.

use std::str::FromStr;
use vstd::prelude::*;

verus! {

/// Textual form of the address of the contract that collects submission
/// payments.
pub const BATCHER_PAYMENTS_ADDRESS: &'static str = "0x815aeCA64a974297942D2Bbf034ABEe22a38A003";

/// A twenty-byte account address.
#[derive(Clone, Copy, Debug, PartialEq, Eq)]
pub struct Address {
    pub bytes: [u8; 20],
}

/// What `ethers::types::Address::from_str` makes of a text: the twenty bytes
/// it decodes to, or `None` where it rejects the text.
pub uninterp spec fn parsed_address(text: Seq<char>) -> Option<Seq<u8>>;

/// The bytes of an optional address.
pub open spec fn address_bytes(address: Option<Address>) -> Option<Seq<u8>> {
    match address {
        Some(a) => Some(a.bytes@),
        None => None,
    }
}

/// Calls `ethers::types::Address::from_str` (the `FromStr` impl of `H160`).
/// Trusted: the outcome depends on the text alone, so it is the value that
/// `parsed_address` names; a rejected text gives `None`.
#[verifier::external_body]
pub(crate) fn parse_address(text: &str) -> (parsed: Option<Address>)
    ensures
        address_bytes(parsed) == parsed_address(text@),
{
    match ethers::types::Address::from_str(text) {
        Ok(address) => Some(Address { bytes: address.0 }),
        Err(_) => None,
    }
}

/// The address that a decoded text stands for.
pub open spec fn address_from(bytes: Option<Seq<u8>>) -> Option<Address> {
    match bytes {
        Some(b) => Some(choose|a: Address| a.bytes@ == b),
        None => None,
    }
}

/// An address is determined by its bytes.
pub proof fn lemma_address_from_bytes(address: Option<Address>)
    ensures
        address_from(address_bytes(address)) == address,
{
    if let Some(a) = address {
        let bytes = a.bytes@;
        assert(a.bytes@ == bytes);
        let chosen = choose|c: Address| c.bytes@ == bytes;
        assert(chosen.bytes@ == bytes);
        assert(chosen.bytes =~= a.bytes);
    }
}

/// The address of the payment contract, as decoded from its textual form;
/// `None` if that text does not decode.
pub open spec fn payment_contract() -> Option<Address> {
    address_from(parsed_address(BATCHER_PAYMENTS_ADDRESS@))
}

/// Decodes the address of the payment contract.
pub fn payment_contract_address() -> (contract: Option<Address>)
    ensures
        contract == payment_contract(),
{
    let parsed = parse_address(BATCHER_PAYMENTS_ADDRESS);
    proof {
        lemma_address_from_bytes(parsed);
    }
    parsed
}

} // verus!
