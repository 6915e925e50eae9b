//! Chain selection: which network a run targets, and the identifier its
//! signer is bound to.

use vstd::prelude::*;

verus! {

/// Identifier of the public testnet.
pub const HOLESKY_CHAIN_ID: u64 = 17000;

/// Identifier of the local development network.
pub const DEVNET_CHAIN_ID: u64 = 31337;

/// The networks a proof can be submitted to.
#[derive(Clone, Copy, Debug, PartialEq, Eq, Structural)]
pub enum Chain {
    Holesky,
    Devnet,
}

/// The chain used whenever a chain identifier is not recognised.
pub open spec fn default_chain() -> Chain {
    Chain::Holesky
}

/// The chain that an identifier selects: the testnet and the development
/// network by their own identifiers, the default chain for anything else.
pub open spec fn resolved_chain(chain_id: u64) -> Chain {
    if chain_id == HOLESKY_CHAIN_ID {
        Chain::Holesky
    } else if chain_id == DEVNET_CHAIN_ID {
        Chain::Devnet
    } else {
        default_chain()
    }
}

impl Chain {
    /// The identifier that transactions on this chain are signed for.
    pub open spec fn spec_id(self) -> u64 {
        match self {
            Chain::Holesky => HOLESKY_CHAIN_ID,
            Chain::Devnet => DEVNET_CHAIN_ID,
        }
    }

    /// The identifier that transactions on this chain are signed for.
    #[verifier::when_used_as_spec(spec_id)]
    pub fn id(self) -> (id: u64)
        ensures
            id == self.spec_id(),
    {
        match self {
            Chain::Holesky => HOLESKY_CHAIN_ID,
            Chain::Devnet => DEVNET_CHAIN_ID,
        }
    }
}

/// Selects the chain for a caller-supplied identifier. Unrecognised
/// identifiers fall back to the default chain rather than failing.
pub fn resolve_chain(chain_id: u64) -> (chain: Chain)
    ensures
        chain == resolved_chain(chain_id),
{
    if chain_id == DEVNET_CHAIN_ID {
        Chain::Devnet
    } else {
        Chain::Holesky
    }
}

/// The identifier a signer is bound to for a run that was started with
/// `chain_id`: that of the chain the run resolves to, so that signatures and
/// requests always name the same network.
pub fn signer_chain_id(chain_id: u64) -> (id: u64)
    ensures
        id == resolved_chain(chain_id).spec_id(),
{
    resolve_chain(chain_id).id()
}

/// Every identifier other than the development network's resolves to the
/// testnet, and the testnet's own identifier does too.
pub proof fn lemma_resolution_defaults_to_testnet(chain_id: u64)
    ensures
        chain_id != DEVNET_CHAIN_ID ==> resolved_chain(chain_id) == Chain::Holesky,
        resolved_chain(HOLESKY_CHAIN_ID) == Chain::Holesky,
        resolved_chain(DEVNET_CHAIN_ID) == Chain::Devnet,
{
}

/// A signer bound through `signer_chain_id` signs for the chain that the run
/// resolves to, and resolving that identifier again changes nothing.
pub proof fn lemma_signer_matches_resolved_chain(chain_id: u64)
    ensures
        resolved_chain(resolved_chain(chain_id).spec_id()) == resolved_chain(chain_id),
{
}

} // verus!
