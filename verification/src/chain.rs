//! The networks a wallet can belong to.

use vstd::prelude::*;

verus! {

/// The chain a wallet or a node works on.
#[derive(Clone, Copy, Debug, PartialEq, Eq, Structural)]
pub enum ChainTypes {
    /// For automated testing.
    AutomatedTesting,
    /// For user testing.
    UserTesting,
    /// The protocol testing network.
    Testnet,
    /// The main production network.
    Mainnet,
}

impl ChainTypes {
    /// The short name of the chain, as it appears in directory names.
    pub open spec fn spec_shortname(self) -> Seq<char> {
        match self {
            ChainTypes::AutomatedTesting => "auto"@,
            ChainTypes::UserTesting => "user"@,
            ChainTypes::Testnet => "test"@,
            ChainTypes::Mainnet => "main"@,
        }
    }

    /// The short name of the chain.
    pub fn shortname(self) -> (name: String)
        ensures
            name@ == self.spec_shortname(),
    {
        chain_shortname(self)
    }

    /// Tells whether this is the main production network.
    pub fn is_mainnet(self) -> (b: bool)
        ensures
            b == (self is Mainnet),
    {
        match self {
            ChainTypes::Mainnet => true,
            _ => false,
        }
    }

    /// Makes this chain the one that the calling thread works on.
    pub(crate) fn make_local(self) {
        set_local_chain_type(self)
    }
}

/// `grin_core::global::ChainTypes::shortname`: a fixed four-letter name for
/// each of the four chains.
#[verifier::external_body]
fn chain_shortname(chain_type: ChainTypes) -> (name: String)
    ensures
        name@ == chain_type.spec_shortname(),
{
    let outside = match chain_type {
        ChainTypes::AutomatedTesting => grin_core::global::ChainTypes::AutomatedTesting,
        ChainTypes::UserTesting => grin_core::global::ChainTypes::UserTesting,
        ChainTypes::Testnet => grin_core::global::ChainTypes::Testnet,
        ChainTypes::Mainnet => grin_core::global::ChainTypes::Mainnet,
    };
    outside.shortname()
}

/// `grin_core::global::set_local_chain_type`: records the chain for the
/// calling thread. Nothing is claimed of it.
#[verifier::external_body]
fn set_local_chain_type(chain_type: ChainTypes) {
    grin_core::global::set_local_chain_type(match chain_type {
        ChainTypes::AutomatedTesting => grin_core::global::ChainTypes::AutomatedTesting,
        ChainTypes::UserTesting => grin_core::global::ChainTypes::UserTesting,
        ChainTypes::Testnet => grin_core::global::ChainTypes::Testnet,
        ChainTypes::Mainnet => grin_core::global::ChainTypes::Mainnet,
    })
}

} // verus!
