//! Slatepack addresses.

use vstd::prelude::*;
use crate::chain::ChainTypes;

verus! {

/// Whether `text` reads as a slatepack address of the main network
/// (`mainnet`) or of a test network: what
/// `grin_wallet_libwallet::SlatepackAddress::try_from` decides.
pub uninterp spec fn slatepack_address_parses(mainnet: bool, text: Seq<char>) -> bool;

/// `text` is a well-formed slatepack address of `chain_type`.
pub open spec fn is_slatepack_address(chain_type: ChainTypes, text: Seq<char>) -> bool {
    slatepack_address_parses(chain_type is Mainnet, text)
}

/// `SlatepackAddress::try_from(&str)` of grin_wallet_libwallet, reduced to
/// whether it succeeds. The parser compares the address prefix with the one
/// of the calling thread's chain, so the wrapper first makes `chain_type`
/// that chain (`grin_core::global::set_local_chain_type`); the prefix is
/// `grin` on the main network and `tgrin` on every other. The answer then
/// depends on the two arguments alone.
#[verifier::external_body]
fn parse_slatepack_address(chain_type: ChainTypes, text: &str) -> (ok: bool)
    ensures
        ok == slatepack_address_parses(chain_type is Mainnet, text@),
{
    grin_core::global::set_local_chain_type(match chain_type {
        ChainTypes::AutomatedTesting => grin_core::global::ChainTypes::AutomatedTesting,
        ChainTypes::UserTesting => grin_core::global::ChainTypes::UserTesting,
        ChainTypes::Testnet => grin_core::global::ChainTypes::Testnet,
        ChainTypes::Mainnet => grin_core::global::ChainTypes::Mainnet,
    });
    grin_wallet_libwallet::SlatepackAddress::try_from(text).is_ok()
}

/// Tells whether `text` is a well-formed slatepack address of `chain_type`.
/// The chain becomes the one that the calling thread works on.
pub fn is_valid_slatepack_address(chain_type: ChainTypes, text: &str) -> (ok: bool)
    ensures
        ok == is_slatepack_address(chain_type, text@),
{
    parse_slatepack_address(chain_type, text)
}

} // verus!
