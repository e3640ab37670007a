//! The wallet session and the operations that negotiate a transaction.

pub mod engine;
pub mod laws;
pub mod operations;
pub mod resume;
pub mod runs;
pub mod session;
pub mod types;

pub use crate::chain::ChainTypes;
pub use crate::error::GrinWalletInterfaceError;
pub use crate::slate::{Slate, SlateState, Slatepack};
pub use engine::{EngineRequest, EngineResponse};
pub use session::{
    num_participants, Continuation, Output, Pending, Step, WalletInterface,
    UPDATER_FREQUENCY_SECS, WALLET_CONFIG_FILE_NAME,
};
pub use types::{
    ContractNewArgsAPI, ContractSetupArgsAPI, Facet, InitResult, InitTxArgs, NodeClient,
    RetrieveTxQueryArgs, RetrieveTxQuerySortOrder, StatusMessage, TxLogEntry, TxLogEntryType,
    WalletConfig, WalletInfo,
};

use vstd::prelude::*;
use vstd::string::*;

verus! {

/// Directory under the home directory that holds everything of Grin.
pub const GRIN_HOME: &'static str = ".grin";

/// Wallet data directory.
pub const GRIN_WALLET_DIR: &'static str = "wallet_data";

/// Directory that holds the wallets of one chain.
pub const GRIN_WALLET_TOP_LEVEL_DIR: &'static str = "grin_wallet";

/// Directory of the default wallet.
pub const GRIN_WALLET_DEFAULT_DIR: &'static str = "default";

/// Node API secret.
pub const API_SECRET_FILE_NAME: &'static str = ".foreign_api_secret";

/// Owner API secret.
pub const OWNER_API_SECRET_FILE_NAME: &'static str = ".owner_api_secret";

/// The path of a wallet directory below the home directory, component by
/// component: the Grin directory, the chain's short name, the wallets'
/// directory, then `sub_dir`.
pub open spec fn spec_wallet_path(chain_type: ChainTypes, sub_dir: Seq<char>) -> Seq<Seq<char>> {
    seq![GRIN_HOME@, chain_type.spec_shortname(), GRIN_WALLET_TOP_LEVEL_DIR@, sub_dir]
}

/// The components that lead from the home directory to the wallet
/// directory `sub_dir` of the chain, in the order they are to be appended.
pub fn create_grin_wallet_path(chain_type: &ChainTypes, sub_dir: &str) -> (path: Vec<String>)
    ensures
        path@.len() == 4,
        forall|i: int| 0 <= i < 4 ==> (#[trigger] path@[i])@ == spec_wallet_path(
            *chain_type,
            sub_dir@,
        )[i],
{
    let mut path: Vec<String> = Vec::new();
    path.push(String::from_str(GRIN_HOME));
    path.push(chain_type.shortname());
    path.push(String::from_str(GRIN_WALLET_TOP_LEVEL_DIR));
    path.push(String::from_str(sub_dir));
    path
}

/// The components that lead from the home directory to the default wallet
/// directory of the chain.
pub fn get_grin_wallet_default_path(chain_type: &ChainTypes) -> (path: Vec<String>)
    ensures
        path@.len() == 4,
        forall|i: int| 0 <= i < 4 ==> (#[trigger] path@[i])@ == spec_wallet_path(
            *chain_type,
            GRIN_WALLET_DEFAULT_DIR@,
        )[i],
{
    create_grin_wallet_path(chain_type, GRIN_WALLET_DEFAULT_DIR)
}

impl WalletInterface {
    /// The components of the path at which the default configuration of the
    /// last opened wallet's chain is looked for, or `None` where no wallet
    /// has been opened: there is no default configuration then.
    pub fn default_config_path(&self) -> (path: Option<Vec<String>>)
        ensures
            path is Some <==> self.chain_type is Some,
            path matches Some(p) ==> p@.len() == 4 && forall|i: int|
                0 <= i < 4 ==> (#[trigger] p@[i])@ == spec_wallet_path(
                    self.chain_type->0,
                    GRIN_WALLET_DEFAULT_DIR@,
                )[i],
    {
        match self.chain_type {
            Some(chain_type) => Some(get_grin_wallet_default_path(&chain_type)),
            None => None,
        }
    }
}

} // verus!
