//! Plain values exchanged with the ledger engine.

use vstd::prelude::*;
use crate::chain::ChainTypes;

verus! {

/// What the coordinator reads of a loaded wallet configuration.
///
/// `data` is the configuration as the engine wrote it, kept so that it can
/// be handed back whole.
#[derive(Clone, Debug, PartialEq, Eq)]
pub struct WalletConfig {
    /// Address of the node's HTTP API.
    pub check_node_api_http_addr: String,
    /// The complete configuration, opaque here.
    pub data: String,
}

impl WalletConfig {
    /// A copy of the configuration.
    pub fn duplicate(&self) -> (copy: WalletConfig)
        ensures
            copy == *self,
    {
        WalletConfig {
            check_node_api_http_addr: self.check_node_api_http_addr.clone(),
            data: self.data.clone(),
        }
    }
}

/// Where the engine's node client connects, and with which secret.
#[derive(Clone, Debug, PartialEq, Eq)]
pub struct NodeClient {
    /// URL of the node.
    pub node_url: String,
    /// API secret of the node, where it asks for one.
    pub node_api_secret: Option<String>,
}

impl NodeClient {
    /// A copy of the settings.
    pub fn duplicate(&self) -> (copy: NodeClient)
        ensures
            copy == *self,
    {
        NodeClient {
            node_url: self.node_url.clone(),
            node_api_secret: match &self.node_api_secret {
                Some(s) => Some(s.clone()),
                None => None,
            },
        }
    }
}

/// One half of an instantiated wallet: the owner facet signs and spends,
/// the foreign facet receives. Both belong to one top-level directory.
#[derive(Clone, Debug, PartialEq, Eq)]
pub struct Facet {
    /// The wallet's top-level directory.
    pub top_level_directory: String,
}

/// Arguments that set a party up in a contract.
#[derive(Clone, Copy, Debug, PartialEq, Eq, Structural)]
pub struct ContractSetupArgsAPI {
    /// The party's balance change if the contract goes through: negative
    /// for the payer, positive for the payee.
    pub net_change: Option<i64>,
    /// How many parties have to sign: 1 for a transfer to oneself, else 2.
    pub num_participants: u8,
    /// Whether the engine adds the party's outputs at once.
    pub add_outputs: bool,
}

impl ContractSetupArgsAPI {
    /// The arguments of a party that says nothing: two participants, no
    /// balance change named, outputs added later.
    pub open spec fn spec_default() -> ContractSetupArgsAPI {
        ContractSetupArgsAPI { net_change: None, num_participants: 2, add_outputs: false }
    }
}

impl Default for ContractSetupArgsAPI {
    fn default() -> (args: ContractSetupArgsAPI)
        ensures
            args == ContractSetupArgsAPI::spec_default(),
    {
        ContractSetupArgsAPI { net_change: None, num_participants: 2, add_outputs: false }
    }
}

/// Arguments that open a new contract.
#[derive(Clone, Copy, Debug, PartialEq, Eq, Structural)]
pub struct ContractNewArgsAPI {
    /// The initiator's own setup.
    pub setup_args: ContractSetupArgsAPI,
}

impl Default for ContractNewArgsAPI {
    fn default() -> (args: ContractNewArgsAPI)
        ensures
            args.setup_args == ContractSetupArgsAPI::spec_default(),
    {
        ContractNewArgsAPI {
            setup_args: ContractSetupArgsAPI {
                net_change: None,
                num_participants: 2,
                add_outputs: false,
            },
        }
    }
}

/// Arguments that start a plain send.
#[derive(Clone, Debug, PartialEq, Eq)]
pub struct InitTxArgs {
    /// Account to draw outputs from; the default account where `None`.
    pub src_acct_name: Option<String>,
    /// Amount to send.
    pub amount: u64,
    /// Confirmations an output needs before it is spent.
    pub minimum_confirmations: u64,
    /// Largest number of outputs to spend.
    pub max_outputs: u32,
    /// Number of change outputs to make.
    pub num_change_outputs: u32,
    /// Spend all outputs rather than the fewest.
    pub selection_strategy_is_use_all: bool,
    /// Lock outputs only when the transaction is finalized.
    pub late_lock: Option<bool>,
}

/// Balances of a wallet.
#[derive(Clone, Copy, Debug, PartialEq, Eq, Structural)]
pub struct WalletInfo {
    pub last_confirmed_height: u64,
    pub minimum_confirmations: u64,
    pub total: u64,
    pub amount_awaiting_finalization: u64,
    pub amount_awaiting_confirmation: u64,
    pub amount_immature: u64,
    pub amount_currently_spendable: u64,
    pub amount_locked: u64,
    pub amount_reverted: u64,
}

/// Kinds of entries in the transaction log.
#[derive(Clone, Copy, Debug, PartialEq, Eq, Structural)]
pub enum TxLogEntryType {
    ConfirmedCoinbase,
    TxReceived,
    TxSent,
    TxReceivedCancelled,
    TxSentCancelled,
    TxReverted,
}

/// One entry of the transaction log.
#[derive(Clone, Copy, Debug, PartialEq, Eq, Structural)]
pub struct TxLogEntry {
    /// Local identifier of the entry.
    pub id: u32,
    /// Identifier of the slate that made it, if one did.
    pub tx_slate_id: Option<u128>,
    pub tx_type: TxLogEntryType,
    pub confirmed: bool,
    pub amount_credited: u64,
    pub amount_debited: u64,
}

/// Order in which log entries are listed.
#[derive(Clone, Copy, Debug, PartialEq, Eq, Structural)]
pub enum RetrieveTxQuerySortOrder {
    Asc,
    Desc,
}

/// A filter on the transaction log.
#[derive(Clone, Copy, Debug, PartialEq, Eq, Structural)]
pub struct RetrieveTxQueryArgs {
    pub min_id: Option<u32>,
    pub max_id: Option<u32>,
    pub limit: Option<u32>,
    pub exclude_cancelled: Option<bool>,
    pub include_outstanding_only: Option<bool>,
    pub include_confirmed_only: Option<bool>,
    pub min_amount: Option<u64>,
    pub max_amount: Option<u64>,
    pub sort_order: Option<RetrieveTxQuerySortOrder>,
}

/// Progress reports of the wallet's background updater.
#[derive(Clone, Debug, PartialEq, Eq)]
pub enum StatusMessage {
    UpdatingOutputs(String),
    UpdatingTransactions(String),
    FullScanWarn(String),
    Scanning(String, u8),
    ScanningComplete(String),
    UpdateWarning(String),
}

/// What a freshly created wallet reports.
#[derive(Clone, Debug, PartialEq, Eq)]
pub struct InitResult {
    /// The wallet's top-level directory.
    pub top_level_directory: String,
    /// The recovery phrase of the new seed.
    pub recovery_phrase: String,
    /// The name the wallet is shown under.
    pub display_name: String,
    pub chain_type: ChainTypes,
}

} // verus!
