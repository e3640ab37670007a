//! The calls that the coordinator asks of the ledger engine, and the
//! answers it takes back.

use vstd::prelude::*;
use crate::chain::ChainTypes;
use crate::slate::{Slate, Slatepack};
use crate::wallet::types::{
    ContractNewArgsAPI, ContractSetupArgsAPI, InitTxArgs, NodeClient, RetrieveTxQueryArgs,
    StatusMessage, TxLogEntry, WalletConfig, WalletInfo,
};

verus! {

/// One call into the ledger engine. The caller carries it out and hands the
/// answer to [`crate::wallet::WalletInterface::resume`].
#[derive(Clone, Debug, PartialEq, Eq)]
pub enum EngineRequest {
    /// Create the wallet configuration for the chain in the directory, or
    /// load the one that is there, and set logging up as it says.
    LoadConfig { chain_type: ChainTypes, top_level_directory: String },
    /// Read the first line of the node's API secret file.
    ReadNodeSecret { path: String },
    /// Construct the wallet over the configuration and the node client,
    /// point it at the directory, and make its two facets.
    BuildWallet { config: WalletConfig, node_client: NodeClient, top_level_directory: String },
    /// Write the wallet's configuration file.
    CreateConfig { chain_type: ChainTypes, file_name: &'static str, config: WalletConfig },
    /// Create the wallet's seed and data.
    CreateWallet {
        recovery_phrase: Option<String>,
        list_length: usize,
        password: String,
        test_mode: bool,
    },
    /// Report the directory the wallet lives in.
    GetTopLevelDirectory,
    /// Report the recovery phrase.
    GetMnemonic { password: String },
    /// Unlock the wallet's keys.
    OpenWallet { password: String },
    /// Start the background balance refresh.
    StartUpdater { frequency_secs: u64 },
    /// Lock the wallet's keys.
    CloseWallet,
    /// Stop the background balance refresh.
    StopUpdater,
    /// Report the updater's latest messages.
    GetUpdaterMessages { count: usize },
    /// Wrap the slate into an envelope for one recipient.
    CreateSlatepackMessage { slate: Slate, sender_index: u32, recipient: String },
    /// Read the header of an envelope.
    DecodeSlatepackMessage { slatepack: String, secret_index: u32 },
    /// Recover the slate that an envelope holds.
    SlateFromSlatepackMessage { slatepack: String, secret_index: u32 },
    /// Report the wallet's balances.
    RetrieveSummaryInfo { refresh_from_node: bool, minimum_confirmations: u64 },
    /// List the transaction log.
    RetrieveTxs { refresh_from_node: bool, query_args: Option<RetrieveTxQueryArgs> },
    /// Report the wallet's own slatepack address.
    GetSlatepackAddress { derivation_index: u32 },
    /// Open a new contract.
    ContractNew { init_args: ContractNewArgsAPI },
    /// Sign a contract.
    ContractSign { slate: Slate, setup_args: ContractSetupArgsAPI },
    /// Submit a finalized transaction to the ledger.
    PostTx { slate: Slate, fluff: bool },
    /// Start a plain send.
    InitSendTx { tx_args: InitTxArgs },
    /// Lock the outputs that a send spends.
    TxLockOutputs { slate: Slate },
    /// Receive a send, through the foreign facet.
    ReceiveTx { slate: Slate },
    /// Finalize a send.
    FinalizeTx { slate: Slate },
    /// Mark a transaction as cancelled.
    CancelTx { tx_id: u32 },
}

impl EngineRequest {
    /// The request changes what the wallet holds or what the ledger sees.
    pub open spec fn spec_is_mutation(self) -> bool {
        match self {
            EngineRequest::ReadNodeSecret { .. } => false,
            EngineRequest::GetTopLevelDirectory => false,
            EngineRequest::GetMnemonic { .. } => false,
            EngineRequest::GetUpdaterMessages { .. } => false,
            EngineRequest::CreateSlatepackMessage { .. } => false,
            EngineRequest::DecodeSlatepackMessage { .. } => false,
            EngineRequest::SlateFromSlatepackMessage { .. } => false,
            EngineRequest::RetrieveSummaryInfo { .. } => false,
            EngineRequest::RetrieveTxs { .. } => false,
            EngineRequest::GetSlatepackAddress { .. } => false,
            _ => true,
        }
    }

    /// Tells whether the request changes what the wallet holds or what the
    /// ledger sees.
    pub fn is_mutation(&self) -> (b: bool)
        ensures
            b == self.spec_is_mutation(),
    {
        match self {
            EngineRequest::ReadNodeSecret { .. } => false,
            EngineRequest::GetTopLevelDirectory => false,
            EngineRequest::GetMnemonic { .. } => false,
            EngineRequest::GetUpdaterMessages { .. } => false,
            EngineRequest::CreateSlatepackMessage { .. } => false,
            EngineRequest::DecodeSlatepackMessage { .. } => false,
            EngineRequest::SlateFromSlatepackMessage { .. } => false,
            EngineRequest::RetrieveSummaryInfo { .. } => false,
            EngineRequest::RetrieveTxs { .. } => false,
            EngineRequest::GetSlatepackAddress { .. } => false,
            _ => true,
        }
    }

    /// Tells whether the request submits a transaction to the ledger.
    pub fn is_submission(&self) -> (b: bool)
        ensures
            b == (self is PostTx),
    {
        match self {
            EngineRequest::PostTx { .. } => true,
            _ => false,
        }
    }
}

/// The engine's answer to one request.
#[derive(Clone, Debug, PartialEq, Eq)]
pub enum EngineResponse {
    /// The call failed; the text is the engine's description.
    Failed(String),
    /// The call succeeded and returns nothing.
    Unit,
    /// The loaded configuration.
    Config(WalletConfig),
    /// The first line of the secret file, or `None` where it cannot be read.
    Secret(Option<String>),
    /// A directory, a recovery phrase, an address or an envelope.
    Text(String),
    /// A slate that the engine made or moved on.
    SlateReady(Slate),
    /// The slate after signing, and whether every participant has signed.
    Signed { slate: Slate, can_finalize: bool },
    /// The header of a decoded envelope.
    Header(Slatepack),
    /// Balances, and whether they were refreshed from the node.
    Summary(bool, WalletInfo),
    /// Log entries, and whether they were refreshed from the node.
    Transactions(bool, Vec<TxLogEntry>),
    /// Updater messages.
    Status(Vec<StatusMessage>),
}

} // verus!
