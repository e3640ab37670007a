//! The wallet session: which facets exist, whether the wallet is open, and
//! the step function that drives every operation through the engine.

use vstd::prelude::*;
use vstd::string::*;
use crate::address::{is_slatepack_address, is_valid_slatepack_address};
use crate::chain::ChainTypes;
use crate::error::GrinWalletInterfaceError;
use crate::slate::{Slate, SlateState, Slatepack};
use crate::wallet::engine::{EngineRequest, EngineResponse};
use crate::wallet::types::{
    ContractNewArgsAPI, ContractSetupArgsAPI, Facet, InitResult, NodeClient, StatusMessage,
    TxLogEntry, WalletConfig, WalletInfo,
};

verus! {

/// Wallet configuration file name.
pub const WALLET_CONFIG_FILE_NAME: &'static str = "grin-wallet.toml";

/// Seconds between two runs of the background updater.
pub const UPDATER_FREQUENCY_SECS: u64 = 60;

/// Confirmations that the balance summary asks for.
pub const SUMMARY_MINIMUM_CONFIRMATIONS: u64 = 2;

/// Length of the seed's word list where no recovery phrase is given.
pub const DEFAULT_LIST_LENGTH: usize = 32;

/// The single shared handle to a wallet.
///
/// `owner_api` and `foreign_api` are set together when a top-level
/// directory has been instantiated, and cleared together when the choice of
/// node changes. Every field can be read, so that the contracts of the
/// operations can speak of it; what is stated of a session holds of one
/// that is changed through the operations only.
#[derive(Clone, Debug, PartialEq, Eq)]
pub struct WalletInterface {
    /// Chain of the wallet that was opened last.
    pub chain_type: Option<ChainTypes>,
    /// The loaded configuration.
    pub config: Option<WalletConfig>,
    /// The owner facet: signs, spends and queries.
    pub owner_api: Option<Facet>,
    /// The foreign facet: receives.
    pub foreign_api: Option<Facet>,
    /// Whether the wallet has been unlocked with its password.
    pub wallet_is_open: bool,
    /// Path of the node's API secret file.
    pub check_node_foreign_api_secret_path: Option<String>,
    /// Whether the wallet talks to the embedded node.
    pub use_embedded_node: bool,
    /// Where the engine's node client connects.
    pub node_client: NodeClient,
}

/// What follows once a wallet has been instantiated.
#[derive(Clone, Debug, PartialEq, Eq)]
pub enum Continuation {
    /// Nothing: instantiating was all that was asked.
    Finish,
    /// Unlock the wallet.
    Open { password: String },
    /// Create the wallet's files and seed.
    Init { password: String, display_name: String, recovery_phrase: Option<String> },
}

/// An operation that waits for the engine's answer.
#[derive(Clone, Debug, PartialEq, Eq)]
pub enum Pending {
    /// Instantiating: the configuration is being loaded.
    LoadConfig { chain_type: ChainTypes, top_level_directory: String, next: Continuation },
    /// Instantiating: the node's secret is being read.
    ReadNodeSecret {
        chain_type: ChainTypes,
        top_level_directory: String,
        config: WalletConfig,
        next: Continuation,
    },
    /// Instantiating: the wallet is being constructed.
    BuildWallet {
        chain_type: ChainTypes,
        top_level_directory: String,
        config: WalletConfig,
        next: Continuation,
    },
    /// Creating a wallet: its configuration file is being written.
    CreateConfig {
        chain_type: ChainTypes,
        password: String,
        display_name: String,
        recovery_phrase: Option<String>,
    },
    /// Creating a wallet: its seed is being made.
    CreateWallet { chain_type: ChainTypes, password: String, display_name: String },
    /// Creating a wallet: its directory is being asked for.
    GetTopLevelDirectory { chain_type: ChainTypes, password: String, display_name: String },
    /// Creating a wallet: its recovery phrase is being asked for.
    GetMnemonic { chain_type: ChainTypes, top_level_directory: String, display_name: String },
    /// Opening: the keys are being unlocked. `opened_chain` is the chain
    /// to record once the wallet is open, if any.
    OpenWallet { opened_chain: Option<ChainTypes> },
    /// Opening: the updater is being started.
    StartUpdater { opened_chain: Option<ChainTypes> },
    /// Closing: the keys are being locked.
    CloseWallet,
    /// Closing: the updater is being stopped.
    StopUpdater,
    /// The updater's messages are being fetched.
    UpdaterMessages,
    /// The balances are being fetched.
    SummaryInfo,
    /// The transaction log is being fetched.
    Txs,
    /// The wallet's own address is being fetched.
    OwnAddress,
    /// Decoding: the header of the envelope is being read.
    DecodeSlatepack { slatepack: String },
    /// Decoding: the slate is being recovered.
    SlateFromSlatepack { header: Slatepack },
    /// A contract is about to be opened: the wallet's own address is being
    /// fetched, to tell whether `dest` is the wallet itself.
    ResolveParticipants { chain_type: ChainTypes, dest: String, init_args: ContractNewArgsAPI },
    /// A contract is being opened; its slate will go to `dest`.
    ContractNew { chain_type: ChainTypes, dest: String },
    /// A contract is being signed. `signed_id` and `signed_from` are the
    /// identifier and the state of the slate that was handed in.
    ContractSign { chain_type: ChainTypes, dest: String, signed_id: u128, signed_from: SlateState },
    /// A send is being started.
    InitSendTx { chain_type: ChainTypes, dest: String },
    /// The outputs of a send are being locked.
    LockOutputs { chain_type: ChainTypes, dest: String, slate: Slate },
    /// A send is being received.
    ReceiveTx { chain_type: ChainTypes, dest: String },
    /// A send is being finalized.
    FinalizeTx,
    /// A transaction is being submitted to the ledger.
    PostTx,
    /// A transaction is being cancelled.
    CancelTx { id: u32 },
    /// Waits for an envelope. `optional` tells how the caller wants it
    /// wrapped: as one of maybe none, or as the envelope itself.
    Encrypt { optional: bool },
}

/// What an operation returns when it succeeds.
#[derive(Clone, Debug, PartialEq, Eq)]
pub enum Output {
    /// Nothing to report: instantiating, opening, closing.
    Unit,
    /// The wallet that was created.
    Initialized(InitResult),
    /// The updater's messages.
    Status(Vec<StatusMessage>),
    /// The envelope to hand over.
    Envelope(String),
    /// The envelope to hand over, or `None` where the transaction went to
    /// the ledger and nothing is left to exchange.
    MaybeEnvelope(Option<String>),
    /// The header and the slate of a decoded envelope.
    Decoded(Slatepack, Slate),
    /// The balances, and whether they were refreshed from the node.
    Info(bool, WalletInfo),
    /// The transaction log, and whether it was refreshed from the node.
    Txs(bool, Vec<TxLogEntry>),
    /// The wallet's own address.
    Address(String),
    /// The identifier of the cancelled transaction.
    Cancelled(u32),
}

/// Where an operation stands: it either needs one more call into the
/// engine, or it is over.
#[derive(Debug, PartialEq, Eq)]
pub enum Step {
    /// Carry out the request and hand its answer, with the pending
    /// operation, to [`WalletInterface::resume`].
    Call(Pending, EngineRequest),
    /// The operation is over.
    Done(Result<Output, GrinWalletInterfaceError>),
}

/// A step that ends the operation with `error`.
pub open spec fn fail(error: GrinWalletInterfaceError) -> Step {
    Step::Done(Err(error))
}

/// A step that ends the operation with `output`.
pub open spec fn succeed(output: Output) -> Step {
    Step::Done(Ok(output))
}

/// The step that asks for an envelope of `slate` for `dest`: the address is
/// checked first, and the envelope goes to that one recipient, from the
/// sender's key of index 0.
pub open spec fn spec_encrypt(chain_type: ChainTypes, dest: String, slate: Slate, optional: bool)
    -> Step {
    if !is_slatepack_address(chain_type, dest@) {
        fail(GrinWalletInterfaceError::InvalidSlatepackAddress)
    } else {
        Step::Call(
            Pending::Encrypt { optional },
            EngineRequest::CreateSlatepackMessage { slate, sender_index: 0, recipient: dest },
        )
    }
}

/// The number of parties that have to sign a contract with `dest`: 1 where
/// `dest` is the wallet's own address, else what was asked for, and at
/// least 2.
pub open spec fn spec_num_participants(own: Seq<char>, dest: Seq<char>, asked: u8) -> u8 {
    if own == dest {
        1
    } else if asked >= 2 {
        asked
    } else {
        2
    }
}

/// The arguments of a new contract with `dest`, once the wallet's own
/// address is known: as given, but for the number of participants.
pub open spec fn spec_resolved_args(init_args: ContractNewArgsAPI, own: Seq<char>, dest: Seq<char>)
    -> ContractNewArgsAPI {
    ContractNewArgsAPI {
        setup_args: ContractSetupArgsAPI {
            num_participants: spec_num_participants(
                own,
                dest,
                init_args.setup_args.num_participants,
            ),
            ..init_args.setup_args
        },
    }
}

/// The arguments for signing `slate`: as given, but for the balance change,
/// which is the signer's by the slate's state and amount.
pub open spec fn spec_signing_args(setup_args: ContractSetupArgsAPI, slate: Slate)
    -> ContractSetupArgsAPI {
    ContractSetupArgsAPI { net_change: Some(slate.spec_net_change() as i64), ..setup_args }
}

/// The number of words asked of a new seed: the byte length of the recovery
/// phrase where one is given, else 32.
pub open spec fn spec_list_length(recovery_phrase: Option<String>) -> usize {
    match recovery_phrase {
        Some(phrase) => vstd::utf8::encode_utf8(phrase@).len() as usize,
        None => DEFAULT_LIST_LENGTH,
    }
}

/// The first step of instantiating a wallet.
pub open spec fn spec_inst_wallet(
    chain_type: ChainTypes,
    top_level_directory: String,
    next: Continuation,
) -> Step {
    Step::Call(
        Pending::LoadConfig { chain_type, top_level_directory, next },
        EngineRequest::LoadConfig { chain_type, top_level_directory },
    )
}

/// The number of parties that have to sign a contract with `dest`: 1 where
/// `dest` is the wallet's own address, else what was asked for, and at
/// least 2.
pub fn num_participants(own: &String, dest: &String, asked: u8) -> (n: u8)
    ensures
        n == spec_num_participants(own@, dest@, asked),
        own@ == dest@ ==> n == 1,
        own@ != dest@ ==> n >= 2,
{
    if *own == *dest {
        1
    } else if asked >= 2 {
        asked
    } else {
        2
    }
}

/// The arguments of a new contract with `dest`, once the wallet's own
/// address is known.
pub(crate) fn resolved_args(init_args: ContractNewArgsAPI, own: &String, dest: &String) -> (args:
    ContractNewArgsAPI)
    ensures
        args == spec_resolved_args(init_args, own@, dest@),
{
    ContractNewArgsAPI {
        setup_args: ContractSetupArgsAPI {
            net_change: init_args.setup_args.net_change,
            num_participants: num_participants(own, dest, init_args.setup_args.num_participants),
            add_outputs: init_args.setup_args.add_outputs,
        },
    }
}

pub(crate) fn encrypt(chain_type: ChainTypes, dest: String, slate: Slate, optional: bool) -> (step: Step)
    ensures
        step == spec_encrypt(chain_type, dest, slate, optional),
{
    if !is_valid_slatepack_address(chain_type, dest.as_str()) {
        Step::Done(Err(GrinWalletInterfaceError::InvalidSlatepackAddress))
    } else {
        Step::Call(
            Pending::Encrypt { optional },
            EngineRequest::CreateSlatepackMessage { slate, sender_index: 0, recipient: dest },
        )
    }
}

pub(crate) fn list_length(recovery_phrase: &Option<String>) -> (n: usize)
    ensures
        n == spec_list_length(*recovery_phrase),
{
    match recovery_phrase {
        Some(phrase) => phrase.as_str().len(),
        None => DEFAULT_LIST_LENGTH,
    }
}

/// Sets the top level directory of the wallet and creates the default
/// configuration if none is there yet: the first step.
pub(crate) fn inst_wallet(chain_type: ChainTypes, top_level_directory: String, next: Continuation) -> (step:
    Step)
    ensures
        step == spec_inst_wallet(chain_type, top_level_directory, next),
{
    let directory = top_level_directory.clone();
    Step::Call(
        Pending::LoadConfig { chain_type, top_level_directory, next },
        EngineRequest::LoadConfig { chain_type, top_level_directory: directory },
    )
}

impl WalletInterface {
    /// Both facets exist or neither does, and facets come with a
    /// configuration.
    pub open spec fn well_formed(self) -> bool {
        &&& self.owner_api is Some <==> self.foreign_api is Some
        &&& self.owner_api is Some ==> self.config is Some
    }

    /// A top-level directory has been instantiated.
    pub open spec fn is_instantiated(self) -> bool {
        self.owner_api is Some && self.foreign_api is Some
    }

    /// The session with `node_client` in place of its own.
    pub open spec fn with_node_client(self, node_client: NodeClient) -> WalletInterface {
        WalletInterface { node_client, ..self }
    }

    /// The session once `top_level_directory` has been instantiated with
    /// `config`.
    pub open spec fn instantiated(self, top_level_directory: String, config: WalletConfig)
        -> WalletInterface {
        WalletInterface {
            config: Some(config),
            owner_api: Some(Facet { top_level_directory }),
            foreign_api: Some(Facet { top_level_directory }),
            ..self
        }
    }

    /// The session once the wallet has been unlocked.
    pub open spec fn opened(self, opened_chain: Option<ChainTypes>) -> WalletInterface {
        WalletInterface {
            wallet_is_open: true,
            chain_type: if opened_chain is Some {
                opened_chain
            } else {
                self.chain_type
            },
            ..self
        }
    }

    /// The session once the wallet has been locked.
    pub open spec fn closed(self) -> WalletInterface {
        WalletInterface { wallet_is_open: false, ..self }
    }

    /// The session after `set_use_embedded_node(value)`.
    pub open spec fn with_embedded_node(self, value: bool) -> WalletInterface {
        if self.use_embedded_node != value {
            WalletInterface {
                owner_api: None,
                foreign_api: None,
                use_embedded_node: value,
                ..self
            }
        } else {
            self
        }
    }

    /// The node client that the embedded node asks for.
    pub open spec fn embedded_node_client(config: WalletConfig, secret: Option<String>)
        -> NodeClient {
        NodeClient { node_url: config.check_node_api_http_addr, node_api_secret: secret }
    }

    /// The step that constructs the wallet.
    pub open spec fn spec_build(
        self,
        chain_type: ChainTypes,
        top_level_directory: String,
        config: WalletConfig,
        next: Continuation,
    ) -> Step {
        Step::Call(
            Pending::BuildWallet { chain_type, top_level_directory, config, next },
            EngineRequest::BuildWallet {
                config,
                node_client: self.node_client,
                top_level_directory,
            },
        )
    }

    /// The step that follows a constructed wallet.
    pub open spec fn spec_continue(
        chain_type: ChainTypes,
        config: WalletConfig,
        next: Continuation,
    ) -> Step {
        match next {
            Continuation::Finish => succeed(Output::Unit),
            Continuation::Open { password } => Step::Call(
                Pending::OpenWallet { opened_chain: Some(chain_type) },
                EngineRequest::OpenWallet { password },
            ),
            Continuation::Init { password, display_name, recovery_phrase } => Step::Call(
                Pending::CreateConfig { chain_type, password, display_name, recovery_phrase },
                EngineRequest::CreateConfig {
                    chain_type,
                    file_name: WALLET_CONFIG_FILE_NAME,
                    config,
                },
            ),
        }
    }

    /// The session after the engine has answered `response` to the request
    /// of `pending`.
    pub open spec fn spec_next_session(self, pending: Pending, response: EngineResponse)
        -> WalletInterface {
        match (pending, response) {
            (
                Pending::LoadConfig { chain_type, top_level_directory, next },
                EngineResponse::Config(config),
            ) => if self.use_embedded_node && self.check_node_foreign_api_secret_path is None {
                self.with_node_client(Self::embedded_node_client(config, None))
            } else {
                self
            },
            (
                Pending::ReadNodeSecret { chain_type, top_level_directory, config, next },
                EngineResponse::Secret(secret),
            ) => self.with_node_client(Self::embedded_node_client(config, secret)),
            (
                Pending::BuildWallet { chain_type, top_level_directory, config, next },
                EngineResponse::Unit,
            ) => self.instantiated(top_level_directory, config),
            (Pending::StartUpdater { opened_chain }, EngineResponse::Unit) => self.opened(
                opened_chain,
            ),
            (Pending::StopUpdater, EngineResponse::Unit) => self.closed(),
            _ => self,
        }
    }

    /// The step after the engine has answered `response` to the request of
    /// `pending`.
    pub open spec fn spec_next_step(self, pending: Pending, response: EngineResponse) -> Step {
        match pending {
            Pending::LoadConfig { chain_type, top_level_directory, next } => match response {
                EngineResponse::Failed(message) => fail(
                    GrinWalletInterfaceError::ConfigError(message),
                ),
                EngineResponse::Config(config) => if self.use_embedded_node {
                    match self.check_node_foreign_api_secret_path {
                        Some(path) => Step::Call(
                            Pending::ReadNodeSecret { chain_type, top_level_directory, config, next },
                            EngineRequest::ReadNodeSecret { path },
                        ),
                        None => self.with_node_client(
                            Self::embedded_node_client(config, None),
                        ).spec_build(chain_type, top_level_directory, config, next),
                    }
                } else {
                    self.spec_build(chain_type, top_level_directory, config, next)
                },
                _ => fail(GrinWalletInterfaceError::UnexpectedResponse),
            },
            Pending::ReadNodeSecret { chain_type, top_level_directory, config, next } => match response {
                EngineResponse::Secret(secret) => self.with_node_client(
                    Self::embedded_node_client(config, secret),
                ).spec_build(chain_type, top_level_directory, config, next),
                _ => fail(GrinWalletInterfaceError::UnexpectedResponse),
            },
            Pending::BuildWallet { chain_type, top_level_directory, config, next } => match response {
                EngineResponse::Failed(message) => fail(
                    GrinWalletInterfaceError::EngineInitError(message),
                ),
                EngineResponse::Unit => Self::spec_continue(chain_type, config, next),
                _ => fail(GrinWalletInterfaceError::UnexpectedResponse),
            },
            Pending::CreateConfig { chain_type, password, display_name, recovery_phrase } => match response {
                EngineResponse::Failed(message) => fail(
                    GrinWalletInterfaceError::EngineError(message),
                ),
                EngineResponse::Unit => Step::Call(
                    Pending::CreateWallet { chain_type, password, display_name },
                    EngineRequest::CreateWallet {
                        recovery_phrase,
                        list_length: spec_list_length(recovery_phrase),
                        password,
                        test_mode: chain_type is Testnet,
                    },
                ),
                _ => fail(GrinWalletInterfaceError::UnexpectedResponse),
            },
            Pending::CreateWallet { chain_type, password, display_name } => match response {
                EngineResponse::Failed(message) => fail(
                    GrinWalletInterfaceError::EngineError(message),
                ),
                EngineResponse::Unit => Step::Call(
                    Pending::GetTopLevelDirectory { chain_type, password, display_name },
                    EngineRequest::GetTopLevelDirectory,
                ),
                _ => fail(GrinWalletInterfaceError::UnexpectedResponse),
            },
            Pending::GetTopLevelDirectory { chain_type, password, display_name } => match response {
                EngineResponse::Failed(message) => fail(
                    GrinWalletInterfaceError::EngineError(message),
                ),
                EngineResponse::Text(top_level_directory) => Step::Call(
                    Pending::GetMnemonic { chain_type, top_level_directory, display_name },
                    EngineRequest::GetMnemonic { password },
                ),
                _ => fail(GrinWalletInterfaceError::UnexpectedResponse),
            },
            Pending::GetMnemonic { chain_type, top_level_directory, display_name } => match response {
                EngineResponse::Failed(message) => fail(
                    GrinWalletInterfaceError::EngineError(message),
                ),
                EngineResponse::Text(recovery_phrase) => succeed(
                    Output::Initialized(
                        InitResult { top_level_directory, recovery_phrase, display_name, chain_type },
                    ),
                ),
                _ => fail(GrinWalletInterfaceError::UnexpectedResponse),
            },
            Pending::OpenWallet { opened_chain } => match response {
                EngineResponse::Failed(message) => fail(
                    GrinWalletInterfaceError::EngineError(message),
                ),
                EngineResponse::Unit => Step::Call(
                    Pending::StartUpdater { opened_chain },
                    EngineRequest::StartUpdater { frequency_secs: UPDATER_FREQUENCY_SECS },
                ),
                _ => fail(GrinWalletInterfaceError::UnexpectedResponse),
            },
            Pending::StartUpdater { opened_chain } => match response {
                EngineResponse::Failed(message) => fail(
                    GrinWalletInterfaceError::EngineError(message),
                ),
                EngineResponse::Unit => succeed(Output::Unit),
                _ => fail(GrinWalletInterfaceError::UnexpectedResponse),
            },
            Pending::CloseWallet => match response {
                EngineResponse::Failed(message) => fail(
                    GrinWalletInterfaceError::EngineError(message),
                ),
                EngineResponse::Unit => Step::Call(
                    Pending::StopUpdater,
                    EngineRequest::StopUpdater,
                ),
                _ => fail(GrinWalletInterfaceError::UnexpectedResponse),
            },
            Pending::StopUpdater => match response {
                EngineResponse::Failed(message) => fail(
                    GrinWalletInterfaceError::EngineError(message),
                ),
                EngineResponse::Unit => succeed(Output::Unit),
                _ => fail(GrinWalletInterfaceError::UnexpectedResponse),
            },
            Pending::UpdaterMessages => match response {
                EngineResponse::Failed(message) => fail(
                    GrinWalletInterfaceError::EngineError(message),
                ),
                EngineResponse::Status(messages) => succeed(Output::Status(messages)),
                _ => fail(GrinWalletInterfaceError::UnexpectedResponse),
            },
            Pending::SummaryInfo => match response {
                EngineResponse::Failed(message) => fail(
                    GrinWalletInterfaceError::EngineError(message),
                ),
                EngineResponse::Summary(refreshed, info) => succeed(Output::Info(refreshed, info)),
                _ => fail(GrinWalletInterfaceError::UnexpectedResponse),
            },
            Pending::Txs => match response {
                EngineResponse::Failed(message) => fail(
                    GrinWalletInterfaceError::EngineError(message),
                ),
                EngineResponse::Transactions(refreshed, entries) => succeed(
                    Output::Txs(refreshed, entries),
                ),
                _ => fail(GrinWalletInterfaceError::UnexpectedResponse),
            },
            Pending::OwnAddress => match response {
                EngineResponse::Failed(message) => fail(
                    GrinWalletInterfaceError::EngineError(message),
                ),
                EngineResponse::Text(address) => succeed(Output::Address(address)),
                _ => fail(GrinWalletInterfaceError::UnexpectedResponse),
            },
            Pending::DecodeSlatepack { slatepack } => match response {
                EngineResponse::Failed(message) => fail(
                    GrinWalletInterfaceError::EngineError(message),
                ),
                EngineResponse::Header(header) => Step::Call(
                    Pending::SlateFromSlatepack { header },
                    EngineRequest::SlateFromSlatepackMessage { slatepack, secret_index: 0 },
                ),
                _ => fail(GrinWalletInterfaceError::UnexpectedResponse),
            },
            Pending::SlateFromSlatepack { header } => match response {
                EngineResponse::Failed(message) => fail(
                    GrinWalletInterfaceError::EngineError(message),
                ),
                EngineResponse::SlateReady(slate) => succeed(Output::Decoded(header, slate)),
                _ => fail(GrinWalletInterfaceError::UnexpectedResponse),
            },
            Pending::ResolveParticipants { chain_type, dest, init_args } => match response {
                EngineResponse::Failed(message) => fail(
                    GrinWalletInterfaceError::EngineError(message),
                ),
                EngineResponse::Text(own) => Step::Call(
                    Pending::ContractNew { chain_type, dest },
                    EngineRequest::ContractNew {
                        init_args: spec_resolved_args(init_args, own@, dest@),
                    },
                ),
                _ => fail(GrinWalletInterfaceError::UnexpectedResponse),
            },
            Pending::ContractNew { chain_type, dest } => match response {
                EngineResponse::Failed(message) => fail(
                    GrinWalletInterfaceError::EngineError(message),
                ),
                EngineResponse::SlateReady(slate) => spec_encrypt(chain_type, dest, slate, false),
                _ => fail(GrinWalletInterfaceError::UnexpectedResponse),
            },
            Pending::ContractSign { chain_type, dest, signed_id, signed_from } => match response {
                EngineResponse::Failed(message) => fail(
                    GrinWalletInterfaceError::EngineError(message),
                ),
                EngineResponse::Signed { slate, can_finalize } => if can_finalize {
                    Step::Call(Pending::PostTx, EngineRequest::PostTx { slate, fluff: true })
                } else if slate.id != signed_id || !slate.state.spec_follows(signed_from) {
                    fail(GrinWalletInterfaceError::InvalidSlateState)
                } else {
                    spec_encrypt(chain_type, dest, slate, true)
                },
                _ => fail(GrinWalletInterfaceError::UnexpectedResponse),
            },
            Pending::InitSendTx { chain_type, dest } => match response {
                EngineResponse::Failed(message) => fail(
                    GrinWalletInterfaceError::EngineError(message),
                ),
                EngineResponse::SlateReady(slate) => Step::Call(
                    Pending::LockOutputs { chain_type, dest, slate },
                    EngineRequest::TxLockOutputs { slate },
                ),
                _ => fail(GrinWalletInterfaceError::UnexpectedResponse),
            },
            Pending::LockOutputs { chain_type, dest, slate } => match response {
                EngineResponse::Failed(message) => fail(
                    GrinWalletInterfaceError::EngineError(message),
                ),
                EngineResponse::Unit => spec_encrypt(chain_type, dest, slate, false),
                _ => fail(GrinWalletInterfaceError::UnexpectedResponse),
            },
            Pending::ReceiveTx { chain_type, dest } => match response {
                EngineResponse::Failed(message) => fail(
                    GrinWalletInterfaceError::EngineError(message),
                ),
                EngineResponse::SlateReady(slate) => spec_encrypt(chain_type, dest, slate, true),
                _ => fail(GrinWalletInterfaceError::UnexpectedResponse),
            },
            Pending::FinalizeTx => match response {
                EngineResponse::Failed(message) => fail(
                    GrinWalletInterfaceError::EngineError(message),
                ),
                EngineResponse::SlateReady(slate) => Step::Call(
                    Pending::PostTx,
                    EngineRequest::PostTx { slate, fluff: true },
                ),
                _ => fail(GrinWalletInterfaceError::UnexpectedResponse),
            },
            Pending::PostTx => match response {
                EngineResponse::Failed(message) => fail(
                    GrinWalletInterfaceError::EngineError(message),
                ),
                EngineResponse::Unit => succeed(Output::MaybeEnvelope(None)),
                _ => fail(GrinWalletInterfaceError::UnexpectedResponse),
            },
            Pending::CancelTx { id } => match response {
                EngineResponse::Failed(message) => fail(
                    GrinWalletInterfaceError::EngineError(message),
                ),
                EngineResponse::Unit => succeed(Output::Cancelled(id)),
                _ => fail(GrinWalletInterfaceError::UnexpectedResponse),
            },
            Pending::Encrypt { optional } => match response {
                EngineResponse::Failed(message) => fail(
                    GrinWalletInterfaceError::EngineError(message),
                ),
                EngineResponse::Text(envelope) => if envelope@.len() == 0 {
                    fail(GrinWalletInterfaceError::UnexpectedResponse)
                } else if optional {
                    succeed(Output::MaybeEnvelope(Some(envelope)))
                } else {
                    succeed(Output::Envelope(envelope))
                },
                _ => fail(GrinWalletInterfaceError::UnexpectedResponse),
            },
        }
    }
}

} // verus!
