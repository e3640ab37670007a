//! The continuation of every operation: what the coordinator does with the
//! engine's answer.

use vstd::prelude::*;
use vstd::string::*;
use crate::chain::ChainTypes;
use crate::error::GrinWalletInterfaceError;
use crate::wallet::engine::{EngineRequest, EngineResponse};
use crate::wallet::session::{
    encrypt, list_length, resolved_args, Continuation, Output, Pending, Step, WalletInterface,
    UPDATER_FREQUENCY_SECS, WALLET_CONFIG_FILE_NAME,
};
use crate::wallet::types::{Facet, InitResult, NodeClient, WalletConfig};

verus! {

/// The step for an answer that does not belong to the request.
fn unexpected() -> (step: Step)
    ensures
        step == Step::Done(Err(GrinWalletInterfaceError::UnexpectedResponse)),
{
    Step::Done(Err(GrinWalletInterfaceError::UnexpectedResponse))
}

/// The step for a call that the engine failed.
fn engine_error(message: String) -> (step: Step)
    ensures
        step == Step::Done(Err(GrinWalletInterfaceError::EngineError(message))),
{
    Step::Done(Err(GrinWalletInterfaceError::EngineError(message)))
}

impl WalletInterface {
    /// Points the node client at the embedded node and asks for the wallet
    /// to be constructed.
    fn use_embedded_node_client(
        &mut self,
        chain_type: ChainTypes,
        top_level_directory: String,
        config: WalletConfig,
        secret: Option<String>,
        next: Continuation,
    ) -> (step: Step)
        ensures
            *final(self) == old(self).with_node_client(
                Self::embedded_node_client(config, secret),
            ),
            step == final(self).spec_build(chain_type, top_level_directory, config, next),
    {
        self.node_client =
        NodeClient { node_url: config.check_node_api_http_addr.clone(), node_api_secret: secret };
        self.build(chain_type, top_level_directory, config, next)
    }

    /// Asks for the wallet to be constructed.
    fn build(
        &self,
        chain_type: ChainTypes,
        top_level_directory: String,
        config: WalletConfig,
        next: Continuation,
    ) -> (step: Step)
        ensures
            step == self.spec_build(chain_type, top_level_directory, config, next),
    {
        let request = EngineRequest::BuildWallet {
            config: config.duplicate(),
            node_client: self.node_client.duplicate(),
            top_level_directory: top_level_directory.clone(),
        };
        Step::Call(Pending::BuildWallet { chain_type, top_level_directory, config, next }, request)
    }

    /// Records the two facets of a constructed wallet, makes its chain the
    /// calling thread's, and goes on with what was asked.
    fn finish_instantiation(
        &mut self,
        chain_type: ChainTypes,
        top_level_directory: String,
        config: WalletConfig,
        next: Continuation,
    ) -> (step: Step)
        ensures
            *final(self) == old(self).instantiated(top_level_directory, config),
            step == Self::spec_continue(chain_type, config, next),
    {
        let step = match next {
            Continuation::Finish => Step::Done(Ok(Output::Unit)),
            Continuation::Open { password } => Step::Call(
                Pending::OpenWallet { opened_chain: Some(chain_type) },
                EngineRequest::OpenWallet { password },
            ),
            Continuation::Init { password, display_name, recovery_phrase } => Step::Call(
                Pending::CreateConfig { chain_type, password, display_name, recovery_phrase },
                EngineRequest::CreateConfig {
                    chain_type,
                    file_name: WALLET_CONFIG_FILE_NAME,
                    config: config.duplicate(),
                },
            ),
        };
        self.config = Some(config);
        self.owner_api = Some(Facet { top_level_directory: top_level_directory.clone() });
        self.foreign_api = Some(Facet { top_level_directory });
        chain_type.make_local();
        step
    }

    /// Takes the engine's answer to the request of a pending operation and
    /// says what comes next: one more call, or the operation's result.
    ///
    /// A failed call ends the operation with the engine's own description:
    /// as `ConfigError` where the configuration was being loaded, as
    /// `EngineInitError` where the wallet was being constructed, as
    /// `EngineError` everywhere else. An answer of the wrong kind, an empty
    /// envelope among them, ends it with `UnexpectedResponse`. A signed
    /// slate that has to be handed on, and that does not bear the
    /// identifier it was signed under or whose state does not come after
    /// the state it was signed from, ends it with `InvalidSlateState`. The session changes at three points only: the
    /// node client when the embedded node's address and secret are known,
    /// the facets and the configuration when the wallet has been
    /// constructed, and the open flag when the updater has been started, or
    /// stopped after the keys were locked. A constructed wallet's chain becomes the
    /// one that the calling thread works on.
    pub fn resume(&mut self, pending: Pending, response: EngineResponse) -> (step: Step)
        ensures
            step == old(self).spec_next_step(pending, response),
            *final(self) == old(self).spec_next_session(pending, response),
    {
        match pending {
            Pending::LoadConfig { chain_type, top_level_directory, next } => match response {
                EngineResponse::Failed(message) => Step::Done(
                    Err(GrinWalletInterfaceError::ConfigError(message)),
                ),
                EngineResponse::Config(config) => {
                    if self.use_embedded_node {
                        match &self.check_node_foreign_api_secret_path {
                            Some(path) => Step::Call(
                                Pending::ReadNodeSecret {
                                    chain_type,
                                    top_level_directory,
                                    config,
                                    next,
                                },
                                EngineRequest::ReadNodeSecret { path: path.clone() },
                            ),
                            None => self.use_embedded_node_client(
                                chain_type,
                                top_level_directory,
                                config,
                                None,
                                next,
                            ),
                        }
                    } else {
                        self.build(chain_type, top_level_directory, config, next)
                    }
                },
                _ => unexpected(),
            },
            Pending::ReadNodeSecret { chain_type, top_level_directory, config, next } => match response {
                EngineResponse::Secret(secret) => self.use_embedded_node_client(
                    chain_type,
                    top_level_directory,
                    config,
                    secret,
                    next,
                ),
                _ => unexpected(),
            },
            Pending::BuildWallet { chain_type, top_level_directory, config, next } => match response {
                EngineResponse::Failed(message) => Step::Done(
                    Err(GrinWalletInterfaceError::EngineInitError(message)),
                ),
                EngineResponse::Unit => self.finish_instantiation(
                    chain_type,
                    top_level_directory,
                    config,
                    next,
                ),
                _ => unexpected(),
            },
            Pending::CreateConfig { chain_type, password, display_name, recovery_phrase } => match response {
                EngineResponse::Failed(message) => engine_error(message),
                EngineResponse::Unit => {
                    let length = list_length(&recovery_phrase);
                    let test_mode = match chain_type {
                        ChainTypes::Testnet => true,
                        _ => false,
                    };
                    Step::Call(
                        Pending::CreateWallet {
                            chain_type,
                            password: password.clone(),
                            display_name,
                        },
                        EngineRequest::CreateWallet {
                            recovery_phrase,
                            list_length: length,
                            password,
                            test_mode,
                        },
                    )
                },
                _ => unexpected(),
            },
            Pending::CreateWallet { chain_type, password, display_name } => match response {
                EngineResponse::Failed(message) => engine_error(message),
                EngineResponse::Unit => Step::Call(
                    Pending::GetTopLevelDirectory { chain_type, password, display_name },
                    EngineRequest::GetTopLevelDirectory,
                ),
                _ => unexpected(),
            },
            Pending::GetTopLevelDirectory { chain_type, password, display_name } => match response {
                EngineResponse::Failed(message) => engine_error(message),
                EngineResponse::Text(top_level_directory) => Step::Call(
                    Pending::GetMnemonic { chain_type, top_level_directory, display_name },
                    EngineRequest::GetMnemonic { password },
                ),
                _ => unexpected(),
            },
            Pending::GetMnemonic { chain_type, top_level_directory, display_name } => match response {
                EngineResponse::Failed(message) => engine_error(message),
                EngineResponse::Text(recovery_phrase) => Step::Done(
                    Ok(
                        Output::Initialized(
                            InitResult {
                                top_level_directory,
                                recovery_phrase,
                                display_name,
                                chain_type,
                            },
                        ),
                    ),
                ),
                _ => unexpected(),
            },
            Pending::OpenWallet { opened_chain } => match response {
                EngineResponse::Failed(message) => engine_error(message),
                EngineResponse::Unit => Step::Call(
                    Pending::StartUpdater { opened_chain },
                    EngineRequest::StartUpdater { frequency_secs: UPDATER_FREQUENCY_SECS },
                ),
                _ => unexpected(),
            },
            Pending::StartUpdater { opened_chain } => match response {
                EngineResponse::Failed(message) => engine_error(message),
                EngineResponse::Unit => {
                    self.wallet_is_open = true;
                    if opened_chain.is_some() {
                        self.chain_type = opened_chain;
                    }
                    Step::Done(Ok(Output::Unit))
                },
                _ => unexpected(),
            },
            Pending::CloseWallet => match response {
                EngineResponse::Failed(message) => engine_error(message),
                EngineResponse::Unit => Step::Call(Pending::StopUpdater, EngineRequest::StopUpdater),
                _ => unexpected(),
            },
            Pending::StopUpdater => match response {
                EngineResponse::Failed(message) => engine_error(message),
                EngineResponse::Unit => {
                    self.wallet_is_open = false;
                    Step::Done(Ok(Output::Unit))
                },
                _ => unexpected(),
            },
            Pending::UpdaterMessages => match response {
                EngineResponse::Failed(message) => engine_error(message),
                EngineResponse::Status(messages) => Step::Done(Ok(Output::Status(messages))),
                _ => unexpected(),
            },
            Pending::SummaryInfo => match response {
                EngineResponse::Failed(message) => engine_error(message),
                EngineResponse::Summary(refreshed, info) => Step::Done(
                    Ok(Output::Info(refreshed, info)),
                ),
                _ => unexpected(),
            },
            Pending::Txs => match response {
                EngineResponse::Failed(message) => engine_error(message),
                EngineResponse::Transactions(refreshed, entries) => Step::Done(
                    Ok(Output::Txs(refreshed, entries)),
                ),
                _ => unexpected(),
            },
            Pending::OwnAddress => match response {
                EngineResponse::Failed(message) => engine_error(message),
                EngineResponse::Text(address) => Step::Done(Ok(Output::Address(address))),
                _ => unexpected(),
            },
            Pending::DecodeSlatepack { slatepack } => match response {
                EngineResponse::Failed(message) => engine_error(message),
                EngineResponse::Header(header) => Step::Call(
                    Pending::SlateFromSlatepack { header },
                    EngineRequest::SlateFromSlatepackMessage { slatepack, secret_index: 0 },
                ),
                _ => unexpected(),
            },
            Pending::SlateFromSlatepack { header } => match response {
                EngineResponse::Failed(message) => engine_error(message),
                EngineResponse::SlateReady(slate) => Step::Done(Ok(Output::Decoded(header, slate))),
                _ => unexpected(),
            },
            Pending::ResolveParticipants { chain_type, dest, init_args } => match response {
                EngineResponse::Failed(message) => engine_error(message),
                EngineResponse::Text(own) => {
                    let resolved = resolved_args(init_args, &own, &dest);
                    Step::Call(
                        Pending::ContractNew { chain_type, dest },
                        EngineRequest::ContractNew { init_args: resolved },
                    )
                },
                _ => unexpected(),
            },
            Pending::ContractNew { chain_type, dest } => match response {
                EngineResponse::Failed(message) => engine_error(message),
                EngineResponse::SlateReady(slate) => encrypt(chain_type, dest, slate, false),
                _ => unexpected(),
            },
            Pending::ContractSign { chain_type, dest, signed_id, signed_from } => match response {
                EngineResponse::Failed(message) => engine_error(message),
                EngineResponse::Signed { slate, can_finalize } => {
                    if can_finalize {
                        Step::Call(Pending::PostTx, EngineRequest::PostTx { slate, fluff: true })
                    } else if slate.id != signed_id || !slate.state.follows(signed_from) {
                        Step::Done(Err(GrinWalletInterfaceError::InvalidSlateState))
                    } else {
                        encrypt(chain_type, dest, slate, true)
                    }
                },
                _ => unexpected(),
            },
            Pending::InitSendTx { chain_type, dest } => match response {
                EngineResponse::Failed(message) => engine_error(message),
                EngineResponse::SlateReady(slate) => {
                    let locked = slate.duplicate();
                    Step::Call(
                        Pending::LockOutputs { chain_type, dest, slate },
                        EngineRequest::TxLockOutputs { slate: locked },
                    )
                },
                _ => unexpected(),
            },
            Pending::LockOutputs { chain_type, dest, slate } => match response {
                EngineResponse::Failed(message) => engine_error(message),
                EngineResponse::Unit => encrypt(chain_type, dest, slate, false),
                _ => unexpected(),
            },
            Pending::ReceiveTx { chain_type, dest } => match response {
                EngineResponse::Failed(message) => engine_error(message),
                EngineResponse::SlateReady(slate) => encrypt(chain_type, dest, slate, true),
                _ => unexpected(),
            },
            Pending::FinalizeTx => match response {
                EngineResponse::Failed(message) => engine_error(message),
                EngineResponse::SlateReady(slate) => Step::Call(
                    Pending::PostTx,
                    EngineRequest::PostTx { slate, fluff: true },
                ),
                _ => unexpected(),
            },
            Pending::PostTx => match response {
                EngineResponse::Failed(message) => engine_error(message),
                EngineResponse::Unit => Step::Done(Ok(Output::MaybeEnvelope(None))),
                _ => unexpected(),
            },
            Pending::CancelTx { id } => match response {
                EngineResponse::Failed(message) => engine_error(message),
                EngineResponse::Unit => Step::Done(Ok(Output::Cancelled(id))),
                _ => unexpected(),
            },
            Pending::Encrypt { optional } => match response {
                EngineResponse::Failed(message) => engine_error(message),
                EngineResponse::Text(envelope) => {
                    if envelope.as_str().is_empty() {
                        unexpected()
                    } else if optional {
                        Step::Done(Ok(Output::MaybeEnvelope(Some(envelope))))
                    } else {
                        Step::Done(Ok(Output::Envelope(envelope)))
                    }
                },
                _ => unexpected(),
            },
        }
    }
}

} // verus!
