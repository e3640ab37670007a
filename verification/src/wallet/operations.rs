//! The operations of the wallet interface: what each one checks before it
//! turns to the engine, and the first call it asks for.

use vstd::prelude::*;
use vstd::string::*;
use crate::address::{is_slatepack_address, is_valid_slatepack_address};
use crate::chain::ChainTypes;
use crate::error::GrinWalletInterfaceError;
use crate::slate::Slate;
use crate::wallet::engine::EngineRequest;
use crate::wallet::session::{
    encrypt, fail, inst_wallet, spec_encrypt, spec_inst_wallet, spec_signing_args, Continuation,
    Pending, Step, WalletInterface, SUMMARY_MINIMUM_CONFIRMATIONS,
};
use crate::wallet::types::{
    ContractNewArgsAPI, ContractSetupArgsAPI, Facet, InitTxArgs, NodeClient, RetrieveTxQueryArgs,
};

verus! {

impl WalletInterface {
    /// The session of a wallet that has not been instantiated.
    pub open spec fn spec_new(node_client: NodeClient) -> WalletInterface {
        WalletInterface {
            chain_type: None,
            config: None,
            owner_api: None,
            foreign_api: None,
            wallet_is_open: false,
            check_node_foreign_api_secret_path: None,
            use_embedded_node: true,
            node_client,
        }
    }

    /// A session without facets, closed, set to use the embedded node.
    pub fn new(node_client: NodeClient) -> (session: WalletInterface)
        ensures
            session == Self::spec_new(node_client),
            session.well_formed(),
    {
        WalletInterface {
            chain_type: None,
            config: None,
            owner_api: None,
            foreign_api: None,
            wallet_is_open: false,
            check_node_foreign_api_secret_path: None,
            use_embedded_node: true,
            node_client,
        }
    }

    /// Records where the node's API secret is kept.
    pub fn set_check_node_foreign_api_secret_path(&mut self, secret: &str)
        ensures
            final(self).check_node_foreign_api_secret_path matches Some(path) && path@ == secret@,
            *final(self) == (WalletInterface {
                check_node_foreign_api_secret_path: final(self).check_node_foreign_api_secret_path,
                ..*old(self)
            }),
    {
        self.check_node_foreign_api_secret_path = Some(secret.to_owned());
    }

    /// Whether the wallet has been unlocked.
    pub fn wallet_is_open(&self) -> (open: bool)
        ensures
            open == self.wallet_is_open,
    {
        self.wallet_is_open
    }

    /// Chooses between the embedded node and a remote one. A change of the
    /// choice drops both facets, so that the wallet has to be instantiated
    /// again; the same choice again changes nothing.
    pub fn set_use_embedded_node(&mut self, value: bool)
        ensures
            *final(self) == old(self).with_embedded_node(value),
            old(self).well_formed() ==> final(self).well_formed(),
    {
        if self.use_embedded_node != value {
            self.owner_api = None;
            self.foreign_api = None;
        }
        self.use_embedded_node = value;
    }

    /// Instantiates the wallet in a directory: loads or creates the
    /// configuration, points the node client at the embedded node where
    /// that is used, constructs the wallet and its two facets.
    pub fn inst_apis(&self, chain_type: ChainTypes, top_level_directory: String) -> (step: Step)
        ensures
            step == spec_inst_wallet(chain_type, top_level_directory, Continuation::Finish),
    {
        inst_wallet(chain_type, top_level_directory, Continuation::Finish)
    }

    /// Instantiates a wallet, then creates its files and its seed.
    pub fn init(
        &self,
        password: String,
        top_level_directory: String,
        display_name: String,
        chain_type: ChainTypes,
        recovery_phrase: Option<String>,
    ) -> (step: Step)
        ensures
            step == spec_inst_wallet(
                chain_type,
                top_level_directory,
                Continuation::Init { password, display_name, recovery_phrase },
            ),
    {
        inst_wallet(
            chain_type,
            top_level_directory,
            Continuation::Init { password, display_name, recovery_phrase },
        )
    }

    /// Instantiates a wallet, unlocks it and starts its updater.
    pub fn open_wallet(
        &self,
        password: String,
        top_level_directory: String,
        chain_type: ChainTypes,
    ) -> (step: Step)
        ensures
            step == spec_inst_wallet(
                chain_type,
                top_level_directory,
                Continuation::Open { password },
            ),
    {
        inst_wallet(chain_type, top_level_directory, Continuation::Open { password })
    }

    /// A step that needs the owner facet: `call` where it exists.
    pub open spec fn with_owner(self, call: Step) -> Step {
        if self.owner_api is None {
            fail(GrinWalletInterfaceError::OwnerAPINotInstantiated)
        } else {
            call
        }
    }

    /// The first step of [`Self::open`].
    pub open spec fn spec_open(self, password: String) -> Step {
        self.with_owner(
            Step::Call(
                Pending::OpenWallet { opened_chain: None },
                EngineRequest::OpenWallet { password },
            ),
        )
    }

    /// Unlocks a wallet that has been instantiated and starts its updater.
    pub fn open(&self, password: String) -> (step: Step)
        ensures
            step == self.spec_open(password),
    {
        if self.owner_api.is_none() {
            return Step::Done(Err(GrinWalletInterfaceError::OwnerAPINotInstantiated));
        }
        Step::Call(Pending::OpenWallet { opened_chain: None }, EngineRequest::OpenWallet { password })
    }

    /// The first step of [`Self::close_wallet`].
    pub open spec fn spec_close_wallet(self) -> Step {
        self.with_owner(Step::Call(Pending::CloseWallet, EngineRequest::CloseWallet))
    }

    /// Locks the wallet's keys, stops its updater, and clears the open flag
    /// once both have succeeded.
    pub fn close_wallet(&self) -> (step: Step)
        ensures
            step == self.spec_close_wallet(),
    {
        if self.owner_api.is_none() {
            return Step::Done(Err(GrinWalletInterfaceError::OwnerAPINotInstantiated));
        }
        Step::Call(Pending::CloseWallet, EngineRequest::CloseWallet)
    }

    /// The first step of [`Self::get_wallet_updater_status`].
    pub open spec fn spec_get_wallet_updater_status(self) -> Step {
        self.with_owner(
            Step::Call(Pending::UpdaterMessages, EngineRequest::GetUpdaterMessages { count: 1 }),
        )
    }

    /// Asks for the updater's latest message.
    pub fn get_wallet_updater_status(&self) -> (step: Step)
        ensures
            step == self.spec_get_wallet_updater_status(),
    {
        if self.owner_api.is_none() {
            return Step::Done(Err(GrinWalletInterfaceError::OwnerAPINotInstantiated));
        }
        Step::Call(Pending::UpdaterMessages, EngineRequest::GetUpdaterMessages { count: 1 })
    }

    /// Wraps a slate into an envelope for `dest`, through the owner facet
    /// `api` that the caller holds. A destination that is no slatepack
    /// address of the chain ends the operation before the engine is asked.
    pub fn encrypt_slatepack(
        api: &Facet,
        chain_type: ChainTypes,
        dest: String,
        unenc_slate: Slate,
    ) -> (step: Step)
        ensures
            step == spec_encrypt(chain_type, dest, unenc_slate, false),
            !is_slatepack_address(chain_type, dest@) ==> step == fail(
                GrinWalletInterfaceError::InvalidSlatepackAddress,
            ),
    {
        encrypt(chain_type, dest, unenc_slate, false)
    }

    /// The first step of [`Self::decrypt_slatepack`].
    pub open spec fn spec_decrypt_slatepack(self, slatepack: String) -> Step {
        self.with_owner(
            Step::Call(
                Pending::DecodeSlatepack { slatepack },
                EngineRequest::DecodeSlatepackMessage { slatepack, secret_index: 0 },
            ),
        )
    }

    /// Decodes an envelope: first its header, then the slate inside.
    pub fn decrypt_slatepack(&self, slatepack: String) -> (step: Step)
        ensures
            step == self.spec_decrypt_slatepack(slatepack),
    {
        if self.owner_api.is_none() {
            return Step::Done(Err(GrinWalletInterfaceError::OwnerAPINotInstantiated));
        }
        let text = slatepack.clone();
        Step::Call(
            Pending::DecodeSlatepack { slatepack },
            EngineRequest::DecodeSlatepackMessage { slatepack: text, secret_index: 0 },
        )
    }

    /// The first step of [`Self::get_wallet_info`].
    pub open spec fn spec_get_wallet_info(self) -> Step {
        self.with_owner(
            Step::Call(
                Pending::SummaryInfo,
                EngineRequest::RetrieveSummaryInfo {
                    refresh_from_node: false,
                    minimum_confirmations: SUMMARY_MINIMUM_CONFIRMATIONS,
                },
            ),
        )
    }

    /// Asks for the wallet's balances, as the wallet holds them.
    pub fn get_wallet_info(&self) -> (step: Step)
        ensures
            step == self.spec_get_wallet_info(),
    {
        if self.owner_api.is_none() {
            return Step::Done(Err(GrinWalletInterfaceError::OwnerAPINotInstantiated));
        }
        Step::Call(
            Pending::SummaryInfo,
            EngineRequest::RetrieveSummaryInfo {
                refresh_from_node: false,
                minimum_confirmations: SUMMARY_MINIMUM_CONFIRMATIONS,
            },
        )
    }

    /// The first step of [`Self::get_txs`].
    pub open spec fn spec_get_txs(self, query_args: Option<RetrieveTxQueryArgs>) -> Step {
        self.with_owner(
            Step::Call(
                Pending::Txs,
                EngineRequest::RetrieveTxs { refresh_from_node: true, query_args },
            ),
        )
    }

    /// Asks for the transaction log, refreshed from the node.
    pub fn get_txs(&self, query_args: Option<RetrieveTxQueryArgs>) -> (step: Step)
        ensures
            step == self.spec_get_txs(query_args),
    {
        if self.owner_api.is_none() {
            return Step::Done(Err(GrinWalletInterfaceError::OwnerAPINotInstantiated));
        }
        Step::Call(Pending::Txs, EngineRequest::RetrieveTxs { refresh_from_node: true, query_args })
    }

    /// The first step of [`Self::get_slatepack_address`].
    pub open spec fn spec_get_slatepack_address(self) -> Step {
        self.with_owner(
            Step::Call(
                Pending::OwnAddress,
                EngineRequest::GetSlatepackAddress { derivation_index: 0 },
            ),
        )
    }

    /// Asks for the wallet's own slatepack address.
    pub fn get_slatepack_address(&self) -> (step: Step)
        ensures
            step == self.spec_get_slatepack_address(),
    {
        if self.owner_api.is_none() {
            return Step::Done(Err(GrinWalletInterfaceError::OwnerAPINotInstantiated));
        }
        Step::Call(Pending::OwnAddress, EngineRequest::GetSlatepackAddress { derivation_index: 0 })
    }

    /// The first step of [`Self::create_contract`].
    pub open spec fn spec_create_contract(
        self,
        chain_type: ChainTypes,
        init_args: ContractNewArgsAPI,
        dest_slatepack_address: String,
    ) -> Step {
        if !is_slatepack_address(chain_type, dest_slatepack_address@) {
            fail(GrinWalletInterfaceError::InvalidSlatepackAddress)
        } else {
            self.with_owner(
                Step::Call(
                    Pending::ResolveParticipants {
                        chain_type,
                        dest: dest_slatepack_address,
                        init_args,
                    },
                    EngineRequest::GetSlatepackAddress { derivation_index: 0 },
                ),
            )
        }
    }

    /// Opens a new contract and wraps its slate for the destination.
    ///
    /// The destination is checked before anything else: one that is no
    /// slatepack address of the chain ends the operation with
    /// `InvalidSlatepackAddress` and without a call into the engine. The
    /// wallet's own address is asked for next: a contract with oneself has
    /// one participant, any other at least two. Nothing is submitted to the
    /// ledger at this step.
    pub fn create_contract(
        &self,
        chain_type: ChainTypes,
        init_args: ContractNewArgsAPI,
        dest_slatepack_address: String,
    ) -> (step: Step)
        ensures
            step == self.spec_create_contract(chain_type, init_args, dest_slatepack_address),
            !is_slatepack_address(chain_type, dest_slatepack_address@) ==> step == fail(
                GrinWalletInterfaceError::InvalidSlatepackAddress,
            ),
    {
        if !is_valid_slatepack_address(chain_type, dest_slatepack_address.as_str()) {
            return Step::Done(Err(GrinWalletInterfaceError::InvalidSlatepackAddress));
        }
        if self.owner_api.is_none() {
            return Step::Done(Err(GrinWalletInterfaceError::OwnerAPINotInstantiated));
        }
        Step::Call(
            Pending::ResolveParticipants { chain_type, dest: dest_slatepack_address, init_args },
            EngineRequest::GetSlatepackAddress { derivation_index: 0 },
        )
    }

    /// The first step of [`Self::sign_contract`].
    pub open spec fn spec_sign_contract(
        self,
        chain_type: ChainTypes,
        slate: Slate,
        setup_args: ContractSetupArgsAPI,
        dest_slatepack_address: String,
    ) -> Step {
        if self.owner_api is None {
            fail(GrinWalletInterfaceError::OwnerAPINotInstantiated)
        } else if !is_slatepack_address(chain_type, dest_slatepack_address@) {
            fail(GrinWalletInterfaceError::InvalidSlatepackAddress)
        } else if slate.state.spec_is_terminal() || !slate.spec_amount_fits() {
            fail(GrinWalletInterfaceError::InvalidSlateState)
        } else {
            Step::Call(
                Pending::ContractSign {
                    chain_type,
                    dest: dest_slatepack_address,
                    signed_id: slate.id,
                    signed_from: slate.state,
                },
                EngineRequest::ContractSign {
                    slate,
                    setup_args: spec_signing_args(setup_args, slate),
                },
            )
        }
    }

    /// Signs a contract. Without an owner facet, or for a destination that
    /// is no slatepack address of the chain, the operation ends before the
    /// engine is asked. The balance change handed to the engine is the
    /// signer's by the slate's state and amount: negative for the payer,
    /// positive for the payee; the one in `setup_args` is not consulted.
    /// Whether this was the last signature is decided by what the engine
    /// hands back: a slate that every participant has signed is submitted
    /// to the ledger, any other is wrapped for the destination.
    ///
    /// A slate in a terminal state, or one whose amount is too large for a
    /// balance change, is refused before the engine is asked.
    pub fn sign_contract(
        &self,
        chain_type: ChainTypes,
        slate: Slate,
        setup_args: ContractSetupArgsAPI,
        dest_slatepack_address: String,
    ) -> (step: Step)
        ensures
            step == self.spec_sign_contract(chain_type, slate, setup_args, dest_slatepack_address),
            self.owner_api is Some && !is_slatepack_address(chain_type, dest_slatepack_address@)
                ==> step == fail(GrinWalletInterfaceError::InvalidSlatepackAddress),
    {
        if self.owner_api.is_none() {
            return Step::Done(Err(GrinWalletInterfaceError::OwnerAPINotInstantiated));
        }
        if !is_valid_slatepack_address(chain_type, dest_slatepack_address.as_str()) {
            return Step::Done(Err(GrinWalletInterfaceError::InvalidSlatepackAddress));
        }
        if slate.state.is_terminal() {
            return Step::Done(Err(GrinWalletInterfaceError::InvalidSlateState));
        }
        let change = match slate.net_change() {
            Some(change) => change,
            None => {
                return Step::Done(Err(GrinWalletInterfaceError::InvalidSlateState));
            },
        };
        let signed_from = slate.state;
        let signed_id = slate.id;
        Step::Call(
            Pending::ContractSign {
                chain_type,
                dest: dest_slatepack_address,
                signed_id,
                signed_from,
            },
            EngineRequest::ContractSign {
                slate,
                setup_args: ContractSetupArgsAPI {
                    net_change: Some(change),
                    num_participants: setup_args.num_participants,
                    add_outputs: setup_args.add_outputs,
                },
            },
        )
    }

    /// The first step of [`Self::create_tx`].
    pub open spec fn spec_create_tx(
        self,
        chain_type: ChainTypes,
        init_args: InitTxArgs,
        dest_slatepack_address: String,
    ) -> Step {
        if !is_slatepack_address(chain_type, dest_slatepack_address@) {
            fail(GrinWalletInterfaceError::InvalidSlatepackAddress)
        } else {
            self.with_owner(
                Step::Call(
                    Pending::InitSendTx { chain_type, dest: dest_slatepack_address },
                    EngineRequest::InitSendTx { tx_args: init_args },
                ),
            )
        }
    }

    /// Starts a plain send, locks its outputs and wraps its slate for the
    /// destination. The destination is checked before anything else.
    pub fn create_tx(
        &self,
        chain_type: ChainTypes,
        init_args: InitTxArgs,
        dest_slatepack_address: String,
    ) -> (step: Step)
        ensures
            step == self.spec_create_tx(chain_type, init_args, dest_slatepack_address),
            !is_slatepack_address(chain_type, dest_slatepack_address@) ==> step == fail(
                GrinWalletInterfaceError::InvalidSlatepackAddress,
            ),
    {
        if !is_valid_slatepack_address(chain_type, dest_slatepack_address.as_str()) {
            return Step::Done(Err(GrinWalletInterfaceError::InvalidSlatepackAddress));
        }
        if self.owner_api.is_none() {
            return Step::Done(Err(GrinWalletInterfaceError::OwnerAPINotInstantiated));
        }
        Step::Call(
            Pending::InitSendTx { chain_type, dest: dest_slatepack_address },
            EngineRequest::InitSendTx { tx_args: init_args },
        )
    }

    /// The first step of [`Self::receive_tx_from_s1`].
    pub open spec fn spec_receive_tx_from_s1(
        self,
        chain_type: ChainTypes,
        slate: Slate,
        dest_slatepack_address: String,
    ) -> Step {
        if self.foreign_api is None {
            fail(GrinWalletInterfaceError::ForeignAPINotInstantiated)
        } else if self.owner_api is None {
            fail(GrinWalletInterfaceError::OwnerAPINotInstantiated)
        } else if !is_slatepack_address(chain_type, dest_slatepack_address@) {
            fail(GrinWalletInterfaceError::InvalidSlatepackAddress)
        } else {
            Step::Call(
                Pending::ReceiveTx { chain_type, dest: dest_slatepack_address },
                EngineRequest::ReceiveTx { slate },
            )
        }
    }

    /// Receives a send through the foreign facet and wraps the answer,
    /// through the owner facet, for the destination. Both facets and the
    /// destination are checked before the engine is asked.
    pub fn receive_tx_from_s1(
        &self,
        chain_type: ChainTypes,
        slate: Slate,
        dest_slatepack_address: String,
    ) -> (step: Step)
        ensures
            step == self.spec_receive_tx_from_s1(chain_type, slate, dest_slatepack_address),
    {
        if self.foreign_api.is_none() {
            return Step::Done(Err(GrinWalletInterfaceError::ForeignAPINotInstantiated));
        }
        if self.owner_api.is_none() {
            return Step::Done(Err(GrinWalletInterfaceError::OwnerAPINotInstantiated));
        }
        if !is_valid_slatepack_address(chain_type, dest_slatepack_address.as_str()) {
            return Step::Done(Err(GrinWalletInterfaceError::InvalidSlatepackAddress));
        }
        Step::Call(
            Pending::ReceiveTx { chain_type, dest: dest_slatepack_address },
            EngineRequest::ReceiveTx { slate },
        )
    }

    /// The first step of [`Self::finalize_from_s2`].
    pub open spec fn spec_finalize_from_s2(self, slate: Slate) -> Step {
        self.with_owner(Step::Call(Pending::FinalizeTx, EngineRequest::FinalizeTx { slate }))
    }

    /// Finalizes a send and submits it to the ledger, whatever
    /// `send_to_chain` says. Without an owner facet the operation ends with
    /// `OwnerAPINotInstantiated`.
    pub fn finalize_from_s2(&self, slate: Slate, send_to_chain: bool) -> (step: Step)
        ensures
            step == self.spec_finalize_from_s2(slate),
            self.owner_api is None ==> step == fail(
                GrinWalletInterfaceError::OwnerAPINotInstantiated,
            ),
    {
        if self.owner_api.is_none() {
            return Step::Done(Err(GrinWalletInterfaceError::OwnerAPINotInstantiated));
        }
        Step::Call(Pending::FinalizeTx, EngineRequest::FinalizeTx { slate })
    }

    /// The first step of [`Self::cancel_tx`].
    pub open spec fn spec_cancel_tx(self, id: u32) -> Step {
        self.with_owner(
            Step::Call(Pending::CancelTx { id }, EngineRequest::CancelTx { tx_id: id }),
        )
    }

    /// Marks the transaction of the given log entry as cancelled.
    pub fn cancel_tx(&self, id: u32) -> (step: Step)
        ensures
            step == self.spec_cancel_tx(id),
    {
        if self.owner_api.is_none() {
            return Step::Done(Err(GrinWalletInterfaceError::OwnerAPINotInstantiated));
        }
        Step::Call(Pending::CancelTx { id }, EngineRequest::CancelTx { tx_id: id })
    }
}

} // verus!
