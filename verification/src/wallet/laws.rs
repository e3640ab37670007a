//! What holds of the wallet's operations, whatever the engine answers.

use vstd::prelude::*;
use crate::address::is_slatepack_address;
use crate::chain::ChainTypes;
use crate::error::GrinWalletInterfaceError;
use crate::slate::{Slate, SlateState};
use crate::wallet::engine::{EngineRequest, EngineResponse};
use crate::wallet::session::{
    fail, spec_resolved_args, spec_signing_args, succeed, Continuation, Output, Pending, Step,
    WalletInterface,
};
use crate::wallet::types::{
    ContractNewArgsAPI, ContractSetupArgsAPI, Facet, InitTxArgs, RetrieveTxQueryArgs,
    WalletConfig,
};

verus! {

impl Step {
    /// The step asks the engine for nothing.
    pub open spec fn asks_nothing(self) -> bool {
        self is Done
    }
}

impl Continuation {
    /// The number of calls that what follows an instantiation takes.
    pub open spec fn calls(self) -> nat {
        match self {
            Continuation::Finish => 0,
            Continuation::Open { .. } => 2,
            Continuation::Init { .. } => 4,
        }
    }
}

impl Pending {
    /// The largest number of calls that the operation can still ask for
    /// once the pending one has been answered.
    pub open spec fn calls_left(self) -> nat {
        match self {
            Pending::LoadConfig { next, .. } => 2 + next.calls(),
            Pending::ReadNodeSecret { next, .. } => 1 + next.calls(),
            Pending::BuildWallet { next, .. } => next.calls(),
            Pending::CreateConfig { .. } => 3,
            Pending::CreateWallet { .. } => 2,
            Pending::GetTopLevelDirectory { .. } => 1,
            Pending::OpenWallet { .. } => 1,
            Pending::CloseWallet => 1,
            Pending::DecodeSlatepack { .. } => 1,
            Pending::ResolveParticipants { .. } => 2,
            Pending::ContractNew { .. } => 1,
            Pending::ContractSign { .. } => 1,
            Pending::InitSendTx { .. } => 2,
            Pending::LockOutputs { .. } => 1,
            Pending::ReceiveTx { .. } => 1,
            Pending::FinalizeTx => 1,
            _ => 0,
        }
    }
}

impl EngineRequest {
    /// The slate that a request hands to the engine, where it hands one.
    pub open spec fn slate(self) -> Option<Slate> {
        match self {
            EngineRequest::CreateSlatepackMessage { slate, .. } => Some(slate),
            EngineRequest::ContractSign { slate, .. } => Some(slate),
            EngineRequest::PostTx { slate, .. } => Some(slate),
            EngineRequest::TxLockOutputs { slate } => Some(slate),
            EngineRequest::ReceiveTx { slate } => Some(slate),
            EngineRequest::FinalizeTx { slate } => Some(slate),
            _ => None,
        }
    }
}

/// A destination that is no slatepack address of the chain ends
/// `create_contract` and `create_tx` at once with `InvalidSlatepackAddress`:
/// neither asks anything of the engine, whatever the session holds.
pub proof fn lemma_malformed_address_is_refused_before_the_engine(
    session: WalletInterface,
    chain_type: ChainTypes,
    contract_args: ContractNewArgsAPI,
    tx_args: InitTxArgs,
    dest: String,
)
    requires
        !is_slatepack_address(chain_type, dest@),
    ensures
        session.spec_create_contract(chain_type, contract_args, dest) == fail(
            GrinWalletInterfaceError::InvalidSlatepackAddress,
        ),
        session.spec_create_tx(chain_type, tx_args, dest) == fail(
            GrinWalletInterfaceError::InvalidSlatepackAddress,
        ),
        session.spec_create_contract(chain_type, contract_args, dest).asks_nothing(),
        session.spec_create_tx(chain_type, tx_args, dest).asks_nothing(),
{
}

/// Whenever an envelope is asked for, the destination has been checked: no
/// answer of the engine leads to a request for an envelope to a destination
/// that is no slatepack address of the chain.
pub proof fn lemma_envelopes_go_to_checked_addresses(
    session: WalletInterface,
    pending: Pending,
    response: EngineResponse,
)
    ensures
        session.spec_next_step(pending, response) matches Step::Call(
            _,
            EngineRequest::CreateSlatepackMessage { slate, sender_index, recipient },
        ) ==> sender_index == 0 && match pending {
            Pending::ContractNew { chain_type, dest } => recipient == dest && is_slatepack_address(
                chain_type,
                dest@,
            ),
            Pending::ContractSign { chain_type, dest, .. } => recipient == dest
                && is_slatepack_address(chain_type, dest@),
            Pending::LockOutputs { chain_type, dest, .. } => recipient == dest
                && is_slatepack_address(chain_type, dest@),
            Pending::ReceiveTx { chain_type, dest } => recipient == dest && is_slatepack_address(
                chain_type,
                dest@,
            ),
            _ => false,
        },
{
}

/// No operation that needs the owner facet asks anything of the engine
/// while that facet is missing.
pub proof fn lemma_no_owner_no_engine_call(
    session: WalletInterface,
    chain_type: ChainTypes,
    slate: Slate,
    setup_args: ContractSetupArgsAPI,
    contract_args: ContractNewArgsAPI,
    tx_args: InitTxArgs,
    query_args: Option<RetrieveTxQueryArgs>,
    text: String,
    id: u32,
)
    requires
        session.owner_api is None,
    ensures
        session.spec_open(text).asks_nothing(),
        session.spec_close_wallet().asks_nothing(),
        session.spec_get_wallet_updater_status().asks_nothing(),
        session.spec_decrypt_slatepack(text).asks_nothing(),
        session.spec_get_wallet_info().asks_nothing(),
        session.spec_get_txs(query_args).asks_nothing(),
        session.spec_get_slatepack_address().asks_nothing(),
        session.spec_create_contract(chain_type, contract_args, text).asks_nothing(),
        session.spec_sign_contract(chain_type, slate, setup_args, text).asks_nothing(),
        session.spec_create_tx(chain_type, tx_args, text).asks_nothing(),
        session.spec_finalize_from_s2(slate).asks_nothing(),
        session.spec_cancel_tx(id).asks_nothing(),
        session.spec_sign_contract(chain_type, slate, setup_args, text) == fail(
            GrinWalletInterfaceError::OwnerAPINotInstantiated,
        ),
        session.spec_finalize_from_s2(slate) == fail(
            GrinWalletInterfaceError::OwnerAPINotInstantiated,
        ),
        session.spec_get_wallet_info() == fail(GrinWalletInterfaceError::OwnerAPINotInstantiated),
        session.spec_get_txs(query_args) == fail(
            GrinWalletInterfaceError::OwnerAPINotInstantiated,
        ),
        session.spec_get_slatepack_address() == fail(
            GrinWalletInterfaceError::OwnerAPINotInstantiated,
        ),
{
}

/// A failure of the engine is never swallowed: it ends the operation, and
/// the operation's error carries the engine's own words. (Reading the
/// secret file cannot fail: a missing file counts as no secret.)
pub proof fn lemma_engine_failures_are_handed_on(
    session: WalletInterface,
    pending: Pending,
    message: String,
)
    requires
        !(pending is ReadNodeSecret),
    ensures
        session.spec_next_step(pending, EngineResponse::Failed(message)) == fail(
            if pending is LoadConfig {
                GrinWalletInterfaceError::ConfigError(message)
            } else if pending is BuildWallet {
                GrinWalletInterfaceError::EngineInitError(message)
            } else {
                GrinWalletInterfaceError::EngineError(message)
            },
        ),
        session.spec_next_session(pending, EngineResponse::Failed(message)) == session,
{
}

/// Every step keeps the session well formed: the two facets exist together
/// or not at all, and never without a configuration.
pub proof fn lemma_steps_keep_the_session_well_formed(
    session: WalletInterface,
    pending: Pending,
    response: EngineResponse,
    embedded: bool,
)
    requires
        session.well_formed(),
    ensures
        session.spec_next_session(pending, response).well_formed(),
        session.with_embedded_node(embedded).well_formed(),
{
}

/// The wallet counts as open only after its updater has been started: the
/// one answer that sets the flag is the engine's success on that request,
/// which only follows a successful unlock.
pub proof fn lemma_open_only_after_unlock(
    session: WalletInterface,
    pending: Pending,
    response: EngineResponse,
    embedded: bool,
)
    requires
        !session.wallet_is_open,
    ensures
        session.spec_next_session(pending, response).wallet_is_open ==> pending is StartUpdater
            && response is Unit,
        !session.with_embedded_node(embedded).wallet_is_open,
        forall|p: Pending, r: EngineResponse| #[trigger]
            session.spec_next_step(p, r) matches Step::Call(Pending::StartUpdater { .. }, _)
                ==> p is OpenWallet && r is Unit,
{
}

/// The facets appear only when the engine has constructed the wallet, and
/// then both at once, for the directory that was asked for.
pub proof fn lemma_facets_come_from_instantiation(
    session: WalletInterface,
    pending: Pending,
    response: EngineResponse,
)
    requires
        !session.is_instantiated(),
        session.well_formed(),
    ensures
        session.spec_next_session(pending, response).is_instantiated() ==> pending is BuildWallet
            && response is Unit,
        pending matches Pending::BuildWallet { top_level_directory, .. } ==> (response is Unit ==> {
            let after = session.spec_next_session(pending, response);
            &&& after.owner_api == Some(Facet { top_level_directory })
            &&& after.foreign_api == Some(Facet { top_level_directory })
        }),
{
}

/// Instantiating is idempotent per directory: done twice with the same
/// configuration it leaves the session as done once.
pub proof fn lemma_instantiation_is_idempotent(
    session: WalletInterface,
    top_level_directory: String,
    config: WalletConfig,
)
    ensures
        session.instantiated(top_level_directory, config).instantiated(
            top_level_directory,
            config,
        ) == session.instantiated(top_level_directory, config),
        session.instantiated(top_level_directory, config).is_instantiated(),
{
}

/// Choosing the node: the same choice again changes nothing; a different
/// choice drops both facets, so that the next operation that needs one ends
/// with the facet's error until the wallet has been instantiated again.
pub proof fn lemma_change_of_node_invalidates_facets(session: WalletInterface, value: bool)
    ensures
        value == session.use_embedded_node ==> session.with_embedded_node(value) == session,
        value != session.use_embedded_node ==> {
            let after = session.with_embedded_node(value);
            &&& after.owner_api is None
            &&& after.foreign_api is None
            &&& after.use_embedded_node == value
            &&& after.spec_get_wallet_info() == fail(
                GrinWalletInterfaceError::OwnerAPINotInstantiated,
            )
        },
        session.with_embedded_node(value).with_embedded_node(value) == session.with_embedded_node(
            value,
        ),
{
}

/// Opening a wallet asks for the unlock, then for the updater with its
/// fixed period, and sets the open flag on the updater's success only.
pub proof fn lemma_open_starts_the_updater(
    session: WalletInterface,
    opened_chain: Option<ChainTypes>,
)
    ensures
        session.spec_next_step(Pending::OpenWallet { opened_chain }, EngineResponse::Unit)
            == Step::Call(
            Pending::StartUpdater { opened_chain },
            EngineRequest::StartUpdater { frequency_secs: 60 },
        ),
        session.spec_next_session(Pending::OpenWallet { opened_chain }, EngineResponse::Unit)
            == session,
        session.spec_next_step(Pending::StartUpdater { opened_chain }, EngineResponse::Unit)
            == succeed(Output::Unit),
        session.spec_next_session(
            Pending::StartUpdater { opened_chain },
            EngineResponse::Unit,
        ).wallet_is_open,
{
}

/// The queries are read-only projections: no answer to one changes the
/// session, so a query asked again of an unchanged wallet asks the same
/// request, and the same answer gives the same result.
pub proof fn lemma_queries_are_repeatable(
    session: WalletInterface,
    query_args: Option<RetrieveTxQueryArgs>,
    response: EngineResponse,
)
    ensures
        session.spec_next_session(Pending::SummaryInfo, response) == session,
        session.spec_next_session(Pending::Txs, response) == session,
        session.spec_next_session(Pending::OwnAddress, response) == session,
        session.spec_next_session(Pending::UpdaterMessages, response) == session,
        session.spec_get_wallet_info() matches Step::Call(pending, request) ==> {
            let after = session.spec_next_session(pending, response);
            &&& !request.spec_is_mutation()
            &&& after.spec_get_wallet_info() == session.spec_get_wallet_info()
            &&& after.spec_next_step(pending, response) == session.spec_next_step(
                pending,
                response,
            )
        },
        session.spec_get_txs(query_args) matches Step::Call(pending, request) ==> {
            let after = session.spec_next_session(pending, response);
            &&& !request.spec_is_mutation()
            &&& after.spec_get_txs(query_args) == session.spec_get_txs(query_args)
            &&& after.spec_next_step(pending, response) == session.spec_next_step(
                pending,
                response,
            )
        },
        response matches EngineResponse::Summary(refreshed, info) ==> session.spec_next_step(
            Pending::SummaryInfo,
            response,
        ) == succeed(Output::Info(refreshed, info)),
        response matches EngineResponse::Transactions(refreshed, entries)
            ==> session.spec_next_step(Pending::Txs, response) == succeed(
            Output::Txs(refreshed, entries),
        ),
{
}

/// The slate travels unchanged: what is asked to be wrapped is the slate
/// the engine made, for the one destination, from the sender's key of index
/// 0; what decoding returns is the header and the slate that the engine
/// read, and decoding changes nothing in the session.
pub proof fn lemma_slates_travel_unchanged(
    session: WalletInterface,
    chain_type: ChainTypes,
    dest: String,
    slate: Slate,
    envelope: String,
    header: crate::slate::Slatepack,
)
    requires
        is_slatepack_address(chain_type, dest@),
        envelope@.len() > 0,
    ensures
        session.spec_next_step(
            Pending::ContractNew { chain_type, dest },
            EngineResponse::SlateReady(slate),
        ) == Step::Call(
            Pending::Encrypt { optional: false },
            EngineRequest::CreateSlatepackMessage { slate, sender_index: 0, recipient: dest },
        ),
        session.spec_next_step(Pending::Encrypt { optional: false }, EngineResponse::Text(envelope))
            == succeed(Output::Envelope(envelope)),
        session.spec_next_step(
            Pending::DecodeSlatepack { slatepack: envelope },
            EngineResponse::Header(header),
        ) == Step::Call(
            Pending::SlateFromSlatepack { header },
            EngineRequest::SlateFromSlatepackMessage { slatepack: envelope, secret_index: 0 },
        ),
        session.spec_next_step(
            Pending::SlateFromSlatepack { header },
            EngineResponse::SlateReady(slate),
        ) == succeed(Output::Decoded(header, slate)),
        session.spec_next_session(
            Pending::SlateFromSlatepack { header },
            EngineResponse::SlateReady(slate),
        ) == session,
{
}

/// A contract with oneself has one participant, never two: where the
/// destination is the wallet's own address, the contract is asked of the
/// engine for one participant, whatever number the caller named; for any
/// other destination it is asked for at least two. Nothing else in the
/// arguments changes on the way.
pub proof fn lemma_self_addressed_contract_has_one_participant(
    session: WalletInterface,
    chain_type: ChainTypes,
    init_args: ContractNewArgsAPI,
    dest: String,
    own: String,
)
    requires
        session.owner_api is Some,
        is_slatepack_address(chain_type, dest@),
    ensures
        session.spec_create_contract(chain_type, init_args, dest) == Step::Call(
            Pending::ResolveParticipants { chain_type, dest, init_args },
            EngineRequest::GetSlatepackAddress { derivation_index: 0 },
        ),
        session.spec_next_step(
            Pending::ResolveParticipants { chain_type, dest, init_args },
            EngineResponse::Text(own),
        ) == Step::Call(
            Pending::ContractNew { chain_type, dest },
            EngineRequest::ContractNew { init_args: spec_resolved_args(init_args, own@, dest@) },
        ),
        own@ == dest@ ==> spec_resolved_args(init_args, own@, dest@).setup_args.num_participants
            == 1,
        own@ != dest@ ==> spec_resolved_args(init_args, own@, dest@).setup_args.num_participants
            >= 2,
        spec_resolved_args(init_args, own@, dest@).setup_args.net_change
            == init_args.setup_args.net_change,
        spec_resolved_args(init_args, own@, dest@).setup_args.add_outputs
            == init_args.setup_args.add_outputs,
{
}

/// The balance change that a signature is asked with tells the signer's
/// side: negative where the slate's state has the payer sign, positive
/// where it has the payee sign, and the slate's amount in size.
pub proof fn lemma_signature_is_asked_with_the_signers_change(
    session: WalletInterface,
    chain_type: ChainTypes,
    slate: Slate,
    setup_args: ContractSetupArgsAPI,
    dest: String,
)
    requires
        slate.amount > 0,
    ensures
        session.spec_sign_contract(chain_type, slate, setup_args, dest) matches Step::Call(
            _,
            EngineRequest::ContractSign { slate: sent, setup_args: asked },
        ) ==> {
            &&& sent == slate
            &&& asked.net_change matches Some(change)
            &&& slate.state.spec_signer() == Some(crate::slate::Role::Payer) ==> change
                == -(slate.amount as int)
            &&& slate.state.spec_signer() == Some(crate::slate::Role::Payee) ==> change
                == slate.amount as int
            &&& change != 0
            &&& asked.num_participants == setup_args.num_participants
            &&& asked.add_outputs == setup_args.add_outputs
        },
{
}

/// No state follows itself or an earlier one, nothing follows a terminal
/// state, and what follows `Standard1` is `Standard2` or `Standard3`.
pub proof fn lemma_slate_states_only_move_forward(a: SlateState, b: SlateState, c: SlateState)
    ensures
        !a.spec_follows(a),
        a.spec_follows(b) ==> !b.spec_follows(a),
        a.spec_follows(b) && b.spec_follows(c) ==> a.spec_follows(c),
        b.spec_is_terminal() ==> !a.spec_follows(b),
        a.spec_follows(SlateState::Standard1) ==> a == SlateState::Standard2 || a
            == SlateState::Standard3,
        a.spec_follows(SlateState::Invoice1) ==> a == SlateState::Invoice2 || a
            == SlateState::Invoice3,
        !SlateState::Unknown.spec_follows(a),
{
}

/// An envelope that an operation returns is never empty: an empty text in
/// place of an envelope ends the operation with `UnexpectedResponse`.
pub proof fn lemma_envelopes_are_never_empty(
    session: WalletInterface,
    pending: Pending,
    response: EngineResponse,
)
    ensures
        session.spec_next_step(pending, response) matches Step::Done(Ok(Output::Envelope(text)))
            ==> text@.len() > 0 && response == EngineResponse::Text(text),
        session.spec_next_step(pending, response) matches Step::Done(
            Ok(Output::MaybeEnvelope(Some(text))),
        ) ==> text@.len() > 0 && response == EngineResponse::Text(text),
{
}

/// Closing locks the keys, then stops the updater, and clears the open flag
/// only when both have succeeded: a failure of either leaves the session as
/// it was.
pub proof fn lemma_close_locks_then_stops_the_updater(
    session: WalletInterface,
    answer: EngineResponse,
)
    requires
        session.owner_api is Some,
    ensures
        session.spec_close_wallet() == Step::Call(Pending::CloseWallet, EngineRequest::CloseWallet),
        session.spec_next_step(Pending::CloseWallet, EngineResponse::Unit) == Step::Call(
            Pending::StopUpdater,
            EngineRequest::StopUpdater,
        ),
        session.spec_next_session(Pending::CloseWallet, answer) == session,
        session.spec_next_step(Pending::StopUpdater, EngineResponse::Unit) == succeed(Output::Unit),
        session.spec_next_session(Pending::StopUpdater, EngineResponse::Unit) == session.closed(),
        !session.closed().wallet_is_open,
        !(answer is Unit) ==> session.spec_next_session(Pending::StopUpdater, answer) == session,
        !(answer is Unit) ==> session.spec_next_step(Pending::StopUpdater, answer) matches Step::Done(
            Err(_),
        ),
        !(answer is Unit) ==> session.spec_next_step(Pending::CloseWallet, answer) matches Step::Done(
            Err(_),
        ),
{
}

/// Facets and destination are checked before the engine: with an owner
/// facet, `sign_contract` ends at once with `InvalidSlatepackAddress` for a
/// destination that is no slatepack address of the chain, and so does
/// `receive_tx_from_s1` with both facets.
pub proof fn lemma_signing_and_receiving_check_the_address_first(
    session: WalletInterface,
    chain_type: ChainTypes,
    slate: Slate,
    setup_args: ContractSetupArgsAPI,
    dest: String,
)
    requires
        !is_slatepack_address(chain_type, dest@),
    ensures
        session.spec_sign_contract(chain_type, slate, setup_args, dest).asks_nothing(),
        session.spec_receive_tx_from_s1(chain_type, slate, dest).asks_nothing(),
        session.owner_api is Some ==> session.spec_sign_contract(
            chain_type,
            slate,
            setup_args,
            dest,
        ) == fail(GrinWalletInterfaceError::InvalidSlatepackAddress),
        session.owner_api is Some && session.foreign_api is Some
            ==> session.spec_receive_tx_from_s1(chain_type, slate, dest) == fail(
            GrinWalletInterfaceError::InvalidSlatepackAddress,
        ),
        session.foreign_api is Some && session.owner_api is None
            ==> session.spec_receive_tx_from_s1(chain_type, slate, dest) == fail(
            GrinWalletInterfaceError::OwnerAPINotInstantiated,
        ),
{
}

/// A signed slate that is handed on has moved forward. A slate in a
/// terminal state is refused before the engine is asked. For any other,
/// whatever the engine answers to the signature, a slate that is then
/// wrapped for the destination is the engine's, bears the identifier of the
/// slate that was signed, and its state comes strictly after that slate's:
/// after `Standard1`, `Standard2` or `Standard3`.
pub proof fn lemma_signing_moves_the_slate_forward(
    session: WalletInterface,
    chain_type: ChainTypes,
    slate: Slate,
    setup_args: ContractSetupArgsAPI,
    dest: String,
    answer: EngineResponse,
)
    ensures
        slate.state.spec_is_terminal() ==> {
            let first = session.spec_sign_contract(chain_type, slate, setup_args, dest);
            first.asks_nothing() && first matches Step::Done(Err(_))
        },
        session.spec_sign_contract(chain_type, slate, setup_args, dest) matches Step::Call(
            pending,
            _,
        ) ==> (session.spec_next_step(pending, answer) matches Step::Call(_, request) ==> {
            &&& answer matches EngineResponse::Signed { slate: signed, can_finalize }
            &&& request.slate() == Some(signed)
            &&& request is CreateSlatepackMessage <==> !can_finalize
            &&& request is CreateSlatepackMessage ==> {
                &&& signed.id == slate.id
                &&& signed.state.spec_follows(slate.state)
                &&& signed.state != slate.state
                &&& slate.state == SlateState::Standard1 ==> signed.state
                    == SlateState::Standard2 || signed.state == SlateState::Standard3
            }
        }),
{
}

/// A signature that completes the contract is submitted exactly once,
/// whatever state the engine left the slate in.
///
/// The first request of `sign_contract` is the signature itself. After the
/// engine's answer there is at most one more request: the submission of the
/// signed slate, with fluff, where every participant has signed, else the
/// envelope for the destination. The answer to that request ends the operation, so no
/// second submission follows; and the operation returns no envelope
/// exactly where the slate was submitted and the submission succeeded.
pub proof fn lemma_final_signature_is_submitted_once(
    session: WalletInterface,
    chain_type: ChainTypes,
    slate: Slate,
    setup_args: ContractSetupArgsAPI,
    dest: String,
    first_answer: EngineResponse,
    second_answer: EngineResponse,
)
    ensures
        session.spec_sign_contract(chain_type, slate, setup_args, dest) matches Step::Call(
            pending,
            request,
        ) ==> {
            let second = session.spec_next_step(pending, first_answer);
            let session = session.spec_next_session(pending, first_answer);
            &&& request == (EngineRequest::ContractSign {
                slate,
                setup_args: spec_signing_args(setup_args, slate),
            })
            &&& second matches Step::Done(result) ==> result is Err
            &&& second matches Step::Call(pending, request) ==> {
                let last = session.spec_next_step(pending, second_answer);
                &&& first_answer matches EngineResponse::Signed { slate: signed, can_finalize }
                &&& can_finalize ==> request == (EngineRequest::PostTx {
                    slate: signed,
                    fluff: true,
                })
                &&& !can_finalize ==> request == (EngineRequest::CreateSlatepackMessage {
                    slate: signed,
                    sender_index: 0,
                    recipient: dest,
                })
                &&& last.asks_nothing()
                &&& last == succeed(Output::MaybeEnvelope(None)) <==> can_finalize
                    && second_answer is Unit
                &&& last matches Step::Done(Ok(output)) ==> output is MaybeEnvelope
            }
        },
{
}

/// A submission to the ledger is asked for at two points only: after a
/// signature that completed a contract, and after a send was finalized. Its
/// answer ends the operation, so that no operation submits twice.
pub proof fn lemma_submissions_end_the_operation(
    session: WalletInterface,
    pending: Pending,
    response: EngineResponse,
)
    ensures
        session.spec_next_step(pending, response) matches Step::Call(next, request) ==> {
            &&& request is PostTx <==> next is PostTx
            &&& request is PostTx ==> pending is ContractSign || pending is FinalizeTx
            &&& request matches EngineRequest::PostTx { fluff, .. } ==> fluff
        },
        session.spec_next_step(Pending::PostTx, response).asks_nothing(),
        session.spec_next_session(Pending::PostTx, response) == session,
{
}

/// Every operation ends: each answer either ends it or leaves fewer calls
/// to come, and no operation asks for more than seven calls in all.
pub proof fn lemma_operations_end(
    session: WalletInterface,
    pending: Pending,
    response: EngineResponse,
)
    ensures
        session.spec_next_step(pending, response) matches Step::Call(next, _) ==> next.calls_left()
            < pending.calls_left(),
        pending.calls_left() <= 6,
{
}

/// Every operation that succeeds returns the kind of result it is named
/// for.
pub proof fn lemma_results_have_their_kind(
    session: WalletInterface,
    pending: Pending,
    response: EngineResponse,
)
    ensures
        session.spec_next_step(pending, response) matches Step::Done(Ok(output)) ==> match pending {
            Pending::BuildWallet { .. } => output is Unit,
            Pending::StartUpdater { .. } => output is Unit,
            Pending::StopUpdater => output is Unit,
            Pending::GetMnemonic { .. } => output is Initialized,
            Pending::UpdaterMessages => output is Status,
            Pending::SummaryInfo => output is Info,
            Pending::Txs => output is Txs,
            Pending::OwnAddress => output is Address,
            Pending::SlateFromSlatepack { .. } => output is Decoded,
            Pending::PostTx => output == Output::MaybeEnvelope(None),
            Pending::CancelTx { id } => output == Output::Cancelled(id),
            Pending::Encrypt { optional } => if optional {
                output matches Output::MaybeEnvelope(Some(_))
            } else {
                output is Envelope
            },
            _ => false,
        },
{
}

} // verus!
