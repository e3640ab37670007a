//! The view that shows a decoded contract and asks whether to sign it.

use vstd::prelude::*;
use vstd::string::*;
use crate::error::{Failure, GrinWalletInterfaceError};
use crate::operation::Mode;
use crate::slate::{Slate, SlateState, Slatepack};
use crate::wallet::types::ContractSetupArgsAPI;

verus! {

/// What the view holds.
#[derive(Debug, Clone, PartialEq, Eq)]
pub struct StateContainer {
    /// The wallet's own address, as shown.
    pub address_value: String,
    /// What reading the envelope gave, as text.
    pub slatepack_read_result: String,
    /// The decoded envelope: its header and its slate.
    pub slatepack_parsed: Option<(Slatepack, Slate)>,
}

/// Messages of the view.
#[derive(Debug, Clone, PartialEq, Eq)]
pub enum LocalViewInteraction {
    /// Leave the view.
    Back,
    /// Sign the contract that is shown.
    Accept,
    /// The contract was signed: the envelope to hand back, or `None` where
    /// the transaction went to the ledger.
    TxAcceptSuccess(Option<String>),
    /// Signing failed.
    TxAcceptFailure(Failure),
}

/// What the shell has to do after a message.
#[derive(Debug, Clone, PartialEq, Eq)]
pub enum Command {
    /// Nothing.
    Nothing,
    /// Sign the contract and hand the result, through
    /// [`completion_message`], back to the view.
    SignContract { slate: Slate, setup_args: ContractSetupArgsAPI, dest: String },
}

/// What the failure of a signature is reported as.
pub const SIGN_FAILURE_CONTEXT: &'static str = "Failed to Progress Transaction";

/// The text shown where an envelope names no sender.
pub const NO_SENDER: &'static str = "None";

/// The address that the signed contract goes back to: the sender's, or the
/// word `None` where the envelope names no sender. That word is no
/// address: the signature of such an envelope is refused, before the engine
/// is asked, with `InvalidSlatepackAddress`.
pub open spec fn spec_sending_address(slatepack: Slatepack) -> Seq<char> {
    match slatepack.sender {
        None => NO_SENDER@,
        Some(sender) => sender@,
    }
}

/// The address that the signed contract goes back to.
pub fn sending_address(slatepack: &Slatepack) -> (address: String)
    ensures
        address@ == spec_sending_address(*slatepack),
        slatepack.sender matches Some(sender) ==> address == sender,
{
    match &slatepack.sender {
        None => NO_SENDER.to_owned(),
        Some(sender) => sender.clone(),
    }
}

/// The arguments for signing `slate`: the signer's balance change, all else
/// as a party that says nothing.
pub open spec fn spec_setup_args(slate: Slate) -> ContractSetupArgsAPI {
    ContractSetupArgsAPI {
        net_change: Some(slate.spec_net_change() as i64),
        ..ContractSetupArgsAPI::spec_default()
    }
}

/// The arguments for signing `slate`, or `None` where its amount is too
/// large for a balance change.
pub fn setup_args(slate: &Slate) -> (args: Option<ContractSetupArgsAPI>)
    ensures
        args is Some <==> slate.spec_amount_fits(),
        args matches Some(a) ==> a == spec_setup_args(*slate),
{
    match slate.net_change() {
        Some(change) => Some(
            ContractSetupArgsAPI { net_change: Some(change), num_participants: 2, add_outputs: false },
        ),
        None => None,
    }
}

/// What the view says of a slate in `state`.
pub open spec fn spec_state_description(state: SlateState) -> Seq<char> {
    match state {
        SlateState::Standard1 => "You are the recipient - Standard workflow"@,
        SlateState::Standard2 => "You are the payee, and are finalizing the transaction and sending it to the chain for validation - Standard workflow"@,
        SlateState::Standard3 => "This transaction is finalised - Standard workflow"@,
        _ => "Support still in development"@,
    }
}

/// What the view says of a slate in `state`.
pub fn state_description(state: SlateState) -> (text: &'static str)
    ensures
        text@ == spec_state_description(state),
{
    match state {
        SlateState::Standard1 => "You are the recipient - Standard workflow",
        SlateState::Standard2 => "You are the payee, and are finalizing the transaction and sending it to the chain for validation - Standard workflow",
        SlateState::Standard3 => "This transaction is finalised - Standard workflow",
        _ => "Support still in development",
    }
}

/// Whether the view withholds the button that signs: it offers it for the
/// first two states of the standard flow only.
pub fn hide_continue(state: SlateState) -> (hide: bool)
    ensures
        hide == (state != SlateState::Standard1 && state != SlateState::Standard2),
        state.spec_is_terminal() ==> hide,
{
    match state {
        SlateState::Standard1 | SlateState::Standard2 => false,
        _ => true,
    }
}

impl StateContainer {
    /// The view before an envelope was read.
    pub open spec fn is_default(self) -> bool {
        &&& self.address_value@ == Seq::<char>::empty()
        &&& self.slatepack_read_result@ == Seq::<char>::empty()
        &&& self.slatepack_parsed is None
    }
}

impl Default for StateContainer {
    fn default() -> (state: StateContainer)
        ensures
            state.is_default(),
    {
        StateContainer {
            address_value: String::new(),
            slatepack_read_result: String::new(),
            slatepack_parsed: None,
        }
    }
}

/// The message that reports how signing went.
pub fn completion_message(result: Result<Option<String>, GrinWalletInterfaceError>) -> (message:
    LocalViewInteraction)
    ensures
        message == match result {
            Ok(envelope) => LocalViewInteraction::TxAcceptSuccess(envelope),
            Err(cause) => LocalViewInteraction::TxAcceptFailure(
                Failure { context: Some(SIGN_FAILURE_CONTEXT), cause },
            ),
        },
{
    match result {
        Ok(envelope) => LocalViewInteraction::TxAcceptSuccess(envelope),
        Err(cause) => LocalViewInteraction::TxAcceptFailure(
            Failure { context: Some(SIGN_FAILURE_CONTEXT), cause },
        ),
    }
}

/// The failure shown where a slate's amount cannot stand as a balance
/// change.
pub open spec fn amount_failure() -> Failure {
    Failure {
        context: Some(SIGN_FAILURE_CONTEXT),
        cause: GrinWalletInterfaceError::InvalidSlateState,
    }
}

/// The views, the shown failure and the command after a message.
pub open spec fn spec_handle_message(
    state: crate::operation::StateContainer,
    error: Option<Failure>,
    message: LocalViewInteraction,
) -> (crate::operation::StateContainer, Option<Failure>) {
    match message {
        LocalViewInteraction::Back => (
            crate::operation::StateContainer { mode: Mode::Home, ..state },
            error,
        ),
        LocalViewInteraction::Accept => match state.contract_sign_confirm_state.slatepack_parsed {
            None => (state, None),
            Some((slatepack, slate)) => if slate.spec_amount_fits() {
                (state, None)
            } else {
                (state, Some(amount_failure()))
            },
        },
        LocalViewInteraction::TxAcceptSuccess(encrypted_slate) => (
            crate::operation::StateContainer {
                mode: Mode::ContractSignSuccess,
                contract_sign_success_state: crate::operation::ContractSignSuccessState {
                    encrypted_slate,
                },
                ..state
            },
            error,
        ),
        LocalViewInteraction::TxAcceptFailure(failure) => (state, Some(failure)),
    }
}

/// Whether `command` is what `Accept` asks for in `state`: nothing where no
/// envelope was decoded or the amount is too large; else a signature over
/// the decoded slate, with the signer's balance change, sent back to the
/// envelope's sender.
pub open spec fn accept_command(state: StateContainer, command: Command) -> bool {
    match state.slatepack_parsed {
        None => command == Command::Nothing,
        Some((slatepack, slate)) => if slate.spec_amount_fits() {
            &&& command matches Command::SignContract { slate: out, setup_args, dest }
            &&& out == slate
            &&& setup_args == spec_setup_args(slate)
            &&& dest@ == spec_sending_address(slatepack)
        } else {
            command == Command::Nothing
        },
    }
}

/// Handles a message of the view.
///
/// `Accept` clears the shown failure. With a decoded envelope it asks for a
/// signature whose balance change follows from the slate's state: negative
/// where the signer pays, positive where the signer is paid.
pub fn handle_message(
    state: &mut crate::operation::StateContainer,
    error: &mut Option<Failure>,
    message: LocalViewInteraction,
) -> (command: Command)
    ensures
        (*final(state), *final(error)) == spec_handle_message(*old(state), *old(error), message),
        message is Accept ==> accept_command(old(state).contract_sign_confirm_state, command),
        !(message is Accept) ==> command == Command::Nothing,
{
    match message {
        LocalViewInteraction::Back => {
            state.mode = Mode::Home;
        },
        LocalViewInteraction::Accept => {
            *error = None;
            match &state.contract_sign_confirm_state.slatepack_parsed {
                None => {
                    return Command::Nothing;
                },
                Some((slatepack, slate)) => {
                    let dest = sending_address(slatepack);
                    match setup_args(slate) {
                        Some(args) => {
                            return Command::SignContract {
                                slate: slate.duplicate(),
                                setup_args: args,
                                dest,
                            };
                        },
                        None => {
                            *error = Some(
                                Failure {
                                    context: Some(SIGN_FAILURE_CONTEXT),
                                    cause: GrinWalletInterfaceError::InvalidSlateState,
                                },
                            );
                            return Command::Nothing;
                        },
                    }
                },
            }
        },
        LocalViewInteraction::TxAcceptSuccess(slate) => {
            state.contract_sign_success_state.encrypted_slate = slate;
            state.mode = Mode::ContractSignSuccess;
        },
        LocalViewInteraction::TxAcceptFailure(failure) => {
            *error = Some(failure);
        },
    }
    Command::Nothing
}

} // verus!
