//! The form that starts a new contract.

use vstd::prelude::*;
use vstd::string::*;
use crate::amount::{parse_amount, spec_parse_amount};
use crate::error::{Failure, GrinWalletInterfaceError};
use crate::operation::Mode;
use crate::wallet::types::{ContractNewArgsAPI, ContractSetupArgsAPI};

verus! {

/// What the form holds.
#[derive(Debug, Clone, PartialEq, Eq)]
pub struct StateContainer {
    /// The kind of contract chosen.
    pub contract_type: ContractType,
    /// Address of the counterparty, as typed.
    pub counterparty_addr: String,
    /// Amount, as typed.
    pub amount_value: String,
    /// The amount did not read as one.
    pub amount_error: bool,
    /// The counterparty's address was refused.
    pub slatepack_address_error: bool,
}

/// The two kinds of contract: the initiator pays, or the initiator is paid.
#[derive(Debug, PartialEq, Eq, Clone, Copy, Structural)]
pub enum ContractType {
    /// The initiator pays the counterparty.
    Payment,
    /// The initiator asks the counterparty to pay.
    Invoice,
}

/// Messages of the form.
#[derive(Debug, Clone, PartialEq, Eq)]
pub enum LocalViewInteraction {
    /// Leave the form.
    Back,
    /// Another kind of contract was chosen.
    ContractTypeChanged(ContractType),
    /// The counterparty's address was edited.
    CounterpartyAddress(String),
    /// The amount was edited.
    Amount(String),
    /// The form was submitted.
    CreateContract(),
    /// The contract was created; this is its envelope.
    ContractCreatedOk(String),
    /// Creating the contract failed.
    ContractCreateError(Failure),
    /// The counterparty's address was refused.
    SlatepackAddressError,
}

/// What the shell has to do after a message.
#[derive(Debug, Clone, PartialEq, Eq)]
pub enum Command {
    /// Nothing.
    Nothing,
    /// Create the contract and hand the result, through
    /// [`completion_message`], back to the form.
    CreateContract { args: ContractNewArgsAPI, dest: String },
}

impl ContractType {
    /// The initiator's balance change for `amount`: negative where the
    /// initiator pays, positive where the initiator is paid.
    pub open spec fn spec_net_change(self, amount: int) -> int {
        match self {
            ContractType::Payment => -amount,
            ContractType::Invoice => amount,
        }
    }

    /// The initiator's balance change for `amount`, or `None` where the
    /// amount is too large for a signed 64-bit number.
    pub fn net_change(self, amount: u64) -> (change: Option<i64>)
        ensures
            change is Some <==> amount <= i64::MAX,
            change matches Some(c) ==> c == self.spec_net_change(amount as int),
    {
        if amount > 0x7fff_ffff_ffff_ffffu64 {
            return None;
        }
        let signed: i64 = amount as i64;
        match self {
            ContractType::Payment => Some(-signed),
            ContractType::Invoice => Some(signed),
        }
    }

    /// The name the kind is listed under.
    pub open spec fn spec_name(self) -> Seq<char> {
        match self {
            ContractType::Payment => "Payment"@,
            ContractType::Invoice => "Invoice"@,
        }
    }

    /// The name the kind is listed under.
    pub fn name(self) -> (s: &'static str)
        ensures
            s@ == self.spec_name(),
    {
        match self {
            ContractType::Payment => "Payment",
            ContractType::Invoice => "Invoice",
        }
    }

    /// The side the initiator is on.
    pub open spec fn spec_position(self) -> Seq<char> {
        match self {
            ContractType::Payment => "Sender"@,
            ContractType::Invoice => "Receiver"@,
        }
    }

    /// The side the initiator is on.
    pub fn position(self) -> (s: &'static str)
        ensures
            s@ == self.spec_position(),
    {
        match self {
            ContractType::Payment => "Sender",
            ContractType::Invoice => "Receiver",
        }
    }

    /// Both kinds, in the order they are listed.
    pub fn all() -> (kinds: [ContractType; 2])
        ensures
            kinds[0] == ContractType::Payment,
            kinds[1] == ContractType::Invoice,
    {
        [ContractType::Payment, ContractType::Invoice]
    }
}

/// The arguments of a new contract over `amount`: the initiator's balance
/// change by the kind of contract, outputs added at once, and two
/// participants, which creating the contract brings down to one where the
/// counterparty is the wallet itself.
pub open spec fn spec_contract_args(contract_type: ContractType, amount: u64)
    -> ContractNewArgsAPI {
    ContractNewArgsAPI {
        setup_args: ContractSetupArgsAPI {
            net_change: Some(contract_type.spec_net_change(amount as int) as i64),
            num_participants: 2,
            add_outputs: true,
        },
    }
}

/// The arguments of a new contract over `amount`, or `None` where the
/// amount is too large for a balance change.
pub fn contract_args(contract_type: ContractType, amount: u64) -> (args: Option<
    ContractNewArgsAPI,
>)
    ensures
        args is Some <==> amount <= i64::MAX,
        args matches Some(a) ==> a == spec_contract_args(contract_type, amount),
{
    match contract_type.net_change(amount) {
        Some(change) => Some(
            ContractNewArgsAPI {
                setup_args: ContractSetupArgsAPI {
                    net_change: Some(change),
                    num_participants: 2,
                    add_outputs: true,
                },
            },
        ),
        None => None,
    }
}

impl StateContainer {
    /// The empty form: a payment, nothing typed, no error shown.
    pub open spec fn is_default(self) -> bool {
        &&& self.contract_type == ContractType::Payment
        &&& self.counterparty_addr@ == Seq::<char>::empty()
        &&& self.amount_value@ == Seq::<char>::empty()
        &&& !self.amount_error
        &&& !self.slatepack_address_error
    }

    /// The amount typed into the form, where it reads as one and can stand
    /// as a balance change.
    pub open spec fn spec_amount(self) -> Option<u64> {
        match spec_parse_amount(self.amount_value@) {
            Some(amount) => if amount <= i64::MAX {
                Some(amount)
            } else {
                None
            },
            None => None,
        }
    }

    /// The amount typed into the form, where it reads as one and can stand
    /// as a balance change.
    pub fn amount(&self) -> (amount: Option<u64>)
        ensures
            amount == self.spec_amount(),
    {
        match parse_amount(self.amount_value.as_str()) {
            Some(amount) => {
                if amount <= 0x7fff_ffff_ffff_ffffu64 {
                    Some(amount)
                } else {
                    None
                }
            },
            None => None,
        }
    }
}

impl Default for StateContainer {
    fn default() -> (state: StateContainer)
        ensures
            state.is_default(),
    {
        StateContainer {
            contract_type: ContractType::Payment,
            counterparty_addr: String::new(),
            amount_value: String::new(),
            amount_error: false,
            slatepack_address_error: false,
        }
    }
}

/// The message that reports how creating the contract went: the envelope,
/// a refused address, or any other failure.
pub fn completion_message(result: Result<String, GrinWalletInterfaceError>) -> (message:
    LocalViewInteraction)
    ensures
        message == match result {
            Ok(envelope) => LocalViewInteraction::ContractCreatedOk(envelope),
            Err(GrinWalletInterfaceError::InvalidSlatepackAddress) =>
                LocalViewInteraction::SlatepackAddressError,
            Err(cause) => LocalViewInteraction::ContractCreateError(
                Failure { context: None, cause },
            ),
        },
{
    match result {
        Ok(envelope) => LocalViewInteraction::ContractCreatedOk(envelope),
        Err(GrinWalletInterfaceError::InvalidSlatepackAddress) =>
            LocalViewInteraction::SlatepackAddressError,
        Err(cause) => LocalViewInteraction::ContractCreateError(Failure { context: None, cause }),
    }
}

/// The views, the shown failure and the command after a message.
pub open spec fn spec_handle_message(
    state: crate::operation::StateContainer,
    error: Option<Failure>,
    message: LocalViewInteraction,
) -> (crate::operation::StateContainer, Option<Failure>, Command) {
    let form = state.contract_new_state;
    match message {
        LocalViewInteraction::Back => (
            crate::operation::StateContainer { mode: Mode::Home, ..state },
            error,
            Command::Nothing,
        ),
        LocalViewInteraction::ContractTypeChanged(contract_type) => (
            crate::operation::StateContainer {
                contract_new_state: StateContainer { contract_type, ..form },
                ..state
            },
            error,
            Command::Nothing,
        ),
        LocalViewInteraction::CounterpartyAddress(counterparty_addr) => (
            crate::operation::StateContainer {
                contract_new_state: StateContainer { counterparty_addr, ..form },
                ..state
            },
            error,
            Command::Nothing,
        ),
        LocalViewInteraction::Amount(amount_value) => (
            crate::operation::StateContainer {
                contract_new_state: StateContainer { amount_value, ..form },
                ..state
            },
            error,
            Command::Nothing,
        ),
        LocalViewInteraction::CreateContract() => match form.spec_amount() {
            None => (
                crate::operation::StateContainer {
                    contract_new_state: StateContainer {
                        amount_error: true,
                        slatepack_address_error: false,
                        ..form
                    },
                    ..state
                },
                None,
                Command::Nothing,
            ),
            Some(amount) => (
                crate::operation::StateContainer {
                    contract_new_state: StateContainer {
                        amount_error: false,
                        slatepack_address_error: false,
                        ..form
                    },
                    ..state
                },
                None,
                Command::CreateContract {
                    args: spec_contract_args(form.contract_type, amount),
                    dest: form.counterparty_addr,
                },
            ),
        },
        LocalViewInteraction::ContractCreatedOk(encrypted_slate) => (
            crate::operation::StateContainer {
                mode: Mode::ContractNewSuccess,
                contract_new_success_state: crate::operation::ContractNewSuccessState {
                    encrypted_slate,
                },
                ..state
            },
            error,
            Command::Nothing,
        ),
        LocalViewInteraction::ContractCreateError(failure) => (
            state,
            Some(failure),
            Command::Nothing,
        ),
        LocalViewInteraction::SlatepackAddressError => (
            crate::operation::StateContainer {
                contract_new_state: StateContainer { slatepack_address_error: true, ..form },
                ..state
            },
            error,
            Command::Nothing,
        ),
    }
}

/// Handles a message of the form.
///
/// `CreateContract` clears the shown failure and both error marks, then
/// reads the amount. An amount that does not read, or is too large for a
/// balance change, sets the amount's error mark and asks for nothing. Any
/// other asks for a contract with the counterparty's address as typed: a
/// payment takes the amount from the initiator, an invoice gives it.
pub fn handle_message(
    state: &mut crate::operation::StateContainer,
    error: &mut Option<Failure>,
    message: LocalViewInteraction,
) -> (command: Command)
    ensures
        (*final(state), *final(error), command) == spec_handle_message(
            *old(state),
            *old(error),
            message,
        ),
{
    match message {
        LocalViewInteraction::Back => {
            state.mode = Mode::Home;
        },
        LocalViewInteraction::ContractTypeChanged(contract_type) => {
            state.contract_new_state.contract_type = contract_type;
        },
        LocalViewInteraction::CounterpartyAddress(address) => {
            state.contract_new_state.counterparty_addr = address;
        },
        LocalViewInteraction::Amount(amount) => {
            state.contract_new_state.amount_value = amount;
        },
        LocalViewInteraction::CreateContract() => {
            *error = None;
            state.contract_new_state.amount_error = false;
            state.contract_new_state.slatepack_address_error = false;
            let form = &state.contract_new_state;
            let args = match form.amount() {
                Some(amount) => contract_args(form.contract_type, amount),
                None => None,
            };
            match args {
                Some(args) => {
                    return Command::CreateContract { args, dest: form.counterparty_addr.clone() };
                },
                None => {
                    state.contract_new_state.amount_error = true;
                    return Command::Nothing;
                },
            }
        },
        LocalViewInteraction::ContractCreatedOk(slate) => {
            state.contract_new_success_state.encrypted_slate = slate;
            state.mode = Mode::ContractNewSuccess;
        },
        LocalViewInteraction::ContractCreateError(failure) => {
            *error = Some(failure);
        },
        LocalViewInteraction::SlatepackAddressError => {
            state.contract_new_state.slatepack_address_error = true;
        },
    }
    Command::Nothing
}

/// The sign of a new contract's balance change tells the initiator's side:
/// a payment takes the amount from the initiator, an invoice gives it.
pub proof fn lemma_contract_type_tells_the_side(contract_type: ContractType, amount: u64)
    requires
        0 < amount <= i64::MAX,
    ensures
        spec_contract_args(contract_type, amount).setup_args.net_change matches Some(change) && (
        if contract_type == ContractType::Payment {
            change == -(amount as int) && change < 0
        } else {
            change == amount as int && change > 0
        }),
{
}

} // verus!
