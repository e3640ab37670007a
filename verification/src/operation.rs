//! The wallet's operation views: which one is shown, and what each one does
//! with the messages it is sent.

pub mod action_menu;
pub mod contract_new;
pub mod contract_sign_confirm;

use vstd::prelude::*;

verus! {

/// The view that is shown.
#[derive(Debug, Clone, Copy, PartialEq, Eq, Hash, Structural)]
pub enum Mode {
    /// The wallet has to be opened.
    Open,
    /// The home view.
    Home,
    /// The form for a new contract.
    ContractNew,
    /// The envelope of a new contract.
    ContractNewSuccess,
    /// The form that takes an envelope to sign.
    ContractSign,
    /// The decoded contract, waiting to be accepted.
    ContractSignConfirm,
    /// The outcome of a signature.
    ContractSignSuccess,
}

/// State of the view that shows a freshly made contract.
#[derive(Debug, Clone, PartialEq, Eq)]
pub struct ContractNewSuccessState {
    /// The envelope to hand to the counterparty.
    pub encrypted_slate: String,
}

/// State of the view that shows a signed contract.
#[derive(Debug, Clone, PartialEq, Eq)]
pub struct ContractSignSuccessState {
    /// The envelope to hand back, or `None` where the transaction went to
    /// the ledger.
    pub encrypted_slate: Option<String>,
}

/// State of all operation views.
#[derive(Debug, Clone, PartialEq, Eq)]
pub struct StateContainer {
    /// The view that is shown.
    pub mode: Mode,
    /// Set when a check found the wallet closed; stays set until a wallet
    /// is opened with its password.
    pub has_wallet_open_check_failed_one_time: bool,
    /// The form for a new contract.
    pub contract_new_state: contract_new::StateContainer,
    /// The envelope of the contract that was made last.
    pub contract_new_success_state: ContractNewSuccessState,
    /// The decoded contract that waits to be accepted.
    pub contract_sign_confirm_state: contract_sign_confirm::StateContainer,
    /// The outcome of the last signature.
    pub contract_sign_success_state: ContractSignSuccessState,
}

impl StateContainer {
    /// The state at start: the home view, every form empty.
    pub open spec fn is_default(self) -> bool {
        &&& self.mode == Mode::Home
        &&& !self.has_wallet_open_check_failed_one_time
        &&& self.contract_new_state.is_default()
        &&& self.contract_new_success_state.encrypted_slate@ == Seq::<char>::empty()
        &&& self.contract_sign_confirm_state.is_default()
        &&& self.contract_sign_success_state.encrypted_slate is None
    }

    /// Whether a check has found the wallet closed.
    pub fn wallet_not_open(&self) -> (b: bool)
        ensures
            b == self.has_wallet_open_check_failed_one_time,
    {
        self.has_wallet_open_check_failed_one_time
    }

    /// Records that the wallet was found closed and shows the open view.
    pub fn set_wallet_not_open(&mut self)
        ensures
            *final(self) == (StateContainer {
                has_wallet_open_check_failed_one_time: true,
                mode: Mode::Open,
                ..*old(self)
            }),
    {
        self.has_wallet_open_check_failed_one_time = true;
        self.mode = Mode::Open;
    }

    /// Forgets that the wallet was found closed.
    pub fn clear_wallet_not_open(&mut self)
        ensures
            *final(self) == (StateContainer {
                has_wallet_open_check_failed_one_time: false,
                ..*old(self)
            }),
    {
        self.has_wallet_open_check_failed_one_time = false;
    }
}

impl Default for StateContainer {
    fn default() -> (state: StateContainer)
        ensures
            state.is_default(),
    {
        StateContainer {
            mode: Mode::Home,
            has_wallet_open_check_failed_one_time: false,
            contract_new_state: contract_new::StateContainer::default(),
            contract_new_success_state: ContractNewSuccessState { encrypted_slate: String::new() },
            contract_sign_confirm_state: contract_sign_confirm::StateContainer::default(),
            contract_sign_success_state: ContractSignSuccessState { encrypted_slate: None },
        }
    }
}

} // verus!
