//! The menu of the home view.

use vstd::prelude::*;
use crate::operation::Mode;

verus! {

/// State of the menu: it has none.
#[derive(Debug, Clone, Copy, PartialEq, Eq, Structural)]
pub struct StateContainer {

}

impl Default for StateContainer {
    fn default() -> (state: StateContainer)
        ensures
            state == (StateContainer {  }),
    {
        StateContainer {  }
    }
}

/// What the menu offers.
#[derive(Debug, Clone, Copy, PartialEq, Eq, Hash, Structural)]
pub enum Action {
    /// Start a new contract.
    CreateTx,
    /// Sign a contract that came in.
    ApplyTx,
}

/// Messages of the menu.
#[derive(Debug, Clone, Copy, PartialEq, Eq, Structural)]
pub enum LocalViewInteraction {
    /// An entry of the menu was chosen.
    SelectAction(Action),
}

/// The view that an entry of the menu leads to.
pub open spec fn spec_target(action: Action) -> Mode {
    match action {
        Action::CreateTx => Mode::ContractNew,
        Action::ApplyTx => Mode::ContractSign,
    }
}

/// Handles a message of the menu: shows the view of the chosen entry.
pub fn handle_message(state: &mut crate::operation::StateContainer, message: LocalViewInteraction)
    ensures
        *final(state) == (crate::operation::StateContainer {
            mode: spec_target(message->SelectAction_0),
            ..*old(state)
        }),
{
    match message {
        LocalViewInteraction::SelectAction(action) => {
            match action {
                Action::CreateTx => {
                    state.mode = Mode::ContractNew;
                },
                Action::ApplyTx => {
                    state.mode = Mode::ContractSign;
                },
            }
        },
    }
}

} // verus!
