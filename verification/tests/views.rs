use grin_gui::error::{Failure, GrinWalletInterfaceError};
use grin_gui::operation::action_menu;
use grin_gui::operation::contract_new;
use grin_gui::operation::contract_new::ContractType;
use grin_gui::operation::contract_sign_confirm;
use grin_gui::operation::contract_sign_confirm::{hide_continue, sending_address, state_description};
use grin_gui::slate::SlateState::{Invoice1, Invoice2, Invoice3, Standard1, Standard2, Standard3, Unknown};
use grin_gui::operation::{Mode, StateContainer};
use grin_gui::slate::{Role, Slate, SlateState, Slatepack};
use grin_gui::wallet::{ContractNewArgsAPI, ContractSetupArgsAPI};

const OWN: &str = "tgrin1xtxavwfgs48ckf3gk8wwgcndmn0nt4tvkl8a7ltyejjcy2mc6nfs9gm2lp";
const OTHER: &str = "tgrin1other";

fn form(kind: ContractType, counterparty: &str, amount: &str) -> StateContainer {
    let mut state = StateContainer::default();
    state.mode = Mode::ContractNew;
    state.contract_new_state.contract_type = kind;
    state.contract_new_state.counterparty_addr = counterparty.to_string();
    state.contract_new_state.amount_value = amount.to_string();
    state
}

fn parsed(state: SlateState, amount: u64, sender: Option<&str>) -> (Slatepack, Slate) {
    (
        Slatepack { mode: 1, sender: sender.map(|s| s.to_string()), recipients: vec![OWN.to_string()] },
        Slate { id: 9, amount, num_participants: 2, state, data: "{}".to_string() },
    )
}

fn confirm(state: SlateState, amount: u64, sender: Option<&str>) -> StateContainer {
    let mut views = StateContainer::default();
    views.mode = Mode::ContractSignConfirm;
    views.contract_sign_confirm_state.slatepack_parsed = Some(parsed(state, amount, sender));
    views
}

fn args(net_change: i64, num_participants: u8) -> ContractNewArgsAPI {
    ContractNewArgsAPI {
        setup_args: ContractSetupArgsAPI {
            net_change: Some(net_change),
            num_participants,
            add_outputs: true,
        },
    }
}

#[test]
fn the_views_start_at_home() {
    let state = StateContainer::default();
    assert_eq!(state.mode, Mode::Home);
    assert!(!state.wallet_not_open());
    assert_eq!(state.contract_new_state.contract_type, ContractType::Payment);
    assert_eq!(state.contract_new_state.counterparty_addr, "");
    assert_eq!(state.contract_new_state.amount_value, "");
    assert!(!state.contract_new_state.amount_error);
    assert!(!state.contract_new_state.slatepack_address_error);
    assert_eq!(state.contract_new_success_state.encrypted_slate, "");
    assert_eq!(state.contract_sign_confirm_state.slatepack_parsed, None);
    assert_eq!(state.contract_sign_success_state.encrypted_slate, None);
}

#[test]
fn a_closed_wallet_shows_the_open_view() {
    let mut state = StateContainer::default();
    state.set_wallet_not_open();
    assert!(state.wallet_not_open());
    assert_eq!(state.mode, Mode::Open);
    state.clear_wallet_not_open();
    assert!(!state.wallet_not_open());
    assert_eq!(state.mode, Mode::Open);
}

#[test]
fn the_menu_leads_to_the_contract_views() {
    let mut state = StateContainer::default();
    action_menu::handle_message(
        &mut state,
        action_menu::LocalViewInteraction::SelectAction(action_menu::Action::CreateTx),
    );
    assert_eq!(state.mode, Mode::ContractNew);
    action_menu::handle_message(
        &mut state,
        action_menu::LocalViewInteraction::SelectAction(action_menu::Action::ApplyTx),
    );
    assert_eq!(state.mode, Mode::ContractSign);
}

#[test]
fn contract_types() {
    assert_eq!(ContractType::all(), [ContractType::Payment, ContractType::Invoice]);
    assert_eq!(ContractType::Payment.name(), "Payment");
    assert_eq!(ContractType::Invoice.name(), "Invoice");
    assert_eq!(ContractType::Payment.position(), "Sender");
    assert_eq!(ContractType::Invoice.position(), "Receiver");
    assert_eq!(ContractType::Payment.net_change(500_000_000), Some(-500_000_000));
    assert_eq!(ContractType::Invoice.net_change(500_000_000), Some(500_000_000));
    assert_eq!(ContractType::Payment.net_change(i64::MAX as u64), Some(-i64::MAX));
    assert_eq!(ContractType::Payment.net_change(i64::MAX as u64 + 1), None);
    assert_eq!(ContractType::Invoice.net_change(u64::MAX), None);
    assert_eq!(ContractType::Invoice.net_change(0), Some(0));
}

#[test]
fn results_of_creating_come_back_as_messages() {
    assert_eq!(
        contract_new::completion_message(Ok("envelope".to_string())),
        contract_new::LocalViewInteraction::ContractCreatedOk("envelope".to_string())
    );
    assert_eq!(
        contract_new::completion_message(Err(GrinWalletInterfaceError::InvalidSlatepackAddress)),
        contract_new::LocalViewInteraction::SlatepackAddressError
    );
    assert_eq!(
        contract_new::completion_message(Err(GrinWalletInterfaceError::OwnerAPINotInstantiated)),
        contract_new::LocalViewInteraction::ContractCreateError(Failure {
            context: None,
            cause: GrinWalletInterfaceError::OwnerAPINotInstantiated
        })
    );
    assert_eq!(
        contract_new::completion_message(Err(GrinWalletInterfaceError::EngineError("no funds".to_string()))),
        contract_new::LocalViewInteraction::ContractCreateError(Failure {
            context: None,
            cause: GrinWalletInterfaceError::EngineError("no funds".to_string())
        })
    );
}

#[test]
fn the_signer_of_each_state() {
    assert_eq!(SlateState::Standard1.signer(), Some(Role::Payee));
    assert_eq!(SlateState::Standard2.signer(), Some(Role::Payer));
    assert_eq!(SlateState::Invoice1.signer(), Some(Role::Payer));
    assert_eq!(SlateState::Invoice2.signer(), Some(Role::Payee));
    assert_eq!(SlateState::Unknown.signer(), None);
    assert_eq!(SlateState::Standard3.signer(), None);
    assert_eq!(SlateState::Invoice3.signer(), None);
}

#[test]
fn the_balance_change_of_the_signer() {
    let change = |state| parsed(state, 500_000_000, None).1.net_change();
    assert_eq!(change(SlateState::Standard1), Some(500_000_000));
    assert_eq!(change(SlateState::Standard2), Some(-500_000_000));
    assert_eq!(change(SlateState::Invoice1), Some(-500_000_000));
    assert_eq!(change(SlateState::Invoice2), Some(500_000_000));
    assert_eq!(change(SlateState::Unknown), Some(500_000_000));
    assert_eq!(change(SlateState::Standard3), Some(500_000_000));
    assert_eq!(parsed(SlateState::Standard2, i64::MAX as u64, None).1.net_change(), Some(-i64::MAX));
    assert_eq!(parsed(SlateState::Standard2, i64::MAX as u64 + 1, None).1.net_change(), None);
    assert_eq!(parsed(SlateState::Standard1, u64::MAX, None).1.net_change(), None);
}

#[test]
fn slate_states_in_order() {
    let all = [Unknown, Standard1, Standard2, Standard3, Invoice1, Invoice2, Invoice3];
    let rounds = [0u8, 1, 2, 3, 1, 2, 3];
    for (state, round) in all.iter().zip(rounds.iter()) {
        assert_eq!(state.round(), *round);
        assert!(!state.follows(*state));
        assert!(!Unknown.follows(*state));
        assert!(!state.follows(Standard3));
        assert!(!state.follows(Invoice3));
        assert_eq!(state.is_terminal(), *round == 3);
    }
    assert!(Standard2.follows(Standard1));
    assert!(Standard3.follows(Standard1));
    assert!(Standard3.follows(Standard2));
    assert!(Invoice2.follows(Invoice1));
    assert!(Invoice3.follows(Invoice2));
    assert!(Standard1.follows(Unknown));
    assert!(Invoice3.follows(Unknown));
    assert!(!Standard1.follows(Standard2));
    assert!(!Invoice2.follows(Standard1));
    assert!(!Standard3.follows(Invoice2));
    assert!(Invoice1.is_invoice() && !Standard1.is_invoice() && !Unknown.is_invoice());
    assert_eq!(Standard1.code(), "S1");
    assert_eq!(Invoice3.code(), "I3");
    assert_eq!(Unknown.code(), "UN");
}

#[test]
fn accepting_a_payment_as_the_recipient() {
    let mut views = confirm(SlateState::Standard1, 500_000_000, Some(OWN));
    let mut error = Some(Failure { context: None, cause: GrinWalletInterfaceError::InvalidSlateState });
    let command = contract_sign_confirm::handle_message(
        &mut views,
        &mut error,
        contract_sign_confirm::LocalViewInteraction::Accept,
    );
    assert_eq!(
        command,
        contract_sign_confirm::Command::SignContract {
            slate: parsed(SlateState::Standard1, 500_000_000, None).1,
            setup_args: ContractSetupArgsAPI {
                net_change: Some(500_000_000),
                num_participants: 2,
                add_outputs: false
            },
            dest: OWN.to_string(),
        }
    );
    assert_eq!(error, None);
    assert_eq!(views, confirm(SlateState::Standard1, 500_000_000, Some(OWN)));
}

#[test]
fn accepting_as_the_payer_is_a_negative_change() {
    for state in [SlateState::Standard2, SlateState::Invoice1] {
        let mut views = confirm(state, 7, None);
        let mut error = None;
        let command = contract_sign_confirm::handle_message(
            &mut views,
            &mut error,
            contract_sign_confirm::LocalViewInteraction::Accept,
        );
        match command {
            contract_sign_confirm::Command::SignContract { setup_args, dest, slate } => {
                assert_eq!(setup_args.net_change, Some(-7));
                assert_eq!(dest, "None");
                assert_eq!(slate.state, state);
            }
            other => panic!("unexpected {:?}", other),
        }
    }
}

#[test]
fn accepting_without_an_envelope_does_nothing() {
    let mut views = StateContainer::default();
    let mut error = Some(Failure { context: None, cause: GrinWalletInterfaceError::InvalidSlateState });
    let command = contract_sign_confirm::handle_message(
        &mut views,
        &mut error,
        contract_sign_confirm::LocalViewInteraction::Accept,
    );
    assert_eq!(command, contract_sign_confirm::Command::Nothing);
    assert_eq!(error, None);
}

#[test]
fn accepting_an_amount_out_of_range_is_a_failure() {
    let mut views = confirm(SlateState::Standard1, u64::MAX, Some(OWN));
    let mut error = None;
    let command = contract_sign_confirm::handle_message(
        &mut views,
        &mut error,
        contract_sign_confirm::LocalViewInteraction::Accept,
    );
    assert_eq!(command, contract_sign_confirm::Command::Nothing);
    assert_eq!(
        error,
        Some(Failure {
            context: Some("Failed to Progress Transaction"),
            cause: GrinWalletInterfaceError::InvalidSlateState
        })
    );
}

#[test]
fn results_of_signing_come_back_as_messages() {
    assert_eq!(
        contract_sign_confirm::completion_message(Ok(None)),
        contract_sign_confirm::LocalViewInteraction::TxAcceptSuccess(None)
    );
    assert_eq!(
        contract_sign_confirm::completion_message(Ok(Some("env".to_string()))),
        contract_sign_confirm::LocalViewInteraction::TxAcceptSuccess(Some("env".to_string()))
    );
    assert_eq!(
        contract_sign_confirm::completion_message(Err(GrinWalletInterfaceError::InvalidSlatepackAddress)),
        contract_sign_confirm::LocalViewInteraction::TxAcceptFailure(Failure {
            context: Some("Failed to Progress Transaction"),
            cause: GrinWalletInterfaceError::InvalidSlatepackAddress
        })
    );
}

#[test]
fn the_confirm_view_shows_how_signing_went() {
    let mut views = confirm(SlateState::Standard2, 7, None);
    let mut error = None;
    let none = contract_sign_confirm::Command::Nothing;
    let failure = Failure {
        context: Some("Failed to Progress Transaction"),
        cause: GrinWalletInterfaceError::EngineError("x".to_string()),
    };
    assert_eq!(
        contract_sign_confirm::handle_message(&mut views, &mut error, contract_sign_confirm::LocalViewInteraction::TxAcceptFailure(failure.clone())),
        none
    );
    assert_eq!(error, Some(failure.clone()));
    assert_eq!(views.mode, Mode::ContractSignConfirm);
    assert_eq!(
        contract_sign_confirm::handle_message(&mut views, &mut error, contract_sign_confirm::LocalViewInteraction::TxAcceptSuccess(None)),
        none
    );
    assert_eq!(views.mode, Mode::ContractSignSuccess);
    assert_eq!(views.contract_sign_success_state.encrypted_slate, None);
    assert_eq!(error, Some(failure));
    assert_eq!(
        contract_sign_confirm::handle_message(&mut views, &mut error, contract_sign_confirm::LocalViewInteraction::TxAcceptSuccess(Some("e".to_string()))),
        none
    );
    assert_eq!(views.contract_sign_success_state.encrypted_slate, Some("e".to_string()));
    assert_eq!(contract_sign_confirm::handle_message(&mut views, &mut error, contract_sign_confirm::LocalViewInteraction::Back), none);
    assert_eq!(views.mode, Mode::Home);
}

#[test]
fn what_the_confirm_view_says_of_a_slate() {
    assert_eq!(state_description(SlateState::Standard1), "You are the recipient - Standard workflow");
    assert_eq!(
        state_description(SlateState::Standard2),
        "You are the payee, and are finalizing the transaction and sending it to the chain for validation - Standard workflow"
    );
    assert_eq!(state_description(SlateState::Standard3), "This transaction is finalised - Standard workflow");
    assert_eq!(state_description(SlateState::Invoice1), "Support still in development");
    assert_eq!(state_description(SlateState::Unknown), "Support still in development");
    assert!(!hide_continue(SlateState::Standard1));
    assert!(!hide_continue(SlateState::Standard2));
    for state in [SlateState::Standard3, SlateState::Invoice1, SlateState::Invoice2, SlateState::Invoice3, SlateState::Unknown] {
        assert!(hide_continue(state));
    }
    assert_eq!(sending_address(&Slatepack { mode: 0, sender: None, recipients: Vec::new() }), "None");
    assert_eq!(sending_address(&Slatepack { mode: 1, sender: Some(OWN.to_string()), recipients: vec![OWN.to_string()] }), OWN);
}

#[test]
fn the_arguments_of_a_new_contract() {
    assert_eq!(contract_new::contract_args(ContractType::Payment, 5), Some(args(-5, 2)));
    assert_eq!(contract_new::contract_args(ContractType::Invoice, 5), Some(args(5, 2)));
    assert_eq!(
        contract_new::contract_args(ContractType::Payment, i64::MAX as u64),
        Some(args(-i64::MAX, 2))
    );
    assert_eq!(contract_new::contract_args(ContractType::Invoice, i64::MAX as u64 + 1), None);
    assert_eq!(contract_new::contract_args(ContractType::Payment, u64::MAX), None);
}

#[test]
fn typing_into_the_form() {
    let mut state = StateContainer::default();
    let mut error = None;
    let none = contract_new::Command::Nothing;
    assert_eq!(
        contract_new::handle_message(
            &mut state,
            &mut error,
            contract_new::LocalViewInteraction::ContractTypeChanged(ContractType::Invoice)
        ),
        none
    );
    assert_eq!(
        contract_new::handle_message(
            &mut state,
            &mut error,
            contract_new::LocalViewInteraction::CounterpartyAddress(OTHER.to_string())
        ),
        none
    );
    assert_eq!(
        contract_new::handle_message(
            &mut state,
            &mut error,
            contract_new::LocalViewInteraction::Amount("1.5".to_string())
        ),
        none
    );
    assert_eq!(state.contract_new_state.contract_type, ContractType::Invoice);
    assert_eq!(state.contract_new_state.counterparty_addr, OTHER);
    assert_eq!(state.contract_new_state.amount_value, "1.5");
    assert_eq!(state.contract_new_state.amount(), Some(1_500_000_000));
    state.mode = Mode::ContractNew;
    assert_eq!(
        contract_new::handle_message(&mut state, &mut error, contract_new::LocalViewInteraction::Back),
        none
    );
    assert_eq!(state.mode, Mode::Home);
    assert_eq!(error, None);
}

#[test]
fn creating_a_payment() {
    let mut state = form(ContractType::Payment, OTHER, "0.5");
    state.contract_new_state.amount_error = true;
    state.contract_new_state.slatepack_address_error = true;
    let mut error = Some(Failure { context: None, cause: GrinWalletInterfaceError::InvalidSlateState });
    let command = contract_new::handle_message(
        &mut state,
        &mut error,
        contract_new::LocalViewInteraction::CreateContract(),
    );
    assert_eq!(
        command,
        contract_new::Command::CreateContract { args: args(-500_000_000, 2), dest: OTHER.to_string() }
    );
    assert_eq!(error, None);
    assert!(!state.contract_new_state.amount_error);
    assert!(!state.contract_new_state.slatepack_address_error);
    assert_eq!(state.mode, Mode::ContractNew);
}

#[test]
fn creating_an_invoice() {
    let mut state = form(ContractType::Invoice, OWN, "3");
    let mut error = None;
    let command = contract_new::handle_message(
        &mut state,
        &mut error,
        contract_new::LocalViewInteraction::CreateContract(),
    );
    assert_eq!(
        command,
        contract_new::Command::CreateContract { args: args(3_000_000_000, 2), dest: OWN.to_string() }
    );
}

#[test]
fn an_amount_that_does_not_read_marks_the_form() {
    for amount in ["abc", "1,5", "18446744074", "10000000000", "9999999999", "9223372036.854775808"] {
        let mut state = form(ContractType::Payment, OTHER, amount);
        state.contract_new_state.slatepack_address_error = true;
        let mut error =
            Some(Failure { context: None, cause: GrinWalletInterfaceError::InvalidSlateState });
        let command = contract_new::handle_message(
            &mut state,
            &mut error,
            contract_new::LocalViewInteraction::CreateContract(),
        );
        assert_eq!(command, contract_new::Command::Nothing, "{}", amount);
        assert!(state.contract_new_state.amount_error);
        assert!(!state.contract_new_state.slatepack_address_error);
        assert_eq!(error, None);
    }
    let mut state = form(ContractType::Payment, OTHER, "9223372036.854775807");
    let mut error = None;
    assert_eq!(
        contract_new::handle_message(
            &mut state,
            &mut error,
            contract_new::LocalViewInteraction::CreateContract()
        ),
        contract_new::Command::CreateContract { args: args(-i64::MAX, 2), dest: OTHER.to_string() }
    );
    assert!(!state.contract_new_state.amount_error);
}

#[test]
fn the_form_shows_how_creating_went() {
    let mut state = form(ContractType::Payment, OTHER, "1");
    let mut error = None;
    contract_new::handle_message(
        &mut state,
        &mut error,
        contract_new::LocalViewInteraction::SlatepackAddressError,
    );
    assert!(state.contract_new_state.slatepack_address_error);
    assert_eq!(state.mode, Mode::ContractNew);

    let failure = Failure { context: None, cause: GrinWalletInterfaceError::EngineError("x".to_string()) };
    contract_new::handle_message(
        &mut state,
        &mut error,
        contract_new::LocalViewInteraction::ContractCreateError(failure.clone()),
    );
    assert_eq!(error, Some(failure));
    assert_eq!(state.mode, Mode::ContractNew);

    contract_new::handle_message(
        &mut state,
        &mut error,
        contract_new::LocalViewInteraction::ContractCreatedOk("env".to_string()),
    );
    assert_eq!(state.mode, Mode::ContractNewSuccess);
    assert_eq!(state.contract_new_success_state.encrypted_slate, "env");
}
