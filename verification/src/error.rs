//! Errors reported by the wallet interface.

use vstd::prelude::*;
use vstd::string::*;

verus! {

/// Why a wallet operation did not succeed.
///
/// `ConfigError`, `EngineInitError` and `EngineError` carry the engine's own
/// description of a failure and are handed on unchanged. Every other
/// variant is found by the coordinator itself.
#[derive(Clone, Debug, PartialEq, Eq)]
pub enum GrinWalletInterfaceError {
    /// The operation needs the owner facet, and none exists.
    OwnerAPINotInstantiated,
    /// The operation needs the foreign facet, and none exists.
    ForeignAPINotInstantiated,
    /// The destination is not a slatepack address of the given network.
    InvalidSlatepackAddress,
    /// The slate cannot take part in the requested step: it is already in a
    /// terminal state, the engine handed back a slate that did not move
    /// forward, or its amount is too large to stand as a balance change.
    InvalidSlateState,
    /// The wallet configuration could not be read or written.
    ConfigError(String),
    /// The ledger engine could not be constructed.
    EngineInitError(String),
    /// A failure raised by the ledger engine while it carried out a request.
    EngineError(String),
    /// The answer handed to the coordinator does not belong to the request
    /// that it had issued.
    UnexpectedResponse,
}

impl GrinWalletInterfaceError {
    /// True for the failures that are found without the engine's help.
    pub open spec fn is_local(self) -> bool {
        self is OwnerAPINotInstantiated || self is ForeignAPINotInstantiated
            || self is InvalidSlatepackAddress || self is InvalidSlateState
            || self is UnexpectedResponse
    }

    /// The failure in words: a fixed text for what the coordinator found
    /// itself, the engine's own description after a fixed opening for the
    /// rest.
    pub open spec fn spec_describe(self) -> Seq<char> {
        match self {
            GrinWalletInterfaceError::OwnerAPINotInstantiated => "Owner API not Instantiated"@,
            GrinWalletInterfaceError::ForeignAPINotInstantiated => "Foreign API not Instantiated"@,
            GrinWalletInterfaceError::InvalidSlatepackAddress => "Invalid Slatepack Address"@,
            GrinWalletInterfaceError::InvalidSlateState => "Invalid Slate State"@,
            GrinWalletInterfaceError::ConfigError(message) => "Wallet Config Error: "@ + message@,
            GrinWalletInterfaceError::EngineInitError(message) => "Wallet Init Error: "@
                + message@,
            GrinWalletInterfaceError::EngineError(message) => "Wallet Error: "@ + message@,
            GrinWalletInterfaceError::UnexpectedResponse => "Unexpected Wallet Response"@,
        }
    }

    /// The failure in words.
    pub fn describe(&self) -> (text: String)
        ensures
            text@ == self.spec_describe(),
    {
        match self {
            GrinWalletInterfaceError::OwnerAPINotInstantiated => String::from_str(
                "Owner API not Instantiated",
            ),
            GrinWalletInterfaceError::ForeignAPINotInstantiated => String::from_str(
                "Foreign API not Instantiated",
            ),
            GrinWalletInterfaceError::InvalidSlatepackAddress => String::from_str(
                "Invalid Slatepack Address",
            ),
            GrinWalletInterfaceError::InvalidSlateState => String::from_str("Invalid Slate State"),
            GrinWalletInterfaceError::ConfigError(message) => String::from_str(
                "Wallet Config Error: ",
            ).concat(message.as_str()),
            GrinWalletInterfaceError::EngineInitError(message) => String::from_str(
                "Wallet Init Error: ",
            ).concat(message.as_str()),
            GrinWalletInterfaceError::EngineError(message) => String::from_str(
                "Wallet Error: ",
            ).concat(message.as_str()),
            GrinWalletInterfaceError::UnexpectedResponse => String::from_str(
                "Unexpected Wallet Response",
            ),
        }
    }

    /// Tells whether the failure was found by the coordinator itself.
    pub fn is_precondition_failure(&self) -> (local: bool)
        ensures
            local == self.is_local(),
    {
        match self {
            GrinWalletInterfaceError::OwnerAPINotInstantiated => true,
            GrinWalletInterfaceError::ForeignAPINotInstantiated => true,
            GrinWalletInterfaceError::InvalidSlatepackAddress => true,
            GrinWalletInterfaceError::InvalidSlateState => true,
            GrinWalletInterfaceError::UnexpectedResponse => true,
            _ => false,
        }
    }
}

/// A failure as it is shown: what was being done, and why it did not work.
#[derive(Clone, Debug, PartialEq, Eq)]
pub struct Failure {
    /// What was being attempted, where the caller said so.
    pub context: Option<&'static str>,
    /// Why it did not work.
    pub cause: GrinWalletInterfaceError,
}

impl Failure {
    /// The failure in words: the context, a colon and the cause, or the
    /// cause alone.
    pub open spec fn spec_describe(self) -> Seq<char> {
        match self.context {
            Some(context) => context@ + ": "@ + self.cause.spec_describe(),
            None => self.cause.spec_describe(),
        }
    }

    /// The failure in words.
    pub fn describe(&self) -> (text: String)
        ensures
            text@ == self.spec_describe(),
    {
        let cause = self.cause.describe();
        match self.context {
            Some(context) => String::from_str(context).concat(": ").concat(cause.as_str()),
            None => cause,
        }
    }
}

} // verus!
