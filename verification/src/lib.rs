//! Negotiation coordinator for a Grin wallet: session state, contract
//! state machine and slatepack envelope handling.

pub mod address;
pub mod amount;
pub mod chain;
pub mod error;
pub mod node;
pub mod operation;
pub mod slate;
pub mod theme;
pub mod wallet;
