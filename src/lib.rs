//! Client-side orchestration of a Squads multisig treasury: address
//! derivation, account decoding, instruction building, transaction assembly
//! and the proposal lifecycle guard.
pub mod address;
pub mod business_analyst;
pub mod consumer;
pub mod error;
pub mod instruction;
pub mod investor;
pub mod lifecycle;
pub mod memo;
pub mod multisig;
pub mod state;
pub mod transaction;
pub mod vault_message;
