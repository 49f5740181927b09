//! A payments engine: client accounts, a transaction history with its dispute
//! state machine, and the engine that applies deposits, withdrawals, disputes,
//! resolutions and chargebacks to both.
pub mod amount;
pub mod errors;
pub mod storage;
pub mod history;
pub mod transactions;
pub mod transactions_processor;
pub mod guarantees;
pub mod ledger;
