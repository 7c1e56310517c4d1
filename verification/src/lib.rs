//! Collateralized pledge lifecycle engine.
//!
//! A pledge commits a custodial marker holding as collateral. The originator
//! receives a right-token, a lender funds the pledge and receives a
//! counter-right-token, and the originator later requests paydown, which the
//! lender approves. This crate holds the lifecycle state machine, the
//! authorization checks, and the pledge ledger; the hosting environment
//! performs storage, message dispatch, and the external registry queries, and
//! hands their results to the functions here as plain values.

pub mod error;
pub mod execute;
pub mod gateway;
pub mod instantiate;
pub mod msg;
pub mod query;
pub mod state;
pub mod util;

pub use crate::error::ContractError;
