//! Tracking and claiming of child bounties on Polkadot-family relay chains:
//! the domain model, the state store and the decisions behind the user
//! interface and the network worker, with their contracts.

pub mod chains;
pub mod components;
pub mod errors;
pub mod people;
pub mod router;
pub mod runtimes;
pub mod session;
pub mod state;
pub mod types;
pub mod workers;
