//! Event schema and role-based access control of the Credence bond contract.
//!
//! The library decides what the contract publishes and whom it lets through;
//! the contract host (storage, event log) is driven by its caller.

pub mod sdk;
pub mod symbols;
pub mod events;
pub mod account;
pub mod claims;
pub mod upgrade_auth;
pub mod access_control;
pub mod harness;
