//! The transfer gatekeeper: the check that the ledger runs on every
//! transfer, and the blacklist that it consults.

pub mod accounts;
pub mod admin;
pub mod errors;
pub mod hook;
pub mod registry;
pub mod resolution;
pub mod service;
pub mod state;
