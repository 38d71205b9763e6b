//! A compliance-gated, asset-backed token controller: the redemption
//! lifecycle, the role registry, and the transfer gatekeeper with its
//! blacklist, as verified logic over plain values.

pub mod address;
pub mod controller;
pub mod gatekeeper;
pub mod laws;
pub mod ledger;
pub mod pda;
