//! The token controller: the role registry and pause flag, the redemption
//! lifecycle, fee and supply operations, and the asset-protection powers.

pub mod accounts;
pub mod admin;
pub mod errors;
pub mod events;
pub mod fees;
pub mod protection;
pub mod redemption;
pub mod requests;
pub mod service;
pub mod setup;
pub mod state;
pub mod supply;
