//! The records that the controller's operations emit, one per success.

use crate::address::Address;
use crate::controller::state::RedemptionStatus;
use vstd::prelude::*;

verus! {

/// A token was created.
#[derive(Clone, Copy, Debug, PartialEq, Eq)]
pub struct TokenInitialized {
    pub mint: Address,
    pub admin: Address,
    pub gatekeeper_program: Address,
}

/// A role passed from one holder to another; `role` names it.
#[derive(Clone, Debug, PartialEq, Eq)]
pub struct RoleUpdated {
    pub role: String,
    pub old_authority: Address,
    pub new_authority: Address,
}

/// The pause flag was flipped to `is_paused`.
#[derive(Clone, Copy, Debug, PartialEq, Eq)]
pub struct PauseToggled {
    pub is_paused: bool,
    pub authority: Address,
}

/// Tokens were minted into the account `to`.
#[derive(Clone, Copy, Debug, PartialEq, Eq)]
pub struct TokensMinted {
    pub mint: Address,
    pub to: Address,
    pub amount: u64,
    pub authority: Address,
    pub recipient: Address,
}

/// A redemption request was created.
#[derive(Clone, Copy, Debug, PartialEq, Eq)]
pub struct RedemptionRequested {
    pub user: Address,
    pub request_id: u64,
    pub amount: u64,
    pub timestamp: i64,
}

/// A redemption request was fulfilled and its amount burned.
#[derive(Clone, Copy, Debug, PartialEq, Eq)]
pub struct RedemptionFulfilled {
    pub user: Address,
    pub request_id: u64,
    pub amount: u64,
    pub timestamp: i64,
}

/// A redemption request was cancelled and its hold released.
#[derive(Clone, Copy, Debug, PartialEq, Eq)]
pub struct RedemptionCancelled {
    pub user: Address,
    pub request_id: u64,
    pub amount: u64,
    pub timestamp: i64,
}

/// A redemption request moved from one status to another.
#[derive(Clone, Copy, Debug, PartialEq, Eq)]
pub struct RedemptionStatusUpdated {
    pub user: Address,
    pub request_id: u64,
    pub old_status: RedemptionStatus,
    pub new_status: RedemptionStatus,
}

/// An address was blacklisted.
#[derive(Clone, Copy, Debug, PartialEq, Eq)]
pub struct AddressBlacklisted {
    pub address: Address,
    pub authority: Address,
}

/// An address was taken off the blacklist.
#[derive(Clone, Copy, Debug, PartialEq, Eq)]
pub struct AddressUnblacklisted {
    pub address: Address,
    pub authority: Address,
}

/// Tokens of a blacklisted holder were burned.
#[derive(Clone, Copy, Debug, PartialEq, Eq)]
pub struct TokensWiped {
    pub target_user: Address,
    pub amount: u64,
    pub authority: Address,
}

/// The transfer fee was set.
#[derive(Clone, Copy, Debug, PartialEq, Eq)]
pub struct TransferFeeUpdated {
    pub mint: Address,
    pub transfer_fee_basis_points: u16,
    pub maximum_fee: u64,
    pub authority: Address,
}

/// The fees withheld on the token unit were withdrawn.
#[derive(Clone, Copy, Debug, PartialEq, Eq)]
pub struct WithheldTokensWithdrawn {
    pub mint: Address,
    pub destination: Address,
    pub authority: Address,
}

/// Fees withheld on the named token accounts were withdrawn.
#[derive(Clone, Debug, PartialEq, Eq)]
pub struct WithheldTokensWithdrawnFromAccounts {
    pub mint: Address,
    pub destination: Address,
    pub source_accounts: Vec<Address>,
    pub authority: Address,
}

} // verus!
