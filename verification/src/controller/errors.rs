//! Why the controller refuses an operation.

use crate::ledger::LedgerError;
use vstd::prelude::*;

verus! {

/// The ways in which an operation of the controller fails. Each is found
/// before anything changes: a refused operation leaves every value as it was.
#[derive(Clone, Copy, Debug, PartialEq, Eq, Structural, Hash)]
pub enum GoldTokenError {
    /// The amount is zero, or more than the ledger can add to a balance
    /// or to the supply.
    InvalidAmount,
    /// The redemption request is not in a status that the operation accepts,
    /// or no longer exists.
    InvalidRequestStatus,
    /// The address has no blacklist entry.
    AddressNotBlacklisted,
    /// The request counter is exhausted.
    CounterOverflow,
    /// The balance, or the hold, is below the amount.
    InsufficientBalance,
    /// The signer does not hold the role, or an account is not the one that
    /// the operation is bound to.
    Unauthorized,
    /// The operation is pause-sensitive and the contract is paused.
    ContractPaused,
}

impl GoldTokenError {
    /// The text that describes the error.
    pub open spec fn message_text(self) -> Seq<char> {
        match self {
            GoldTokenError::InvalidAmount => "Invalid amount."@,
            GoldTokenError::InvalidRequestStatus => "Invalid redemption request status for this action."@,
            GoldTokenError::AddressNotBlacklisted => "Address is not on the blacklist."@,
            GoldTokenError::CounterOverflow => "Counter overflow."@,
            GoldTokenError::InsufficientBalance => "Insufficient token balance."@,
            GoldTokenError::Unauthorized => "Unauthorized access."@,
            GoldTokenError::ContractPaused => "Contract is paused."@,
        }
    }

    /// The error's description.
    pub fn message(&self) -> (text: String)
        ensures
            text@ == self.message_text(),
    {
        match self {
            GoldTokenError::InvalidAmount => "Invalid amount.".to_owned(),
            GoldTokenError::InvalidRequestStatus => "Invalid redemption request status for this action.".to_owned(),
            GoldTokenError::AddressNotBlacklisted => "Address is not on the blacklist.".to_owned(),
            GoldTokenError::CounterOverflow => "Counter overflow.".to_owned(),
            GoldTokenError::InsufficientBalance => "Insufficient token balance.".to_owned(),
            GoldTokenError::Unauthorized => "Unauthorized access.".to_owned(),
            GoldTokenError::ContractPaused => "Contract is paused.".to_owned(),
        }
    }

    /// The controller's word for a rejection by the ledger.
    pub open spec fn of_ledger(e: LedgerError) -> GoldTokenError {
        match e {
            LedgerError::InsufficientFunds => GoldTokenError::InsufficientBalance,
            LedgerError::OwnerMismatch => GoldTokenError::Unauthorized,
            LedgerError::MintMismatch => GoldTokenError::Unauthorized,
            LedgerError::Overflow => GoldTokenError::InvalidAmount,
        }
    }

    /// The controller's word for a rejection by the ledger, computed.
    pub fn from_ledger(e: LedgerError) -> (r: GoldTokenError)
        ensures
            r == Self::of_ledger(e),
    {
        match e {
            LedgerError::InsufficientFunds => GoldTokenError::InsufficientBalance,
            LedgerError::OwnerMismatch => GoldTokenError::Unauthorized,
            LedgerError::MintMismatch => GoldTokenError::Unauthorized,
            LedgerError::Overflow => GoldTokenError::InvalidAmount,
        }
    }
}

} // verus!
