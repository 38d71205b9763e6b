//! Why the gatekeeper refuses.

use vstd::prelude::*;

verus! {

/// The ways in which the gatekeeper refuses a transfer or an operation.
#[derive(Clone, Copy, Debug, PartialEq, Eq, Structural, Hash)]
pub enum GatekeeperError {
    /// A party to the transfer is blacklisted: the transfer is denied whole.
    AddressBlacklisted,
    /// The signer is not the configured authority, or is not the owner of
    /// the account that it claims to own.
    Unauthorized,
    /// The address to be taken off the blacklist is not on it.
    AddressNotBlacklisted,
    /// The instruction data is not that of a transfer check.
    InvalidInstructionData,
}

impl GatekeeperError {
    /// The text that describes the error.
    pub open spec fn message_text(self) -> Seq<char> {
        match self {
            GatekeeperError::AddressBlacklisted => "The address is on the transfer blacklist."@,
            GatekeeperError::Unauthorized => "Unauthorized: The signer is not the configured authority."@,
            GatekeeperError::AddressNotBlacklisted => "The address is not on the transfer blacklist."@,
            GatekeeperError::InvalidInstructionData => "Invalid instruction data."@,
        }
    }

    /// The error's description.
    pub fn message(&self) -> (text: String)
        ensures
            text@ == self.message_text(),
    {
        match self {
            GatekeeperError::AddressBlacklisted => "The address is on the transfer blacklist.".to_owned(),
            GatekeeperError::Unauthorized => "Unauthorized: The signer is not the configured authority.".to_owned(),
            GatekeeperError::AddressNotBlacklisted => "The address is not on the transfer blacklist.".to_owned(),
            GatekeeperError::InvalidInstructionData => "Invalid instruction data.".to_owned(),
        }
    }
}

} // verus!
