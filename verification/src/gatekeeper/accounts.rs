//! The accounts that each operation of the gatekeeper works on, as plain
//! values.

use crate::address::Address;
use crate::gatekeeper::state::BlacklistEntry;
use crate::gatekeeper::state::Config;
use crate::ledger::TokenAccount;
use vstd::prelude::*;

verus! {

/// The accounts of `initialize`.
#[derive(Clone, Copy, Debug, PartialEq, Eq)]
pub struct Initialize {
    pub payer: Address,
    /// The signer who becomes the authority.
    pub authority: Address,
    /// Where the configuration goes: empty before, the configuration after.
    pub config: Option<Config>,
    pub mint: Address,
}

/// The accounts of `set_authority`.
#[derive(Clone, Copy, Debug, PartialEq, Eq)]
pub struct SetAuthority {
    pub config: Config,
    /// The signer.
    pub authority: Address,
    pub new_authority: Address,
    pub mint: Address,
}

/// The accounts of `add_to_blacklist`.
#[derive(Clone, Copy, Debug, PartialEq, Eq)]
pub struct AddToBlacklist {
    pub config: Config,
    /// The signer.
    pub authority: Address,
    /// The address to blacklist.
    pub target_address: Address,
    /// The marker of `target_address`, where one exists.
    pub blacklist_entry: Option<BlacklistEntry>,
    pub mint: Address,
}

/// The accounts of `remove_from_blacklist`.
#[derive(Clone, Copy, Debug, PartialEq, Eq)]
pub struct RemoveFromBlacklist {
    pub config: Config,
    /// The signer.
    pub authority: Address,
    /// The address to take off the blacklist.
    pub target_address: Address,
    /// The marker of `target_address`, where one exists.
    pub blacklist_entry: Option<BlacklistEntry>,
    pub mint: Address,
}

/// What the ledger hands to the gatekeeper with a transfer.
#[derive(Clone, Copy, Debug, PartialEq, Eq)]
pub struct TransferHook {
    /// The account that the tokens leave.
    pub source_token: TokenAccount,
    pub mint: Address,
    /// The account that the tokens reach.
    pub destination_token: TokenAccount,
    /// The signer, asserted to own the source account.
    pub owner: Address,
    /// The marker of the source account's owner, where one exists.
    pub source_blacklist_entry: Option<BlacklistEntry>,
    /// The marker of the destination account's owner, where one exists.
    pub destination_blacklist_entry: Option<BlacklistEntry>,
}

} // verus!
