//! The gatekeeper of one token unit: its configuration and its blacklist,
//! and the operations that find their markers in that blacklist.

use crate::address::Address;
use crate::gatekeeper::accounts::AddToBlacklist;
use crate::gatekeeper::accounts::RemoveFromBlacklist;
use crate::gatekeeper::accounts::SetAuthority;
use crate::gatekeeper::accounts::TransferHook;
use crate::gatekeeper::errors::GatekeeperError;
use crate::gatekeeper::hook::transfer_hook_error;
use crate::gatekeeper::registry::BlacklistRegistry;
use crate::gatekeeper::state::BlacklistEntry;
use crate::gatekeeper::state::Config;
use crate::ledger::TokenAccount;
use vstd::prelude::*;

verus! {

/// The gatekeeper of one token unit.
#[derive(Debug)]
pub struct Gatekeeper {
    /// The token unit whose transfers are checked.
    pub mint: Address,
    pub config: Config,
    pub blacklist: BlacklistRegistry,
}

/// What a gatekeeper is, with its blacklist as a set.
#[verifier::ext_equal]
pub struct GatekeeperState {
    pub mint: Address,
    pub config: Config,
    pub blacklist: Set<Address>,
}

impl View for Gatekeeper {
    type V = GatekeeperState;

    open spec fn view(&self) -> GatekeeperState {
        GatekeeperState { mint: self.mint, config: self.config, blacklist: self.blacklist@ }
    }
}

/// The marker of `address` in `blacklist`, where the address is in it.
pub open spec fn marker_of(blacklist: Set<Address>, address: Address) -> Option<BlacklistEntry> {
    if blacklist.contains(address) {
        Some(BlacklistEntry {  })
    } else {
        None
    }
}

impl GatekeeperState {
    /// What the ledger hands to the transfer check for a transfer from
    /// `source` to `destination` that `owner` signed: the two accounts, and
    /// the markers of their owners.
    pub open spec fn hook_accounts(
        self,
        source: TokenAccount,
        destination: TokenAccount,
        owner: Address,
    ) -> TransferHook {
        TransferHook {
            source_token: source,
            mint: self.mint,
            destination_token: destination,
            owner,
            source_blacklist_entry: marker_of(self.blacklist, source.owner),
            destination_blacklist_entry: marker_of(self.blacklist, destination.owner),
        }
    }

    /// The outcome of the check of a transfer of `amount` from `source` to
    /// `destination` that `owner` signed.
    pub open spec fn checked(
        self,
        source: TokenAccount,
        destination: TokenAccount,
        owner: Address,
        amount: u64,
    ) -> Result<(), GatekeeperError> {
        match transfer_hook_error(self.hook_accounts(source, destination, owner)) {
            Some(e) => Err(e),
            None => Ok(()),
        }
    }

    /// The gatekeeper after `authority` asked to blacklist `target`, and
    /// the answer.
    pub open spec fn blacklisted(self, authority: Address, target: Address) -> (
        GatekeeperState,
        Result<(), GatekeeperError>,
    ) {
        if authority != self.config.authority {
            (self, Err(GatekeeperError::Unauthorized))
        } else {
            (GatekeeperState { blacklist: self.blacklist.insert(target), ..self }, Ok(()))
        }
    }

    /// The gatekeeper after `authority` asked to take `target` off the
    /// blacklist, and the answer.
    pub open spec fn unblacklisted(self, authority: Address, target: Address) -> (
        GatekeeperState,
        Result<(), GatekeeperError>,
    ) {
        if authority != self.config.authority {
            (self, Err(GatekeeperError::Unauthorized))
        } else if !self.blacklist.contains(target) {
            (self, Err(GatekeeperError::AddressNotBlacklisted))
        } else {
            (GatekeeperState { blacklist: self.blacklist.remove(target), ..self }, Ok(()))
        }
    }
}

impl Gatekeeper {
    /// A gatekeeper of `mint` under `authority`, with nobody blacklisted.
    pub fn new(mint: Address, authority: Address) -> (gatekeeper: Gatekeeper)
        ensures
            gatekeeper@ == (GatekeeperState {
                mint,
                config: Config { authority },
                blacklist: Set::<Address>::empty(),
            }),
    {
        Gatekeeper { mint, config: Config { authority }, blacklist: BlacklistRegistry::new() }
    }

    /// Whether `address` is blacklisted.
    pub fn is_blacklisted(&self, address: &Address) -> (r: bool)
        ensures
            r == self@.blacklist.contains(*address),
    {
        self.blacklist.contains(address)
    }

    /// Hands the authority over to `new_authority`, on the signature of the
    /// present one.
    pub fn set_authority(&mut self, authority: Address, new_authority: Address) -> (r: Result<
        (),
        GatekeeperError,
    >)
        ensures
            authority == old(self)@.config.authority ==> r == Ok::<(), GatekeeperError>(()) && final(self)@ == (
            GatekeeperState { config: Config { authority: new_authority }, ..old(self)@ }),
            authority != old(self)@.config.authority ==> r == Err::<(), GatekeeperError>(
                GatekeeperError::Unauthorized,
            ) && final(self)@ == old(self)@,
    {
        let mut accounts = SetAuthority {
            config: self.config,
            authority,
            new_authority,
            mint: self.mint,
        };
        let r = crate::gatekeeper::admin::set_authority(&mut accounts);
        self.config = accounts.config;
        r
    }

    /// Blacklists `target`, on the authority's signature. The address is
    /// blacklisted afterwards, whether or not it was before.
    pub fn add_to_blacklist(&mut self, authority: Address, target: Address) -> (r: Result<
        (),
        GatekeeperError,
    >)
        ensures
            (final(self)@, r) == old(self)@.blacklisted(authority, target),
    {
        let mut accounts = AddToBlacklist {
            config: self.config,
            authority,
            target_address: target,
            blacklist_entry: self.blacklist.entry(&target),
            mint: self.mint,
        };
        let r = crate::gatekeeper::admin::add_to_blacklist(&mut accounts);
        if r.is_ok() {
            self.blacklist.set_entry(target, accounts.blacklist_entry);
        }
        r
    }

    /// Takes `target` off the blacklist, on the authority's signature. The
    /// address must be blacklisted; afterwards it is not.
    pub fn remove_from_blacklist(&mut self, authority: Address, target: Address) -> (r: Result<
        (),
        GatekeeperError,
    >)
        ensures
            (final(self)@, r) == old(self)@.unblacklisted(authority, target),
    {
        let mut accounts = RemoveFromBlacklist {
            config: self.config,
            authority,
            target_address: target,
            blacklist_entry: self.blacklist.entry(&target),
            mint: self.mint,
        };
        let r = crate::gatekeeper::admin::remove_from_blacklist(&mut accounts);
        if r.is_ok() {
            self.blacklist.set_entry(target, accounts.blacklist_entry);
        }
        r
    }

    /// Checks a transfer of `amount` from `source` to `destination` that
    /// `owner` signed, with the markers of the two owners looked up in the
    /// blacklist.
    pub fn transfer_hook(
        &self,
        source: &TokenAccount,
        destination: &TokenAccount,
        owner: Address,
        amount: u64,
    ) -> (r: Result<(), GatekeeperError>)
        ensures
            r == self@.checked(*source, *destination, owner, amount),
    {
        let accounts = TransferHook {
            source_token: *source,
            mint: self.mint,
            destination_token: *destination,
            owner,
            source_blacklist_entry: self.blacklist.entry(&source.owner),
            destination_blacklist_entry: self.blacklist.entry(&destination.owner),
        };
        crate::gatekeeper::hook::transfer_hook(&accounts, amount)
    }
}

} // verus!
