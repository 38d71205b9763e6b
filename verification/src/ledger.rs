//! The token ledger as the controller and the gatekeeper see it: one
//! account's balance and hold, and the ledger's primitives on it, each keyed
//! by the authority that asks.
//!
//! The primitives decide by balance, supply, owner and hold alone, which is
//! what the controller's decisions rest on. The ledger itself knows more of an
//! account than is kept here, whether it is frozen for one, and has the
//! last word on every call. It also lets anyone burn from an account that
//! the system program or the incinerator owns; here such an account is
//! treated like any other, so that a burn from it needs an authority.

use crate::address::Address;
use vstd::prelude::*;

verus! {

/// Why the ledger rejects a primitive.
#[derive(Clone, Copy, Debug, PartialEq, Eq, Structural)]
pub enum LedgerError {
    /// The balance, or the amount held for the delegate, is below the amount asked for.
    InsufficientFunds,
    /// The authority is neither the account's owner nor its delegate.
    OwnerMismatch,
    /// The account does not hold the token unit.
    MintMismatch,
    /// The balance or the supply would exceed what the ledger can count.
    Overflow,
}

/// The token unit of the ledger, as far as minting changes it.
#[derive(Clone, Copy, Debug, PartialEq, Eq)]
pub struct Mint {
    /// Where the token unit lives.
    pub address: Address,
    /// How many tokens exist.
    pub supply: u64,
}

impl Mint {
    /// The token unit after `amount` more tokens were minted.
    pub open spec fn issued(self, amount: u64) -> Mint {
        Mint { supply: (self.supply + amount) as u64, ..self }
    }
}

/// One token account of the ledger.
///
/// A hold is a delegation: `delegate` may move up to `delegated_amount` out
/// of the account, while the tokens stay where they are. An account has at
/// most one delegate.
#[derive(Clone, Copy, Debug, PartialEq, Eq)]
pub struct TokenAccount {
    /// Where the account lives.
    pub address: Address,
    /// The token unit that the account holds.
    pub mint: Address,
    /// Who owns the account.
    pub owner: Address,
    /// The balance.
    pub amount: u64,
    /// In whose favour a hold stands, if one does.
    pub delegate: Option<Address>,
    /// How much the delegate may still move.
    pub delegated_amount: u64,
}

impl TokenAccount {
    /// Whether a hold of at least `amount` stands in favour of `delegate`.
    pub open spec fn holds_for(self, delegate: Address, amount: u64) -> bool {
        self.delegate == Some(delegate) && self.delegated_amount >= amount
    }

    /// The account once `delegate` holds `amount`: an earlier hold is
    /// replaced, not added to.
    pub open spec fn approved(self, delegate: Address, amount: u64) -> TokenAccount {
        TokenAccount { delegate: Some(delegate), delegated_amount: amount, ..self }
    }

    /// The account with no hold.
    pub open spec fn revoked(self) -> TokenAccount {
        TokenAccount { delegate: None, delegated_amount: 0, ..self }
    }

    /// Why a revocation under `authority` is rejected, if it is: the
    /// authority is neither the owner nor the delegate.
    pub open spec fn revoke_error(self, authority: Address) -> Option<LedgerError> {
        if self.owner == authority || self.delegate == Some(authority) {
            None
        } else {
            Some(LedgerError::OwnerMismatch)
        }
    }

    /// Why a burn of `amount` under `authority` is rejected, if it is.
    pub open spec fn burn_error(self, authority: Address, amount: u64) -> Option<LedgerError> {
        if self.amount < amount {
            Some(LedgerError::InsufficientFunds)
        } else if self.delegate == Some(authority) {
            if self.delegated_amount < amount {
                Some(LedgerError::InsufficientFunds)
            } else {
                None
            }
        } else if self.owner == authority {
            None
        } else {
            Some(LedgerError::OwnerMismatch)
        }
    }

    /// The account after an accepted burn of `amount` under `authority`. A
    /// delegate's burn uses up its hold, and a hold used up is cleared.
    pub open spec fn burned(self, authority: Address, amount: u64) -> TokenAccount {
        if self.delegate == Some(authority) {
            TokenAccount {
                amount: (self.amount - amount) as u64,
                delegate: if self.delegated_amount == amount {
                    None
                } else {
                    self.delegate
                },
                delegated_amount: (self.delegated_amount - amount) as u64,
                ..self
            }
        } else {
            TokenAccount { amount: (self.amount - amount) as u64, ..self }
        }
    }

    /// The account after the standing seizure authority burned `amount`:
    /// the balance falls, the hold is untouched.
    pub open spec fn seized(self, amount: u64) -> TokenAccount {
        TokenAccount { amount: (self.amount - amount) as u64, ..self }
    }

    /// Why a minting of `amount` of `mint` into the account is rejected,
    /// if it is: the account holds another token unit, or the balance or
    /// the supply cannot take the amount.
    pub open spec fn mint_error(self, mint: Mint, amount: u64) -> Option<LedgerError> {
        if self.mint != mint.address {
            Some(LedgerError::MintMismatch)
        } else if self.amount + amount > u64::MAX || mint.supply + amount > u64::MAX {
            Some(LedgerError::Overflow)
        } else {
            None
        }
    }

    /// The account after `amount` was minted into it: the balance rises,
    /// the hold is untouched.
    pub open spec fn credited(self, amount: u64) -> TokenAccount {
        TokenAccount { amount: (self.amount + amount) as u64, ..self }
    }

    /// Whether `authority` is the account's delegate.
    pub fn is_delegate(&self, authority: &Address) -> (r: bool)
        ensures
            r == (self.delegate == Some(*authority)),
    {
        match self.delegate {
            Some(delegate) => delegate == *authority,
            None => false,
        }
    }

    /// Places a hold of `amount` in favour of `delegate`, on the owner's
    /// authority. No token moves.
    pub fn approve(&mut self, authority: &Address, delegate: Address, amount: u64) -> (r: Result<
        (),
        LedgerError,
    >)
        ensures
            old(self).owner == *authority ==> r == Ok::<(), LedgerError>(()) && *final(self) == old(self).approved(
                delegate,
                amount,
            ),
            old(self).owner != *authority ==> r == Err::<(), LedgerError>(
                LedgerError::OwnerMismatch,
            ) && *final(self) == *old(self),
    {
        if self.owner == *authority {
            self.delegate = Some(delegate);
            self.delegated_amount = amount;
            Ok(())
        } else {
            Err(LedgerError::OwnerMismatch)
        }
    }

    /// Clears the account's hold, whatever its amount and delegate, on the
    /// authority of the owner or of the delegate itself.
    pub fn revoke(&mut self, authority: &Address) -> (r: Result<(), LedgerError>)
        ensures
            match old(self).revoke_error(*authority) {
                Some(e) => r == Err::<(), LedgerError>(e) && *final(self) == *old(self),
                None => r == Ok::<(), LedgerError>(()) && *final(self) == old(self).revoked(),
            },
    {
        if self.owner == *authority || self.is_delegate(authority) {
            self.delegate = None;
            self.delegated_amount = 0;
            Ok(())
        } else {
            Err(LedgerError::OwnerMismatch)
        }
    }

    /// Burns `amount` under `authority`, which is the account's delegate or
    /// its owner. A rejected burn changes nothing.
    pub fn burn(&mut self, authority: &Address, amount: u64) -> (r: Result<(), LedgerError>)
        ensures
            match old(self).burn_error(*authority, amount) {
                Some(e) => r == Err::<(), LedgerError>(e) && *final(self) == *old(self),
                None => r == Ok::<(), LedgerError>(()) && *final(self) == old(self).burned(*authority, amount),
            },
    {
        if self.amount < amount {
            return Err(LedgerError::InsufficientFunds);
        }
        if self.is_delegate(authority) {
            if self.delegated_amount < amount {
                return Err(LedgerError::InsufficientFunds);
            }
            self.amount = self.amount - amount;
            self.delegated_amount = self.delegated_amount - amount;
            if self.delegated_amount == 0 {
                self.delegate = None;
            }
            Ok(())
        } else if self.owner == *authority {
            self.amount = self.amount - amount;
            Ok(())
        } else {
            Err(LedgerError::OwnerMismatch)
        }
    }

    /// Burns `amount` under the standing seizure authority of the token
    /// unit, which needs neither the owner's consent nor a hold.
    pub fn burn_seized(&mut self, amount: u64) -> (r: Result<(), LedgerError>)
        ensures
            old(self).amount >= amount ==> r == Ok::<(), LedgerError>(()) && *final(self) == old(self).seized(amount),
            old(self).amount < amount ==> r == Err::<(), LedgerError>(
                LedgerError::InsufficientFunds,
            ) && *final(self) == *old(self),
    {
        if self.amount < amount {
            return Err(LedgerError::InsufficientFunds);
        }
        self.amount = self.amount - amount;
        Ok(())
    }

    /// Mints `amount` of `mint` into the account, under the mint authority:
    /// the balance and the supply rise by `amount`. A rejected minting
    /// changes nothing.
    pub fn mint_to(&mut self, mint: &mut Mint, amount: u64) -> (r: Result<(), LedgerError>)
        ensures
            match old(self).mint_error(*old(mint), amount) {
                Some(e) => r == Err::<(), LedgerError>(e) && *final(self) == *old(self)
                    && *final(mint) == *old(mint),
                None => r == Ok::<(), LedgerError>(()) && *final(self) == old(self).credited(
                    amount,
                ) && *final(mint) == old(mint).issued(amount),
            },
    {
        if self.mint != mint.address {
            return Err(LedgerError::MintMismatch);
        }
        let balance = match self.amount.checked_add(amount) {
            Some(balance) => balance,
            None => {
                return Err(LedgerError::Overflow);
            },
        };
        let supply = match mint.supply.checked_add(amount) {
            Some(supply) => supply,
            None => {
                return Err(LedgerError::Overflow);
            },
        };
        self.amount = balance;
        mint.supply = supply;
        Ok(())
    }
}

} // verus!
