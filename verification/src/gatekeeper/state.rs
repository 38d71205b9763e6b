//! What the gatekeeper keeps.

use crate::address::Address;
use vstd::prelude::*;

verus! {

/// The gatekeeper's configuration: who may change the blacklist.
#[derive(Clone, Copy, Debug, PartialEq, Eq)]
pub struct Config {
    pub authority: Address,
}

/// The marker of a blacklisted address. It carries nothing: that it exists
/// for an address is what blacklists the address.
#[derive(Clone, Copy, Debug, PartialEq, Eq, Structural, Hash)]
pub struct BlacklistEntry {}

} // verus!
