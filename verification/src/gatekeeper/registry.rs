//! The blacklist as a set of addresses, and the gatekeeper that keeps it
//! and answers the transfer check from it.

use crate::address::Address;
use crate::gatekeeper::state::BlacklistEntry;
use vstd::prelude::*;

verus! {

/// The addresses that are denied a part in transfers. An address is in the
/// registry or it is not: nothing is kept with it.
#[derive(Clone, Debug)]
pub struct BlacklistRegistry {
    entries: Vec<Address>,
}

impl View for BlacklistRegistry {
    type V = Set<Address>;

    closed spec fn view(&self) -> Set<Address> {
        self.entries@.to_set()
    }
}

impl BlacklistRegistry {
    /// The empty registry.
    pub fn new() -> (registry: BlacklistRegistry)
        ensures
            registry@ == Set::<Address>::empty(),
    {
        let registry = BlacklistRegistry { entries: Vec::new() };
        assert(registry.entries@.to_set() =~= Set::<Address>::empty());
        registry
    }

    /// Whether `address` is blacklisted.
    pub fn contains(&self, address: &Address) -> (r: bool)
        ensures
            r == self@.contains(*address),
    {
        let mut i: usize = 0;
        while i < self.entries.len()
            invariant
                i <= self.entries.len(),
                forall|j: int| 0 <= j < i ==> self.entries@[j] != *address,
            decreases self.entries.len() - i,
        {
            if self.entries[i] == *address {
                assert(self.entries@.contains(*address));
                return true;
            }
            i += 1;
        }
        assert(!self.entries@.contains(*address));
        false
    }

    /// The marker of `address`, where it is blacklisted.
    pub fn entry(&self, address: &Address) -> (r: Option<BlacklistEntry>)
        ensures
            r is Some == self@.contains(*address),
    {
        if self.contains(address) {
            Some(BlacklistEntry {  })
        } else {
            None
        }
    }

    /// Puts `address` in the registry; it stays as it is where the address
    /// is in it already.
    pub fn insert(&mut self, address: Address)
        ensures
            final(self)@ == old(self)@.insert(address),
    {
        if !self.contains(&address) {
            proof {
                self.entries@.lemma_push_to_set_commute(address);
            }
            self.entries.push(address);
        } else {
            assert(self@.insert(address) =~= self@);
        }
    }

    /// Takes `address` out of the registry; it stays as it is where the
    /// address is not in it.
    pub fn remove(&mut self, address: &Address)
        ensures
            final(self)@ == old(self)@.remove(*address),
    {
        let mut kept: Vec<Address> = Vec::new();
        let mut i: usize = 0;
        while i < self.entries.len()
            invariant
                i <= self.entries.len(),
                forall|x: Address|
                    kept@.contains(x) <==> (x != *address && exists|j: int|
                        0 <= j < i && self.entries@[j] == x),
            decreases self.entries.len() - i,
        {
            let candidate = self.entries[i];
            let ghost before = kept@;
            if candidate != *address {
                kept.push(candidate);
                assert forall|x: Address| kept@.contains(x) <==> (x != *address && exists|j: int|
                    0 <= j < i + 1 && self.entries@[j] == x) by {
                    if kept@.contains(x) {
                        let k = choose|k: int| 0 <= k < kept@.len() && kept@[k] == x;
                        if k < before.len() {
                            assert(before[k] == x);
                            assert(before.contains(x));
                        } else {
                            assert(self.entries@[i as int] == x);
                        }
                    }
                    if x != *address && exists|j: int| 0 <= j < i + 1 && self.entries@[j] == x {
                        let j = choose|j: int| 0 <= j < i + 1 && self.entries@[j] == x;
                        if j < i {
                            assert(before.contains(x));
                            let k = choose|k: int| 0 <= k < before.len() && before[k] == x;
                            assert(kept@[k] == x);
                        } else {
                            assert(kept@[kept@.len() - 1] == x);
                        }
                    }
                }
            } else {
                assert forall|x: Address| kept@.contains(x) <==> (x != *address && exists|j: int|
                    0 <= j < i + 1 && self.entries@[j] == x) by {
                    if x != *address && exists|j: int| 0 <= j < i + 1 && self.entries@[j] == x {
                        let j = choose|j: int| 0 <= j < i + 1 && self.entries@[j] == x;
                        assert(j < i);
                    }
                }
            }
            i += 1;
        }
        assert(kept@.to_set() =~= self.entries@.to_set().remove(*address)) by {
            assert forall|x: Address|
                kept@.to_set().contains(x) <==> self.entries@.to_set().remove(*address).contains(
                    x,
                ) by {
                if x != *address && self.entries@.contains(x) {
                    let j = choose|j: int| 0 <= j < self.entries@.len() && self.entries@[j] == x;
                    assert(0 <= j < i && self.entries@[j] == x);
                }
            }
        }
        self.entries = kept;
    }

    /// Writes back the marker of `address`: a marker puts the address in
    /// the registry, none takes it out.
    pub fn set_entry(&mut self, address: Address, entry: Option<BlacklistEntry>)
        ensures
            final(self)@ == if entry is Some {
                old(self)@.insert(address)
            } else {
                old(self)@.remove(address)
            },
    {
        match entry {
            Some(_) => self.insert(address),
            None => self.remove(&address),
        }
    }
}

} // verus!
