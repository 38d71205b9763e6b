//! The store of live redemption requests, keyed by user and request id.

use crate::address::Address;
use crate::controller::state::RedemptionRequest;
use vstd::prelude::*;

verus! {

/// The key under which a request is stored: its user and its id.
pub open spec fn key_of(request: RedemptionRequest) -> (Address, u64) {
    (request.user, request.request_id)
}

/// The live redemption requests. A request is stored under its user and its
/// id, and no two requests are stored under one key.
#[derive(Debug)]
pub struct RedemptionLedger {
    requests: Vec<RedemptionRequest>,
}

impl View for RedemptionLedger {
    type V = Map<(Address, u64), RedemptionRequest>;

    closed spec fn view(&self) -> Map<(Address, u64), RedemptionRequest> {
        Map::new(
            |key: (Address, u64)|
                exists|i: int| 0 <= i < self.requests@.len() && key_of(self.requests@[i]) == key,
            |key: (Address, u64)|
                self.requests@[choose|i: int|
                    0 <= i < self.requests@.len() && key_of(self.requests@[i]) == key],
        )
    }
}

impl RedemptionLedger {
    /// No two requests are stored under one key.
    #[verifier::type_invariant]
    spec fn distinct_keys(self) -> bool {
        forall|i: int, j: int|
            0 <= i < self.requests@.len() && 0 <= j < self.requests@.len() && key_of(
                self.requests@[i],
            ) == key_of(self.requests@[j]) ==> i == j
    }

    /// Every request is stored under its own user and id.
    pub proof fn lemma_keyed(&self)
        ensures
            forall|key: (Address, u64)| #[trigger]
                self@.contains_key(key) ==> key_of(self@[key]) == key,
    {
    }

    /// With distinct keys, the request at an index is the one its key maps to.
    proof fn lemma_at(self, i: int)
        requires
            self.distinct_keys(),
            0 <= i < self.requests@.len(),
        ensures
            self@.contains_key(key_of(self.requests@[i])),
            self@[key_of(self.requests@[i])] == self.requests@[i],
    {
    }

    /// The empty store.
    pub fn new() -> (ledger: RedemptionLedger)
        ensures
            ledger@ == Map::<(Address, u64), RedemptionRequest>::empty(),
    {
        let ledger = RedemptionLedger { requests: Vec::new() };
        assert(ledger@ =~= Map::<(Address, u64), RedemptionRequest>::empty());
        ledger
    }

    /// Where the request of `user` with id `request_id` is stored, if it is.
    fn position(&self, user: &Address, request_id: u64) -> (r: Option<usize>)
        ensures
            match r {
                Some(i) => i < self.requests@.len() && key_of(self.requests@[i as int]) == (
                    *user,
                    request_id,
                ),
                None => forall|j: int|
                    0 <= j < self.requests@.len() ==> key_of(#[trigger] self.requests@[j]) != (
                        *user,
                        request_id,
                    ),
            },
    {
        let mut i: usize = 0;
        while i < self.requests.len()
            invariant
                i <= self.requests.len(),
                forall|j: int|
                    0 <= j < i ==> key_of(#[trigger] self.requests@[j]) != (*user, request_id),
            decreases self.requests.len() - i,
        {
            if self.requests[i].request_id == request_id && self.requests[i].user == *user {
                return Some(i);
            }
            i += 1;
        }
        None
    }

    /// The request of `user` with id `request_id`, where it is live.
    pub fn get(&self, user: &Address, request_id: u64) -> (r: Option<RedemptionRequest>)
        ensures
            r == if self@.contains_key((*user, request_id)) {
                Some(self@[(*user, request_id)])
            } else {
                None
            },
    {
        proof {
            use_type_invariant(self);
        }
        match self.position(user, request_id) {
            Some(i) => {
                proof {
                    self.lemma_at(i as int);
                }
                Some(self.requests[i])
            },
            None => None,
        }
    }

    /// Stores `request` under its user and id, in place of the request
    /// stored there, if there is one.
    pub fn put(&mut self, request: RedemptionRequest)
        ensures
            final(self)@ == old(self)@.insert(key_of(request), request),
    {
        proof {
            use_type_invariant(&*self);
        }
        let ghost before = *self;
        match self.position(&request.user, request.request_id) {
            Some(i) => {
                let mut requests: Vec<RedemptionRequest> = Vec::new();
                core::mem::swap(&mut self.requests, &mut requests);
                requests.set(i, request);
                assert forall|a: int, b: int|
                    0 <= a < requests@.len() && 0 <= b < requests@.len() && key_of(requests@[a])
                        == key_of(requests@[b]) implies a == b by {
                    assert(key_of(requests@[a]) == key_of(before.requests@[a]));
                    assert(key_of(requests@[b]) == key_of(before.requests@[b]));
                }
                self.requests = requests;
                assert(self.requests@ == before.requests@.update(i as int, request));
                assert(self@ =~= before@.insert(key_of(request), request)) by {
                    assert forall|key: (Address, u64)|
                        self@.contains_key(key) <==> before@.insert(
                            key_of(request),
                            request,
                        ).contains_key(key) by {
                        if self@.contains_key(key) {
                            let a = choose|a: int|
                                0 <= a < self.requests@.len() && key_of(self.requests@[a]) == key;
                            assert(key_of(before.requests@[a]) == key);
                        }
                        if before@.contains_key(key) {
                            let a = choose|a: int|
                                0 <= a < before.requests@.len() && key_of(before.requests@[a])
                                    == key;
                            assert(key_of(self.requests@[a]) == key);
                        }
                        if key == key_of(request) {
                            assert(key_of(self.requests@[i as int]) == key);
                        }
                    }
                    assert forall|key: (Address, u64)| self@.contains_key(key) implies self@[key]
                        == before@.insert(key_of(request), request)[key] by {
                        let a = choose|a: int|
                            0 <= a < self.requests@.len() && key_of(self.requests@[a]) == key;
                        self.lemma_at(a);
                        assert(key_of(before.requests@[a]) == key);
                        before.lemma_at(a);
                        if key == key_of(request) {
                            assert(a == i);
                        }
                    }
                }
            },
            None => {
                let mut requests: Vec<RedemptionRequest> = Vec::new();
                core::mem::swap(&mut self.requests, &mut requests);
                requests.push(request);
                self.requests = requests;
                assert(self.requests@ == before.requests@.push(request));
                assert(self@ =~= before@.insert(key_of(request), request)) by {
                    let last = before.requests@.len() as int;
                    assert forall|key: (Address, u64)|
                        self@.contains_key(key) <==> before@.insert(
                            key_of(request),
                            request,
                        ).contains_key(key) by {
                        if self@.contains_key(key) {
                            let a = choose|a: int|
                                0 <= a < self.requests@.len() && key_of(self.requests@[a]) == key;
                            if a < last {
                                assert(key_of(before.requests@[a]) == key);
                            }
                        }
                        if before@.contains_key(key) {
                            let a = choose|a: int|
                                0 <= a < before.requests@.len() && key_of(before.requests@[a])
                                    == key;
                            assert(key_of(self.requests@[a]) == key);
                        }
                        if key == key_of(request) {
                            assert(key_of(self.requests@[last]) == key);
                        }
                    }
                    assert forall|key: (Address, u64)| self@.contains_key(key) implies self@[key]
                        == before@.insert(key_of(request), request)[key] by {
                        let a = choose|a: int|
                            0 <= a < self.requests@.len() && key_of(self.requests@[a]) == key;
                        self.lemma_at(a);
                        if a < last {
                            assert(key_of(before.requests@[a]) == key);
                            before.lemma_at(a);
                        }
                    }
                }
            },
        }
    }

    /// Reclaims the request of `user` with id `request_id`: it is stored no
    /// longer. The store stays as it is where no such request is live.
    pub fn remove(&mut self, user: &Address, request_id: u64)
        ensures
            final(self)@ == old(self)@.remove((*user, request_id)),
    {
        proof {
            use_type_invariant(&*self);
        }
        let ghost before = *self;
        let ghost gone = (*user, request_id);
        match self.position(user, request_id) {
            Some(i) => {
                let mut requests: Vec<RedemptionRequest> = Vec::new();
                core::mem::swap(&mut self.requests, &mut requests);
                requests.remove(i);
                assert forall|a: int, b: int|
                    0 <= a < requests@.len() && 0 <= b < requests@.len() && key_of(requests@[a])
                        == key_of(requests@[b]) implies a == b by {
                    let a0 = if a < i { a } else { a + 1 };
                    let b0 = if b < i { b } else { b + 1 };
                    assert(requests@[a] == before.requests@[a0]);
                    assert(requests@[b] == before.requests@[b0]);
                }
                self.requests = requests;
                assert(self.requests@ == before.requests@.remove(i as int));
                assert(self@ =~= before@.remove(gone)) by {
                    assert forall|key: (Address, u64)|
                        self@.contains_key(key) <==> before@.remove(gone).contains_key(key) by {
                        if self@.contains_key(key) {
                            let a = choose|a: int|
                                0 <= a < self.requests@.len() && key_of(self.requests@[a]) == key;
                            let a0 = if a < i { a } else { a + 1 };
                            assert(self.requests@[a] == before.requests@[a0]);
                            assert(key_of(before.requests@[a0]) == key);
                            if key == gone {
                                assert(a0 == i);
                            }
                        }
                        if before@.contains_key(key) && key != gone {
                            let a0 = choose|a0: int|
                                0 <= a0 < before.requests@.len() && key_of(before.requests@[a0])
                                    == key;
                            let a = if a0 < i { a0 } else { a0 - 1 };
                            assert(self.requests@[a] == before.requests@[a0]);
                        }
                    }
                    assert forall|key: (Address, u64)| self@.contains_key(key) implies self@[key]
                        == before@.remove(gone)[key] by {
                        let a = choose|a: int|
                            0 <= a < self.requests@.len() && key_of(self.requests@[a]) == key;
                        let a0 = if a < i { a } else { a + 1 };
                        assert(self.requests@[a] == before.requests@[a0]);
                        self.lemma_at(a);
                        before.lemma_at(a0);
                    }
                }
            },
            None => {
                assert(!before@.contains_key(gone));
                assert(before@.remove(gone) =~= before@);
            },
        }
    }

    /// How many requests are live.
    pub fn len(&self) -> (n: usize)
        ensures
            n == self@.dom().len(),
    {
        proof {
            use_type_invariant(self);
            self.lemma_count(self.requests@.len() as int);
            assert(self.prefix_keys(self.requests@.len() as int) =~= self@.dom());
        }
        self.requests.len()
    }

    /// The keys of the first `n` requests stored.
    spec fn prefix_keys(self, n: int) -> Set<(Address, u64)> {
        Set::new(
            |key: (Address, u64)|
                exists|i: int| 0 <= i < n && i < self.requests@.len() && key_of(self.requests@[i]) == key,
        )
    }

    /// The first `n` requests have `n` keys between them.
    proof fn lemma_count(self, n: int)
        requires
            self.distinct_keys(),
            0 <= n <= self.requests@.len(),
        ensures
            self.prefix_keys(n).finite(),
            self.prefix_keys(n).len() == n,
        decreases n,
    {
        if n == 0 {
            assert(self.prefix_keys(0) =~= Set::<(Address, u64)>::empty());
        } else {
            self.lemma_count(n - 1);
            let key = key_of(self.requests@[n - 1]);
            assert(!self.prefix_keys(n - 1).contains(key));
            assert(self.prefix_keys(n) =~= self.prefix_keys(n - 1).insert(key)) by {
                assert forall|k: (Address, u64)|
                    self.prefix_keys(n).contains(k) <==> self.prefix_keys(n - 1).insert(
                        key,
                    ).contains(k) by {
                    if self.prefix_keys(n).contains(k) {
                        let i = choose|i: int|
                            0 <= i < n && i < self.requests@.len() && key_of(self.requests@[i])
                                == k;
                        if i < n - 1 {
                            assert(self.prefix_keys(n - 1).contains(k));
                        }
                    }
                    if k == key {
                        assert(key_of(self.requests@[n - 1]) == k);
                    }
                }
            }
        }
    }
}

} // verus!
