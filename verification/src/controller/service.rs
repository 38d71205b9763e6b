//! The controller of one deployed token: its configuration and its live
//! redemption requests, and the operations that find their request in that
//! store and their blacklist markers at the gatekeeper.

use crate::address::Address;
use crate::controller::accounts::CancelRedemption;
use crate::controller::accounts::FulfillRedemption;
use crate::controller::accounts::RemoveBlacklist;
use crate::controller::accounts::RequestRedemption;
use crate::controller::accounts::UpdateBlacklist;
use crate::controller::accounts::UpdateRedemptionStatus;
use crate::controller::accounts::WipeAddress;
use crate::controller::errors::GoldTokenError;
use crate::controller::events::AddressBlacklisted;
use crate::controller::events::AddressUnblacklisted;
use crate::controller::events::RedemptionCancelled;
use crate::controller::events::RedemptionFulfilled;
use crate::controller::events::RedemptionRequested;
use crate::controller::events::RedemptionStatusUpdated;
use crate::controller::events::TokensWiped;
use crate::controller::protection::add_to_blacklist_error;
use crate::controller::protection::remove_from_blacklist_error;
use crate::controller::protection::wipe_blacklisted_address_error;
use crate::controller::redemption::cancel_redemption_error;
use crate::controller::redemption::fulfill_redemption_error;
use crate::controller::redemption::new_request;
use crate::controller::redemption::request_redemption_error;
use crate::controller::redemption::set_redemption_processing_error;
use crate::controller::requests::RedemptionLedger;
use crate::controller::state::Config;
use crate::controller::state::RedemptionRequest;
use crate::controller::state::RedemptionStatus;
use crate::gatekeeper::service::marker_of;
use crate::gatekeeper::service::Gatekeeper;
use crate::gatekeeper::service::GatekeeperState;
use crate::ledger::TokenAccount;
use crate::pda::created_program_address;
use crate::pda::custody_delegate_with_bump;
use crate::pda::custody_seeds;
use crate::pda::find_custody_delegate;
use crate::pda::found_program_address;
use vstd::prelude::*;

verus! {

/// The controller of one deployed token.
#[derive(Debug)]
pub struct Controller {
    /// The controller's own address, under which custody delegates are derived.
    pub program_id: Address,
    pub config: Config,
    /// The live redemption requests.
    pub requests: RedemptionLedger,
}

/// What a controller is, with its live requests as a map from user and
/// request id.
#[verifier::ext_equal]
pub struct ControllerState {
    pub program_id: Address,
    pub config: Config,
    pub requests: Map<(Address, u64), RedemptionRequest>,
}

impl View for Controller {
    type V = ControllerState;

    open spec fn view(&self) -> ControllerState {
        ControllerState {
            program_id: self.program_id,
            config: self.config,
            requests: self.requests@,
        }
    }
}

/// The custody delegate of the request `request_id` of `user` under
/// `program`, with its bump seed, where the search finds one.
pub open spec fn found_custody(program: Address, user: Address, request_id: u64) -> Option<
    (Address, u8),
> {
    match found_program_address(custody_seeds(user, request_id), program@) {
        Some((bytes, bump)) => Some((Address::of_bytes(bytes), bump)),
        None => None,
    }
}

/// The custody delegate that `bump` derives for the request `request_id` of
/// `user` under `program`, where it derives one.
pub open spec fn created_custody(program: Address, user: Address, request_id: u64, bump: u8)
    -> Option<Address> {
    match created_program_address(custody_seeds(user, request_id).push(seq![bump]), program@) {
        Some(bytes) => Some(Address::of_bytes(bytes)),
        None => None,
    }
}

impl ControllerState {
    /// The request of `user` with id `request_id`, where it is live.
    pub open spec fn slot(self, user: Address, request_id: u64) -> Option<RedemptionRequest> {
        if self.requests.contains_key((user, request_id)) {
            Some(self.requests[(user, request_id)])
        } else {
            None
        }
    }

    /// The id that the next request gets.
    pub open spec fn next_request_id(self) -> u64 {
        (self.config.redemption_request_counter + 1) as u64
    }

    /// Every live request is stored under its own user and id, has an id
    /// that the counter has reached, a positive amount and a status that is
    /// not final; and no two live requests share an id.
    pub open spec fn wf(self) -> bool {
        &&& forall|key: (Address, u64)| #[trigger]
            self.requests.contains_key(key) ==> {
                &&& self.requests[key].user == key.0
                &&& self.requests[key].request_id == key.1
                &&& 1 <= key.1 <= self.config.redemption_request_counter
                &&& self.requests[key].amount > 0
                &&& !self.requests[key].status.is_terminal()
            }
        &&& forall|a: (Address, u64), b: (Address, u64)|
            #![trigger self.requests.contains_key(a), self.requests.contains_key(b)]
            self.requests.contains_key(a) && self.requests.contains_key(b) && a.1 == b.1 ==> a
                == b
    }

    /// The accounts of a request for redemption by `user` on `account`,
    /// with `custody` as the new request's custody delegate.
    pub open spec fn request_accounts(
        self,
        user: Address,
        account: TokenAccount,
        custody: Option<(Address, u8)>,
    ) -> RequestRedemption {
        RequestRedemption {
            program_id: self.program_id,
            user,
            config: self.config,
            redemption_request: if self.config.redemption_request_counter < u64::MAX {
                self.slot(user, self.next_request_id())
            } else {
                None
            },
            user_token_account: account,
            mint: self.config.mint,
            redemption_pda: match custody {
                Some((address, _)) => address,
                None => user,
            },
        }
    }

    /// The controller and the account after `user` asked to redeem `amount`
    /// from `account`, and the answer.
    pub open spec fn requested(
        self,
        user: Address,
        account: TokenAccount,
        custody: Option<(Address, u8)>,
        amount: u64,
        now: i64,
    ) -> (ControllerState, TokenAccount, Result<RedemptionRequested, GoldTokenError>) {
        let accounts = self.request_accounts(user, account, custody);
        let bump = match custody {
            Some((_, bump)) => Some(bump),
            None => None,
        };
        match request_redemption_error(accounts, bump, amount) {
            Some(e) => (self, account, Err(e)),
            None => (
                ControllerState {
                    config: Config {
                        redemption_request_counter: self.next_request_id(),
                        ..self.config
                    },
                    requests: self.requests.insert(
                        (user, self.next_request_id()),
                        new_request(accounts, bump->Some_0, amount, now),
                    ),
                    ..self
                },
                account.approved(accounts.redemption_pda, amount),
                Ok(
                    RedemptionRequested {
                        user,
                        request_id: self.next_request_id(),
                        amount,
                        timestamp: now,
                    },
                ),
            ),
        }
    }

    /// The controller after `supply_controller` asked to claim the request
    /// of `user` with id `request_id`, and the answer.
    pub open spec fn claimed(self, supply_controller: Address, user: Address, request_id: u64) -> (
        ControllerState,
        Result<RedemptionStatusUpdated, GoldTokenError>,
    ) {
        match self.slot(user, request_id) {
            None => (self, Err(GoldTokenError::InvalidRequestStatus)),
            Some(request) => {
                let accounts = UpdateRedemptionStatus {
                    config: self.config,
                    supply_controller,
                    redemption_request: request,
                };
                match set_redemption_processing_error(accounts) {
                    Some(e) => (self, Err(e)),
                    None => (
                        ControllerState {
                            requests: self.requests.insert(
                                (user, request_id),
                                RedemptionRequest {
                                    status: RedemptionStatus::Processing,
                                    ..request
                                },
                            ),
                            ..self
                        },
                        Ok(
                            RedemptionStatusUpdated {
                                user: request.user,
                                request_id: request.request_id,
                                old_status: RedemptionStatus::Pending,
                                new_status: RedemptionStatus::Processing,
                            },
                        ),
                    ),
                }
            },
        }
    }

    /// The accounts of the fulfilment of `request` from `account`, with
    /// `custody` as the request's custody delegate.
    pub open spec fn fulfil_accounts(
        self,
        supply_controller: Address,
        user: Address,
        request: RedemptionRequest,
        account: TokenAccount,
        custody: Option<Address>,
    ) -> FulfillRedemption {
        FulfillRedemption {
            program_id: self.program_id,
            config: self.config,
            supply_controller,
            redemption_request: request,
            mint: self.config.mint,
            user_token_account: account,
            user,
            redemption_pda: match custody {
                Some(address) => address,
                None => user,
            },
        }
    }

    /// The controller and the account after `supply_controller` asked to
    /// fulfil the request of `user` with id `request_id` from `account`, and
    /// the answer. A fulfilled request is reclaimed.
    pub open spec fn fulfilled(
        self,
        supply_controller: Address,
        user: Address,
        request_id: u64,
        account: TokenAccount,
        custody: Option<Address>,
        now: i64,
    ) -> (ControllerState, TokenAccount, Result<RedemptionFulfilled, GoldTokenError>) {
        match self.slot(user, request_id) {
            None => (self, account, Err(GoldTokenError::InvalidRequestStatus)),
            Some(request) => {
                let accounts = self.fulfil_accounts(
                    supply_controller,
                    user,
                    request,
                    account,
                    custody,
                );
                match fulfill_redemption_error(accounts, custody is Some) {
                    Some(e) => (self, account, Err(e)),
                    None => (
                        ControllerState {
                            requests: self.requests.remove((user, request_id)),
                            ..self
                        },
                        account.burned(accounts.redemption_pda, request.amount),
                        Ok(
                            RedemptionFulfilled {
                                user: request.user,
                                request_id: request.request_id,
                                amount: request.amount,
                                timestamp: now,
                            },
                        ),
                    ),
                }
            },
        }
    }

    /// The controller and the account after `user` asked to cancel its
    /// request with id `request_id`, and the answer. A cancelled request is
    /// reclaimed.
    pub open spec fn cancelled(
        self,
        user: Address,
        request_id: u64,
        account: TokenAccount,
        now: i64,
    ) -> (ControllerState, TokenAccount, Result<RedemptionCancelled, GoldTokenError>) {
        match self.slot(user, request_id) {
            None => (self, account, Err(GoldTokenError::InvalidRequestStatus)),
            Some(request) => {
                let accounts = CancelRedemption {
                    user,
                    redemption_request: request,
                    user_token_account: account,
                };
                match cancel_redemption_error(accounts) {
                    Some(e) => (self, account, Err(e)),
                    None => (
                        ControllerState {
                            requests: self.requests.remove((user, request_id)),
                            ..self
                        },
                        account.revoked(),
                        Ok(
                            RedemptionCancelled {
                                user: request.user,
                                request_id: request.request_id,
                                amount: request.amount,
                                timestamp: now,
                            },
                        ),
                    ),
                }
            },
        }
    }

    /// The gatekeeper after `asset_protection` asked the controller to
    /// blacklist `target`, and the answer.
    pub open spec fn blacklisted(
        self,
        gatekeeper: GatekeeperState,
        asset_protection: Address,
        target: Address,
    ) -> (GatekeeperState, Result<AddressBlacklisted, GoldTokenError>) {
        let accounts = UpdateBlacklist {
            config: self.config,
            asset_protection,
            mint: gatekeeper.mint,
            target_address: target,
            blacklist_entry: marker_of(gatekeeper.blacklist, target),
            gatekeeper_config: gatekeeper.config,
        };
        match add_to_blacklist_error(accounts) {
            Some(e) => (gatekeeper, Err(e)),
            None => (
                GatekeeperState { blacklist: gatekeeper.blacklist.insert(target), ..gatekeeper },
                Ok(AddressBlacklisted { address: target, authority: asset_protection }),
            ),
        }
    }

    /// The gatekeeper after `asset_protection` asked the controller to take
    /// `target` off the blacklist, and the answer.
    pub open spec fn unblacklisted(
        self,
        gatekeeper: GatekeeperState,
        asset_protection: Address,
        target: Address,
    ) -> (GatekeeperState, Result<AddressUnblacklisted, GoldTokenError>) {
        let accounts = RemoveBlacklist {
            config: self.config,
            asset_protection,
            mint: gatekeeper.mint,
            target_address: target,
            blacklist_entry: marker_of(gatekeeper.blacklist, target),
            gatekeeper_config: gatekeeper.config,
        };
        match remove_from_blacklist_error(accounts) {
            Some(e) => (gatekeeper, Err(e)),
            None => (
                GatekeeperState { blacklist: gatekeeper.blacklist.remove(target), ..gatekeeper },
                Ok(AddressUnblacklisted { address: target, authority: asset_protection }),
            ),
        }
    }

    /// The account after `asset_protection` asked to wipe `amount` from it,
    /// and the answer. The account's owner is the target.
    pub open spec fn wiped(
        self,
        gatekeeper: GatekeeperState,
        asset_protection: Address,
        account: TokenAccount,
        amount: u64,
    ) -> (TokenAccount, Result<TokensWiped, GoldTokenError>) {
        let accounts = WipeAddress {
            config: self.config,
            asset_protection,
            mint: gatekeeper.mint,
            target_user: account.owner,
            target_token_account: account,
            blacklist_entry: marker_of(gatekeeper.blacklist, account.owner),
        };
        match wipe_blacklisted_address_error(accounts, amount) {
            Some(e) => (account, Err(e)),
            None => (
                account.seized(amount),
                Ok(TokensWiped { target_user: account.owner, amount, authority: asset_protection }),
            ),
        }
    }
}

impl Controller {
    /// A controller at `program_id` with the given configuration and no
    /// live request.
    pub fn new(program_id: Address, config: Config) -> (controller: Controller)
        ensures
            controller@ == (ControllerState {
                program_id,
                config,
                requests: Map::<(Address, u64), RedemptionRequest>::empty(),
            }),
    {
        Controller { program_id, config, requests: RedemptionLedger::new() }
    }

    /// Creates a redemption request of `user` for `amount` on `account`,
    /// given the custody delegate of the new request and its bump seed.
    pub fn request_redemption_under(
        &mut self,
        user: Address,
        account: &mut TokenAccount,
        custody: Option<(Address, u8)>,
        amount: u64,
        now: i64,
    ) -> (r: Result<RedemptionRequested, GoldTokenError>)
        ensures
            final(self)@ == old(self)@.requested(user, *old(account), custody, amount, now).0,
            *final(account) == old(self)@.requested(user, *old(account), custody, amount, now).1,
            r == old(self)@.requested(user, *old(account), custody, amount, now).2,
    {
        let existing = match self.config.redemption_request_counter.checked_add(1) {
            Some(request_id) => self.requests.get(&user, request_id),
            None => None,
        };
        let (redemption_pda, bump) = match custody {
            Some((address, bump)) => (address, Some(bump)),
            None => (user, None),
        };
        let mut accounts = RequestRedemption {
            program_id: self.program_id,
            user,
            config: self.config,
            redemption_request: existing,
            user_token_account: *account,
            mint: self.config.mint,
            redemption_pda,
        };
        let r = crate::controller::redemption::request_redemption_under(
            &mut accounts,
            bump,
            amount,
            now,
        );
        if r.is_ok() {
            self.config = accounts.config;
            match accounts.redemption_request {
                Some(request) => self.requests.put(request),
                None => {},
            }
            *account = accounts.user_token_account;
        }
        r
    }

    /// Creates a redemption request of `user` for `amount` on `account`:
    /// `request_redemption_under`, with the custody delegate derived from
    /// the controller's address, the user and the new request's id. The
    /// delegate that holds the amount afterwards is the one that a
    /// fulfilment of the request derives.
    pub fn request_redemption(
        &mut self,
        user: Address,
        account: &mut TokenAccount,
        amount: u64,
        now: i64,
    ) -> (r: Result<RedemptionRequested, GoldTokenError>)
        ensures
            final(self)@ == old(self)@.requested(
                user,
                *old(account),
                found_custody(old(self).program_id, user, old(self)@.next_request_id()),
                amount,
                now,
            ).0,
            *final(account) == old(self)@.requested(
                user,
                *old(account),
                found_custody(old(self).program_id, user, old(self)@.next_request_id()),
                amount,
                now,
            ).1,
            r == old(self)@.requested(
                user,
                *old(account),
                found_custody(old(self).program_id, user, old(self)@.next_request_id()),
                amount,
                now,
            ).2,
            r is Ok ==> created_custody(
                old(self).program_id,
                user,
                old(self)@.next_request_id(),
                final(self)@.requests[(user, old(self)@.next_request_id())].redemption_pda_bump,
            ) == final(account).delegate,
    {
        let custody = match self.config.redemption_request_counter.checked_add(1) {
            Some(request_id) => {
                let found = find_custody_delegate(&self.program_id, &user, request_id);
                proof {
                    if let Some((address, _)) = found {
                        Address::lemma_of_bytes(address);
                    }
                }
                found
            },
            None => None,
        };
        self.request_redemption_under(user, account, custody, amount, now)
    }

    /// Claims the `Pending` request of `user` with id `request_id` for
    /// fulfilment, on the supply controller's signature.
    pub fn set_redemption_processing(
        &mut self,
        supply_controller: Address,
        user: Address,
        request_id: u64,
    ) -> (r: Result<RedemptionStatusUpdated, GoldTokenError>)
        ensures
            final(self)@ == old(self)@.claimed(supply_controller, user, request_id).0,
            r == old(self)@.claimed(supply_controller, user, request_id).1,
    {
        let request = match self.requests.get(&user, request_id) {
            Some(request) => request,
            None => {
                return Err(GoldTokenError::InvalidRequestStatus);
            },
        };
        proof {
            self.requests.lemma_keyed();
        }
        let mut accounts = UpdateRedemptionStatus {
            config: self.config,
            supply_controller,
            redemption_request: request,
        };
        let r = crate::controller::redemption::set_redemption_processing(&mut accounts);
        if r.is_ok() {
            self.requests.put(accounts.redemption_request);
        }
        r
    }

    /// Fulfils the request of `user` with id `request_id` from `account`, on
    /// the supply controller's signature, given the request's custody
    /// delegate. The request is reclaimed.
    pub fn fulfill_redemption_under(
        &mut self,
        supply_controller: Address,
        user: Address,
        request_id: u64,
        account: &mut TokenAccount,
        custody: Option<Address>,
        now: i64,
    ) -> (r: Result<RedemptionFulfilled, GoldTokenError>)
        ensures
            final(self)@ == old(self)@.fulfilled(
                supply_controller,
                user,
                request_id,
                *old(account),
                custody,
                now,
            ).0,
            *final(account) == old(self)@.fulfilled(
                supply_controller,
                user,
                request_id,
                *old(account),
                custody,
                now,
            ).1,
            r == old(self)@.fulfilled(
                supply_controller,
                user,
                request_id,
                *old(account),
                custody,
                now,
            ).2,
    {
        let request = match self.requests.get(&user, request_id) {
            Some(request) => request,
            None => {
                return Err(GoldTokenError::InvalidRequestStatus);
            },
        };
        let mut accounts = FulfillRedemption {
            program_id: self.program_id,
            config: self.config,
            supply_controller,
            redemption_request: request,
            mint: self.config.mint,
            user_token_account: *account,
            user,
            redemption_pda: match custody {
                Some(address) => address,
                None => user,
            },
        };
        let r = crate::controller::redemption::fulfill_redemption_under(
            &mut accounts,
            custody.is_some(),
            now,
        );
        if r.is_ok() {
            self.requests.remove(&user, request_id);
            *account = accounts.user_token_account;
        }
        r
    }

    /// Fulfils the request of `user` with id `request_id` from `account`:
    /// `fulfill_redemption_under`, with the custody delegate derived from
    /// the controller's address, the user, the id and the request's bump
    /// seed.
    pub fn fulfill_redemption(
        &mut self,
        supply_controller: Address,
        user: Address,
        request_id: u64,
        account: &mut TokenAccount,
        now: i64,
    ) -> (r: Result<RedemptionFulfilled, GoldTokenError>)
        ensures
            old(self)@.slot(user, request_id) is None ==> r == Err::<
                RedemptionFulfilled,
                GoldTokenError,
            >(GoldTokenError::InvalidRequestStatus) && final(self)@ == old(self)@
                && *final(account) == *old(account),
            old(self)@.slot(user, request_id) is Some ==> {
                let custody = created_custody(
                    old(self).program_id,
                    user,
                    request_id,
                    old(self)@.slot(user, request_id)->Some_0.redemption_pda_bump,
                );
                &&& final(self)@ == old(self)@.fulfilled(
                    supply_controller,
                    user,
                    request_id,
                    *old(account),
                    custody,
                    now,
                ).0
                &&& *final(account) == old(self)@.fulfilled(
                    supply_controller,
                    user,
                    request_id,
                    *old(account),
                    custody,
                    now,
                ).1
                &&& r == old(self)@.fulfilled(
                    supply_controller,
                    user,
                    request_id,
                    *old(account),
                    custody,
                    now,
                ).2
            },
    {
        let custody = match self.requests.get(&user, request_id) {
            Some(request) => {
                let created = custody_delegate_with_bump(
                    &self.program_id,
                    &user,
                    request_id,
                    request.redemption_pda_bump,
                );
                proof {
                    if let Some(address) = created {
                        Address::lemma_of_bytes(address);
                    }
                }
                created
            },
            None => None,
        };
        self.fulfill_redemption_under(supply_controller, user, request_id, account, custody, now)
    }

    /// Cancels the `Pending` request of `user` with id `request_id`, on the
    /// user's signature, and releases the hold on `account`. The request is
    /// reclaimed.
    pub fn cancel_redemption(
        &mut self,
        user: Address,
        request_id: u64,
        account: &mut TokenAccount,
        now: i64,
    ) -> (r: Result<RedemptionCancelled, GoldTokenError>)
        ensures
            final(self)@ == old(self)@.cancelled(user, request_id, *old(account), now).0,
            *final(account) == old(self)@.cancelled(user, request_id, *old(account), now).1,
            r == old(self)@.cancelled(user, request_id, *old(account), now).2,
    {
        let request = match self.requests.get(&user, request_id) {
            Some(request) => request,
            None => {
                return Err(GoldTokenError::InvalidRequestStatus);
            },
        };
        let mut accounts = CancelRedemption {
            user,
            redemption_request: request,
            user_token_account: *account,
        };
        let r = crate::controller::redemption::cancel_redemption(&mut accounts, now);
        if r.is_ok() {
            self.requests.remove(&user, request_id);
            *account = accounts.user_token_account;
        }
        r
    }

    /// Blacklists `target` at the gatekeeper, on the asset-protection
    /// officer's signature.
    pub fn add_to_blacklist(
        &self,
        gatekeeper: &mut Gatekeeper,
        asset_protection: Address,
        target: Address,
    ) -> (r: Result<AddressBlacklisted, GoldTokenError>)
        ensures
            final(gatekeeper)@ == self@.blacklisted(old(gatekeeper)@, asset_protection, target).0,
            r == self@.blacklisted(old(gatekeeper)@, asset_protection, target).1,
    {
        let mut accounts = UpdateBlacklist {
            config: self.config,
            asset_protection,
            mint: gatekeeper.mint,
            target_address: target,
            blacklist_entry: gatekeeper.blacklist.entry(&target),
            gatekeeper_config: gatekeeper.config,
        };
        let r = crate::controller::protection::add_to_blacklist(&mut accounts);
        if r.is_ok() {
            gatekeeper.blacklist.set_entry(target, accounts.blacklist_entry);
        }
        r
    }

    /// Takes `target` off the blacklist at the gatekeeper, on the
    /// asset-protection officer's signature.
    pub fn remove_from_blacklist(
        &self,
        gatekeeper: &mut Gatekeeper,
        asset_protection: Address,
        target: Address,
    ) -> (r: Result<AddressUnblacklisted, GoldTokenError>)
        ensures
            final(gatekeeper)@ == self@.unblacklisted(
                old(gatekeeper)@,
                asset_protection,
                target,
            ).0,
            r == self@.unblacklisted(old(gatekeeper)@, asset_protection, target).1,
    {
        let mut accounts = RemoveBlacklist {
            config: self.config,
            asset_protection,
            mint: gatekeeper.mint,
            target_address: target,
            blacklist_entry: gatekeeper.blacklist.entry(&target),
            gatekeeper_config: gatekeeper.config,
        };
        let r = crate::controller::protection::remove_from_blacklist(&mut accounts);
        if r.is_ok() {
            gatekeeper.blacklist.set_entry(target, accounts.blacklist_entry);
        }
        r
    }

    /// Wipes `amount` from `account`, whose owner must be blacklisted at the
    /// gatekeeper, on the asset-protection officer's signature.
    pub fn wipe_blacklisted_address(
        &self,
        gatekeeper: &Gatekeeper,
        asset_protection: Address,
        account: &mut TokenAccount,
        amount: u64,
    ) -> (r: Result<TokensWiped, GoldTokenError>)
        ensures
            *final(account) == self@.wiped(gatekeeper@, asset_protection, *old(account), amount).0,
            r == self@.wiped(gatekeeper@, asset_protection, *old(account), amount).1,
    {
        let mut accounts = WipeAddress {
            config: self.config,
            asset_protection,
            mint: gatekeeper.mint,
            target_user: account.owner,
            target_token_account: *account,
            blacklist_entry: gatekeeper.blacklist.entry(&account.owner),
        };
        let r = crate::controller::protection::wipe_blacklisted_address(&mut accounts, amount);
        if r.is_ok() {
            *account = accounts.target_token_account;
        }
        r
    }
}

} // verus!
