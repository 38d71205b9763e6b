//! What holds of the controller and the gatekeeper whatever the inputs,
//! proved from the definitions of their operations.

use crate::address::Address;
use crate::controller::accounts::CancelRedemption;
use crate::controller::accounts::FulfillRedemption;
use crate::controller::accounts::MintTokens;
use crate::controller::accounts::RequestRedemption;
use crate::controller::accounts::UpdateRedemptionStatus;
use crate::controller::errors::GoldTokenError;
use crate::controller::events::RedemptionRequested;
use crate::controller::redemption::cancel_redemption_error;
use crate::controller::redemption::cancelled;
use crate::controller::redemption::fulfill_redemption_error;
use crate::controller::fees::fee_operation_error;
use crate::controller::redemption::fulfilled;
use crate::controller::redemption::request_redemption_error;
use crate::controller::redemption::set_redemption_processing_error;
use crate::controller::service::ControllerState;
use crate::controller::state::RedemptionStatus;
use crate::controller::supply::mint_tokens_error;
use crate::controller::supply::minted;
use crate::gatekeeper::errors::GatekeeperError;
use crate::gatekeeper::service::GatekeeperState;
use crate::ledger::TokenAccount;
use vstd::prelude::*;

verus! {

/// A request for a positive amount that the balance covers creates exactly
/// one request: it is `Pending`, fixes the amount asked for, and has the id
/// after the counter's; the custody delegate holds exactly that amount, and
/// no token has moved.
///
/// This is so of a controller that is not paused and whose counter is not
/// exhausted, for an account of the configured token unit that the user
/// owns and that carries no hold, and where a custody delegate can be
/// derived.
pub proof fn request_creates_one_pending_hold(
    state: ControllerState,
    user: Address,
    account: TokenAccount,
    custody: (Address, u8),
    amount: u64,
    now: i64,
)
    requires
        state.wf(),
        amount > 0,
        account.amount >= amount,
        !state.config.is_paused,
        state.config.redemption_request_counter < u64::MAX,
        account.mint == state.config.mint,
        account.owner == user,
        account.delegate is None,
    ensures
        ({
            let (after, held, answer) = state.requested(user, account, Some(custody), amount, now);
            let id = (state.config.redemption_request_counter + 1) as u64;
            &&& answer == Ok::<RedemptionRequested, GoldTokenError>(
                RedemptionRequested { user, request_id: id, amount, timestamp: now },
            )
            &&& !state.requests.contains_key((user, id))
            &&& after.requests.dom() == state.requests.dom().insert((user, id))
            &&& forall|key: (Address, u64)|
                state.requests.contains_key(key) ==> after.requests[key] == state.requests[key]
            &&& after.requests[(user, id)].status == RedemptionStatus::Pending
            &&& after.requests[(user, id)].amount == amount
            &&& after.requests[(user, id)].request_id == id
            &&& after.requests[(user, id)].user == user
            &&& after.config.redemption_request_counter == id
            &&& held.holds_for(custody.0, amount)
            &&& held.delegated_amount == amount
            &&& held.amount == account.amount
            &&& after.wf()
        }),
{
    let (after, held, answer) = state.requested(user, account, Some(custody), amount, now);
    let id = (state.config.redemption_request_counter + 1) as u64;
    assert(!state.requests.contains_key((user, id)));
    assert(after.requests.dom() =~= state.requests.dom().insert((user, id)));
    assert(after.wf()) by {
        assert forall|a: (Address, u64), b: (Address, u64)|
            after.requests.contains_key(a) && after.requests.contains_key(b) && a.1
                == b.1 implies a == b by {
            if a != (user, id) {
                assert(state.requests.contains_key(a));
            }
            if b != (user, id) {
                assert(state.requests.contains_key(b));
            }
        }
    }
}

/// The id of a new request is the id of no live request, whoever made it.
pub proof fn request_id_is_fresh(state: ControllerState, key: (Address, u64))
    requires
        state.wf(),
        state.requests.contains_key(key),
    ensures
        key.1 != state.config.redemption_request_counter + 1,
{
}

/// A fulfilment burns exactly the amount that the request fixed, whatever
/// the balance is when it happens.
pub proof fn fulfil_burns_the_requested_amount(
    accounts: FulfillRedemption,
    custody_verified: bool,
    now: i64,
)
    requires
        fulfill_redemption_error(accounts, custody_verified) is None,
    ensures
        fulfilled(accounts, now).user_token_account.amount == accounts.user_token_account.amount
            - accounts.redemption_request.amount,
        fulfilled(accounts, now).redemption_request.amount == accounts.redemption_request.amount,
        fulfilled(accounts, now).redemption_request.status == RedemptionStatus::Fulfilled,
        fulfilled(accounts, now).redemption_request.completed_at == now,
{
}

/// A fulfilment fails where the balance has fallen below the amount that
/// the request fixed, and then changes neither the controller nor the
/// account. With the accounts otherwise in order, the failure is
/// `InsufficientBalance`.
pub proof fn fulfil_fails_on_a_short_balance(
    state: ControllerState,
    supply_controller: Address,
    user: Address,
    request_id: u64,
    account: TokenAccount,
    custody: Option<Address>,
    now: i64,
)
    requires
        state.slot(user, request_id) is Some,
        account.amount < state.slot(user, request_id)->Some_0.amount,
    ensures
        ({
            let (after, left, answer) = state.fulfilled(
                supply_controller,
                user,
                request_id,
                account,
                custody,
                now,
            );
            &&& answer is Err
            &&& after == state
            &&& left == account
            &&& state.wf() && supply_controller == state.config.supply_controller && custody is Some
                ==> answer->Err_0 == GoldTokenError::InsufficientBalance
        }),
{
}

/// A request that was created is fulfilled for its own amount: after a
/// request for `amount`, whatever the balance has become, a fulfilment
/// under the same custody delegate burns `amount` where the balance still
/// covers it, reclaims the request, and cannot be repeated; and fails with
/// `InsufficientBalance`, changing nothing, where the balance does not.
pub proof fn fulfil_after_request(
    state: ControllerState,
    user: Address,
    account: TokenAccount,
    custody: (Address, u8),
    amount: u64,
    now: i64,
    live_balance: u64,
    later: i64,
)
    requires
        state.wf(),
        amount > 0,
        account.amount >= amount,
        !state.config.is_paused,
        state.config.redemption_request_counter < u64::MAX,
        account.mint == state.config.mint,
        account.owner == user,
        account.delegate is None,
    ensures
        ({
            let (created, held, _) = state.requested(user, account, Some(custody), amount, now);
            let id = (state.config.redemption_request_counter + 1) as u64;
            let live = TokenAccount { amount: live_balance, ..held };
            let (after, left, answer) = created.fulfilled(
                state.config.supply_controller,
                user,
                id,
                live,
                Some(custody.0),
                later,
            );
            &&& live_balance >= amount ==> {
                &&& answer is Ok
                &&& answer->Ok_0.amount == amount
                &&& left.amount == live_balance - amount
                &&& left.delegate is None
                &&& after.requests == state.requests
                &&& after.fulfilled(
                    state.config.supply_controller,
                    user,
                    id,
                    left,
                    Some(custody.0),
                    later,
                ).2 == Err::<crate::controller::events::RedemptionFulfilled, GoldTokenError>(
                    GoldTokenError::InvalidRequestStatus,
                )
            }
            &&& live_balance < amount ==> {
                &&& answer == Err::<crate::controller::events::RedemptionFulfilled, GoldTokenError>(
                    GoldTokenError::InsufficientBalance,
                )
                &&& after == created
                &&& left == live
            }
        }),
{
    let (created, held, _) = state.requested(user, account, Some(custody), amount, now);
    let id = (state.config.redemption_request_counter + 1) as u64;
    assert(!state.requests.contains_key((user, id)));
    assert(created.requests.remove((user, id)) =~= state.requests);
}

/// A cancellation by the request's user, who owns the account, succeeds if
/// and only if the request is `Pending`.
pub proof fn cancel_succeeds_iff_pending(accounts: CancelRedemption)
    requires
        accounts.bound(),
        accounts.user_token_account.owner == accounts.user,
    ensures
        cancel_redemption_error(accounts) is None <==> accounts.redemption_request.status
            == RedemptionStatus::Pending,
{
}

/// A cancellation of a request that is `Processing`, `Fulfilled` or
/// `Cancelled` fails with `InvalidRequestStatus`.
pub proof fn cancel_fails_unless_pending(accounts: CancelRedemption)
    requires
        accounts.bound(),
        accounts.redemption_request.status != RedemptionStatus::Pending,
    ensures
        cancel_redemption_error(accounts) == Some(GoldTokenError::InvalidRequestStatus),
{
}

/// At the controller, a cancellation of a request that is not `Pending`,
/// or that is live no longer because it was fulfilled or cancelled, fails
/// with `InvalidRequestStatus` and changes neither the controller nor the
/// account.
pub proof fn cancel_changes_nothing_unless_pending(
    state: ControllerState,
    user: Address,
    request_id: u64,
    account: TokenAccount,
    now: i64,
)
    requires
        state.wf(),
        state.slot(user, request_id) is Some ==> state.slot(user, request_id)->Some_0.status
            != RedemptionStatus::Pending,
    ensures
        state.cancelled(user, request_id, account, now) == (
            state,
            account,
            Err::<crate::controller::events::RedemptionCancelled, GoldTokenError>(
                GoldTokenError::InvalidRequestStatus,
            ),
        ),
{
}

/// Every step that an operation makes a request take is a step of the
/// lifecycle: `Pending` to `Processing`, `Fulfilled` or `Cancelled`, and
/// `Processing` to `Fulfilled`. In particular a `Processing` request is
/// never cancelled.
pub proof fn operations_follow_the_lifecycle(
    claim: UpdateRedemptionStatus,
    fulfilment: FulfillRedemption,
    custody_verified: bool,
    cancellation: CancelRedemption,
    now: i64,
)
    ensures
        set_redemption_processing_error(claim) is None ==> claim.redemption_request.status.leads_to(
            RedemptionStatus::Processing,
        ),
        fulfill_redemption_error(fulfilment, custody_verified) is None
            ==> fulfilment.redemption_request.status.leads_to(
            fulfilled(fulfilment, now).redemption_request.status,
        ),
        cancel_redemption_error(cancellation) is None
            ==> cancellation.redemption_request.status.leads_to(
            cancelled(cancellation, now).redemption_request.status,
        ),
        cancellation.redemption_request.status == RedemptionStatus::Processing
            ==> cancel_redemption_error(cancellation) is Some,
{
}

/// The operations on a live request keep the controller well formed:
/// requests stay under their own keys, with ids that the counter has
/// reached and that no two share, and none stays once its status is final.
pub proof fn operations_keep_the_controller_well_formed(
    state: ControllerState,
    supply_controller: Address,
    user: Address,
    request_id: u64,
    account: TokenAccount,
    custody: Option<Address>,
    now: i64,
)
    requires
        state.wf(),
    ensures
        state.claimed(supply_controller, user, request_id).0.wf(),
        state.fulfilled(supply_controller, user, request_id, account, custody, now).0.wf(),
        state.cancelled(user, request_id, account, now).0.wf(),
{
    let claimed = state.claimed(supply_controller, user, request_id).0;
    assert(claimed.wf()) by {
        assert forall|key: (Address, u64)| #[trigger]
            claimed.requests.contains_key(key) implies state.requests.contains_key(key) by {}
    }
    let fulfilled = state.fulfilled(supply_controller, user, request_id, account, custody, now).0;
    assert(fulfilled.wf()) by {
        assert forall|key: (Address, u64)| #[trigger]
            fulfilled.requests.contains_key(key) implies state.requests.contains_key(key) by {}
    }
    let cancelled = state.cancelled(user, request_id, account, now).0;
    assert(cancelled.wf()) by {
        assert forall|key: (Address, u64)| #[trigger]
            cancelled.requests.contains_key(key) implies state.requests.contains_key(key) by {}
    }
}

/// A hold that stands is never taken over: while an account carries a
/// hold, whoever it stands for, a request on that account is refused and
/// changes nothing, and with accounts otherwise in order the refusal is
/// `InvalidRequestStatus`. In particular a second request follows a first
/// on one account only once the first is fulfilled or cancelled.
pub proof fn a_standing_hold_is_never_taken_over(
    state: ControllerState,
    user: Address,
    account: TokenAccount,
    custody: Option<(Address, u8)>,
    amount: u64,
    now: i64,
)
    requires
        account.delegate is Some,
    ensures
        ({
            let (after, left, answer) = state.requested(user, account, custody, amount, now);
            &&& answer is Err
            &&& after == state
            &&& left == account
            &&& amount > 0 && account.amount >= amount && !state.config.is_paused && account.mint
                == state.config.mint && account.owner == user ==> answer->Err_0
                == GoldTokenError::InvalidRequestStatus
        }),
{
}

/// After a request, a second request on the same account is refused until
/// the first is fulfilled or cancelled, so that the first request's hold
/// and its fulfilment are left as they were.
pub proof fn a_second_request_waits_for_the_first(
    state: ControllerState,
    user: Address,
    account: TokenAccount,
    custody: (Address, u8),
    amount: u64,
    now: i64,
    second_custody: Option<(Address, u8)>,
    second_amount: u64,
    later: i64,
)
    requires
        state.wf(),
        amount > 0,
        account.amount >= amount,
        !state.config.is_paused,
        state.config.redemption_request_counter < u64::MAX,
        account.mint == state.config.mint,
        account.owner == user,
        account.delegate is None,
    ensures
        ({
            let (created, held, _) = state.requested(user, account, Some(custody), amount, now);
            let (after, left, answer) = created.requested(
                user,
                held,
                second_custody,
                second_amount,
                later,
            );
            let id = (state.config.redemption_request_counter + 1) as u64;
            &&& answer is Err
            &&& after == created
            &&& left == held
            &&& left.holds_for(custody.0, amount)
            &&& created.cancelled(user, id, held, later).2 is Ok
            &&& created.cancelled(user, id, held, later).1.delegate is None
        }),
{
}

/// Once a request is fulfilled or cancelled, no operation revisits it:
/// whoever asks, and with whatever account, a claim, a fulfilment or a
/// cancellation of it fails with `InvalidRequestStatus`, and the counter
/// stays where it was.
pub proof fn a_final_request_is_never_revisited(
    state: ControllerState,
    supply_controller: Address,
    user: Address,
    request_id: u64,
    account: TokenAccount,
    custody: Option<Address>,
    now: i64,
    later_signer: Address,
    later_account: TokenAccount,
    later_custody: Option<Address>,
    later: i64,
)
    ensures
        ({
            let (after_fulfilment, _, fulfilment) = state.fulfilled(
                supply_controller,
                user,
                request_id,
                account,
                custody,
                now,
            );
            let (after_cancellation, _, cancellation) = state.cancelled(
                user,
                request_id,
                account,
                now,
            );
            &&& fulfilment is Ok ==> {
                &&& after_fulfilment.slot(user, request_id) is None
                &&& after_fulfilment.config == state.config
                &&& after_fulfilment.claimed(later_signer, user, request_id).1 is Err
                &&& after_fulfilment.claimed(later_signer, user, request_id).1->Err_0
                    == GoldTokenError::InvalidRequestStatus
                &&& after_fulfilment.fulfilled(
                    later_signer,
                    user,
                    request_id,
                    later_account,
                    later_custody,
                    later,
                ).2 is Err
                &&& after_fulfilment.fulfilled(
                    later_signer,
                    user,
                    request_id,
                    later_account,
                    later_custody,
                    later,
                ).2->Err_0 == GoldTokenError::InvalidRequestStatus
                &&& after_fulfilment.cancelled(user, request_id, later_account, later).2 is Err
                &&& after_fulfilment.cancelled(user, request_id, later_account, later).2->Err_0
                    == GoldTokenError::InvalidRequestStatus
            }
            &&& cancellation is Ok ==> {
                &&& after_cancellation.slot(user, request_id) is None
                &&& after_cancellation.config == state.config
                &&& after_cancellation.claimed(later_signer, user, request_id).1 is Err
                &&& after_cancellation.claimed(later_signer, user, request_id).1->Err_0
                    == GoldTokenError::InvalidRequestStatus
                &&& after_cancellation.fulfilled(
                    later_signer,
                    user,
                    request_id,
                    later_account,
                    later_custody,
                    later,
                ).2 is Err
                &&& after_cancellation.fulfilled(
                    later_signer,
                    user,
                    request_id,
                    later_account,
                    later_custody,
                    later,
                ).2->Err_0 == GoldTokenError::InvalidRequestStatus
                &&& after_cancellation.cancelled(user, request_id, later_account, later).2 is Err
                &&& after_cancellation.cancelled(user, request_id, later_account, later).2->Err_0
                    == GoldTokenError::InvalidRequestStatus
            }
        }),
{
}

/// Blacklisting an address and then taking it off again leaves the
/// blacklist without the address, and otherwise as it was: where the
/// address was not blacklisted before, the gatekeeper is back in its prior
/// state.
pub proof fn add_then_remove_restores_the_blacklist(
    controller: ControllerState,
    gatekeeper: GatekeeperState,
    officer: Address,
    target: Address,
)
    requires
        officer == controller.config.asset_protection,
        officer == gatekeeper.config.authority,
        gatekeeper.mint == controller.config.mint,
    ensures
        ({
            let (listed, first) = controller.blacklisted(gatekeeper, officer, target);
            let (after, second) = controller.unblacklisted(listed, officer, target);
            &&& first is Ok
            &&& listed.blacklist.contains(target)
            &&& second is Ok
            &&& !after.blacklist.contains(target)
            &&& after.blacklist == gatekeeper.blacklist.remove(target)
            &&& !gatekeeper.blacklist.contains(target) ==> after == gatekeeper
        }),
{
    let (listed, first) = controller.blacklisted(gatekeeper, officer, target);
    let (after, second) = controller.unblacklisted(listed, officer, target);
    assert(after.blacklist =~= gatekeeper.blacklist.remove(target));
    if !gatekeeper.blacklist.contains(target) {
        assert(after.blacklist =~= gatekeeper.blacklist);
    }
}

/// The same round trip at the gatekeeper itself.
pub proof fn gatekeeper_add_then_remove_restores_the_blacklist(
    gatekeeper: GatekeeperState,
    authority: Address,
    target: Address,
)
    requires
        authority == gatekeeper.config.authority,
    ensures
        ({
            let (listed, first) = gatekeeper.blacklisted(authority, target);
            let (after, second) = listed.unblacklisted(authority, target);
            &&& first is Ok
            &&& second is Ok
            &&& after.blacklist == gatekeeper.blacklist.remove(target)
            &&& !gatekeeper.blacklist.contains(target) ==> after == gatekeeper
        }),
{
    let (listed, first) = gatekeeper.blacklisted(authority, target);
    let (after, second) = listed.unblacklisted(authority, target);
    assert(after.blacklist =~= gatekeeper.blacklist.remove(target));
    if !gatekeeper.blacklist.contains(target) {
        assert(after.blacklist =~= gatekeeper.blacklist);
    }
}

/// A wipe of a positive amount from an account whose owner is not
/// blacklisted fails with `AddressNotBlacklisted` and leaves the account as
/// it was, whatever its balance.
pub proof fn wipe_needs_a_blacklisted_owner(
    controller: ControllerState,
    gatekeeper: GatekeeperState,
    officer: Address,
    account: TokenAccount,
    amount: u64,
)
    requires
        officer == controller.config.asset_protection,
        gatekeeper.mint == controller.config.mint,
        account.mint == gatekeeper.mint,
        amount > 0,
        !gatekeeper.blacklist.contains(account.owner),
    ensures
        controller.wiped(gatekeeper, officer, account, amount) == (
            account,
            Err::<crate::controller::events::TokensWiped, GoldTokenError>(
                GoldTokenError::AddressNotBlacklisted,
            ),
        ),
{
}

/// The gatekeeper denies a transfer that the source's owner signed if and
/// only if the owner of the source or the owner of the destination is
/// blacklisted, and approves it otherwise; the amount makes no difference.
pub proof fn gatekeeper_denies_iff_blacklisted(
    gatekeeper: GatekeeperState,
    source: TokenAccount,
    destination: TokenAccount,
    amount: u64,
    other_amount: u64,
)
    ensures
        gatekeeper.checked(source, destination, source.owner, amount) == Err::<
            (),
            GatekeeperError,
        >(GatekeeperError::AddressBlacklisted) <==> gatekeeper.blacklist.contains(source.owner)
            || gatekeeper.blacklist.contains(destination.owner),
        !gatekeeper.blacklist.contains(source.owner) && !gatekeeper.blacklist.contains(
            destination.owner,
        ) ==> gatekeeper.checked(source, destination, source.owner, amount) == Ok::<
            (),
            GatekeeperError,
        >(()),
        gatekeeper.checked(source, destination, source.owner, amount) == gatekeeper.checked(
            source,
            destination,
            source.owner,
            other_amount,
        ),
{
}

/// The pause flag stops neither the transfer check nor the wipe: neither
/// outcome depends on it.
pub proof fn pause_stops_neither_check_nor_wipe(
    controller: ControllerState,
    gatekeeper: GatekeeperState,
    officer: Address,
    account: TokenAccount,
    amount: u64,
)
    ensures
        ({
            let paused = ControllerState {
                config: crate::controller::state::Config { is_paused: true, ..controller.config },
                ..controller
            };
            let running = ControllerState {
                config: crate::controller::state::Config { is_paused: false, ..controller.config },
                ..controller
            };
            paused.wiped(gatekeeper, officer, account, amount) == running.wiped(
                gatekeeper,
                officer,
                account,
                amount,
            )
        }),
{
}

/// While the contract is paused, the pause-sensitive operations are
/// refused: minting, the setting and the withdrawal of fees, and the
/// creation of redemption requests. With accounts that are in order and an
/// amount that is not zero, the refusal is `ContractPaused`.
pub proof fn pause_refuses_the_pause_sensitive_operations(
    request: RequestRedemption,
    custody_bump: Option<u8>,
    minting: MintTokens,
    authority_verified: bool,
    account_verified: bool,
    fee_accounts_bound: bool,
    amount: u64,
)
    requires
        request.config.is_paused,
        minting.config.is_paused,
    ensures
        request_redemption_error(request, custody_bump, amount) is Some,
        request.bound() && amount > 0 ==> request_redemption_error(request, custody_bump, amount)
            == Some(GoldTokenError::ContractPaused),
        mint_tokens_error(minting, authority_verified, account_verified, amount) is Some,
        minting.bound() && authority_verified && account_verified && amount > 0
            ==> mint_tokens_error(minting, authority_verified, account_verified, amount) == Some(
            GoldTokenError::ContractPaused,
        ),
        fee_operation_error(fee_accounts_bound, true) is Some,
        fee_accounts_bound ==> fee_operation_error(fee_accounts_bound, true) == Some(
            GoldTokenError::ContractPaused,
        ),
{
}

/// A minting of a positive amount that the balance and the supply can
/// take, on the supply controller's signature and while the contract is not
/// paused, raises the recipient's balance and the supply by exactly that
/// amount and changes nothing else: not the configuration, nor the hold on
/// the recipient's account.
pub proof fn minting_credits_the_recipient(minting: MintTokens, amount: u64)
    requires
        minting.bound(),
        amount > 0,
        !minting.config.is_paused,
        minting.recipient_token_account.amount + amount <= u64::MAX,
        minting.mint.supply + amount <= u64::MAX,
    ensures
        mint_tokens_error(minting, true, true, amount) is None,
        minted(minting, amount).recipient_token_account.amount
            == minting.recipient_token_account.amount + amount,
        minted(minting, amount).mint.supply == minting.mint.supply + amount,
        minted(minting, amount).config == minting.config,
        minted(minting, amount).recipient_token_account.delegate
            == minting.recipient_token_account.delegate,
        minted(minting, amount).recipient_token_account.delegated_amount
            == minting.recipient_token_account.delegated_amount,
        minted(minting, amount).recipient_token_account.owner
            == minting.recipient_token_account.owner,
{
}

} // verus!
