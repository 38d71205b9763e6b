//! The redemption lifecycle: a request is created `Pending` with a hold on
//! the user's tokens, may be claimed as `Processing`, and ends `Fulfilled`,
//! its amount burned, or `Cancelled`, its hold released.

use crate::address::Address;
use crate::controller::accounts::CancelRedemption;
use crate::controller::accounts::FulfillRedemption;
use crate::controller::accounts::RequestRedemption;
use crate::controller::accounts::UpdateRedemptionStatus;
use crate::controller::errors::GoldTokenError;
use crate::controller::events::RedemptionCancelled;
use crate::controller::events::RedemptionFulfilled;
use crate::controller::events::RedemptionRequested;
use crate::controller::events::RedemptionStatusUpdated;
use crate::controller::state::Config;
use crate::controller::state::RedemptionRequest;
use crate::controller::state::RedemptionStatus;
use crate::pda::created_program_address;
use crate::pda::custody_delegate_with_bump;
use crate::pda::custody_seeds;
use crate::pda::find_custody_delegate;
use crate::pda::found_program_address;
use vstd::prelude::*;

verus! {

/// The bump seed under which `ctx.redemption_pda` is the custody delegate of
/// the request that `ctx` would create, where it is that delegate.
pub open spec fn request_custody_bump(ctx: RequestRedemption) -> Option<u8> {
    match found_program_address(custody_seeds(ctx.user, ctx.next_request_id()), ctx.program_id@) {
        Some((address, bump)) => if address == ctx.redemption_pda@ {
            Some(bump)
        } else {
            None
        },
        None => None,
    }
}

/// Why `request_redemption` refuses, if it does. `custody_bump` is the bump
/// seed under which `ctx.redemption_pda` is the new request's custody
/// delegate, or nothing where it is not that delegate.
///
/// An account carries one hold at most, and the ledger would let a new
/// hold take the place of the one that stands. So a request is refused
/// while the account carries a hold: the request that the hold stands for
/// is to be fulfilled or cancelled first, or the owner revokes the hold.
pub open spec fn request_redemption_error(
    ctx: RequestRedemption,
    custody_bump: Option<u8>,
    amount: u64,
) -> Option<GoldTokenError> {
    if !ctx.bound() {
        Some(GoldTokenError::Unauthorized)
    } else if amount == 0 {
        Some(GoldTokenError::InvalidAmount)
    } else if ctx.config.is_paused {
        Some(GoldTokenError::ContractPaused)
    } else if ctx.user_token_account.amount < amount {
        Some(GoldTokenError::InsufficientBalance)
    } else if ctx.user_token_account.delegate is Some {
        Some(GoldTokenError::InvalidRequestStatus)
    } else if ctx.config.redemption_request_counter == u64::MAX {
        Some(GoldTokenError::CounterOverflow)
    } else if custody_bump is None {
        Some(GoldTokenError::Unauthorized)
    } else if ctx.redemption_request is Some {
        Some(GoldTokenError::InvalidRequestStatus)
    } else {
        None
    }
}

/// The request that `request_redemption` creates.
pub open spec fn new_request(ctx: RequestRedemption, bump: u8, amount: u64, now: i64)
    -> RedemptionRequest {
    RedemptionRequest {
        user: ctx.user,
        amount,
        status: RedemptionStatus::Pending,
        requested_at: now,
        completed_at: 0,
        request_id: ctx.next_request_id(),
        redemption_pda_bump: bump,
    }
}

/// The accounts after an accepted `request_redemption`: the counter has
/// advanced to the new id, the request exists, and the custody delegate
/// holds exactly `amount` of the user's tokens.
pub open spec fn requested(ctx: RequestRedemption, bump: u8, amount: u64, now: i64)
    -> RequestRedemption {
    RequestRedemption {
        config: Config { redemption_request_counter: ctx.next_request_id(), ..ctx.config },
        redemption_request: Some(new_request(ctx, bump, amount, now)),
        user_token_account: ctx.user_token_account.approved(ctx.redemption_pda, amount),
        ..ctx
    }
}

/// Creates a redemption request, given whether `ctx.redemption_pda` is its
/// custody delegate, and under which bump seed.
///
/// The request gets the id after the counter's, is `Pending`, and fixes
/// `amount`; the counter moves to that id; the custody delegate gets a hold
/// of exactly `amount` on the user's account, which carried none. A
/// refusal changes nothing.
pub fn request_redemption_under(
    ctx: &mut RequestRedemption,
    custody_bump: Option<u8>,
    amount: u64,
    now: i64,
) -> (r: Result<RedemptionRequested, GoldTokenError>)
    ensures
        match request_redemption_error(*old(ctx), custody_bump, amount) {
            Some(e) => r == Err::<RedemptionRequested, GoldTokenError>(e) && *final(ctx) == *old(
                ctx,
            ),
            None => r == Ok::<RedemptionRequested, GoldTokenError>(
                RedemptionRequested {
                    user: old(ctx).user,
                    request_id: old(ctx).next_request_id(),
                    amount,
                    timestamp: now,
                },
            ) && *final(ctx) == requested(*old(ctx), custody_bump->Some_0, amount, now),
        },
{
    if !ctx.is_bound() {
        return Err(GoldTokenError::Unauthorized);
    }
    if amount == 0 {
        return Err(GoldTokenError::InvalidAmount);
    }
    if ctx.config.is_paused {
        return Err(GoldTokenError::ContractPaused);
    }
    if ctx.user_token_account.amount < amount {
        return Err(GoldTokenError::InsufficientBalance);
    }
    if ctx.user_token_account.delegate.is_some() {
        return Err(GoldTokenError::InvalidRequestStatus);
    }
    let request_id = match ctx.config.redemption_request_counter.checked_add(1) {
        Some(id) => id,
        None => {
            return Err(GoldTokenError::CounterOverflow);
        },
    };
    let bump = match custody_bump {
        Some(bump) => bump,
        None => {
            return Err(GoldTokenError::Unauthorized);
        },
    };
    if ctx.redemption_request.is_some() {
        return Err(GoldTokenError::InvalidRequestStatus);
    }
    let user = ctx.user;
    let delegate = ctx.redemption_pda;
    let held = ctx.user_token_account.approve(&user, delegate, amount);
    assert(held is Ok);
    ctx.redemption_request = Some(
        RedemptionRequest {
            user,
            amount,
            status: RedemptionStatus::Pending,
            requested_at: now,
            completed_at: 0,
            request_id,
            redemption_pda_bump: bump,
        },
    );
    ctx.config.redemption_request_counter = request_id;
    Ok(RedemptionRequested { user, request_id, amount, timestamp: now })
}

/// Creates a redemption request for the signer: `request_redemption_under`,
/// with the custody delegate derived from the controller's address, the
/// user and the new request's id. The bump seed that the request keeps
/// derives the same delegate again, so that a fulfilment finds it.
pub fn request_redemption(ctx: &mut RequestRedemption, amount: u64, now: i64) -> (r: Result<
    RedemptionRequested,
    GoldTokenError,
>)
    ensures
        match request_redemption_error(*old(ctx), request_custody_bump(*old(ctx)), amount) {
            Some(e) => r == Err::<RedemptionRequested, GoldTokenError>(e) && *final(ctx) == *old(
                ctx,
            ),
            None => r == Ok::<RedemptionRequested, GoldTokenError>(
                RedemptionRequested {
                    user: old(ctx).user,
                    request_id: old(ctx).next_request_id(),
                    amount,
                    timestamp: now,
                },
            ) && *final(ctx) == requested(
                *old(ctx),
                request_custody_bump(*old(ctx))->Some_0,
                amount,
                now,
            ),
        },
        r is Ok ==> created_program_address(
            custody_seeds(old(ctx).user, old(ctx).next_request_id()).push(
                seq![final(ctx).redemption_request->Some_0.redemption_pda_bump],
            ),
            old(ctx).program_id@,
        ) == Some(old(ctx).redemption_pda@),
{
    let custody_bump = match ctx.config.redemption_request_counter.checked_add(1) {
        Some(request_id) => {
            match find_custody_delegate(&ctx.program_id, &ctx.user, request_id) {
                Some((address, bump)) => {
                    proof {
                        if address@ == ctx.redemption_pda@ {
                            Address::lemma_view_injective(address, ctx.redemption_pda);
                        }
                    }
                    if address == ctx.redemption_pda {
                        Some(bump)
                    } else {
                        None
                    }
                },
                None => None,
            }
        },
        None => None,
    };
    request_redemption_under(ctx, custody_bump, amount, now)
}

/// Why `set_redemption_processing` refuses, if it does.
pub open spec fn set_redemption_processing_error(ctx: UpdateRedemptionStatus) -> Option<
    GoldTokenError,
> {
    if !ctx.bound() {
        Some(GoldTokenError::Unauthorized)
    } else if ctx.redemption_request.status != RedemptionStatus::Pending {
        Some(GoldTokenError::InvalidRequestStatus)
    } else {
        None
    }
}

/// Claims a `Pending` request for fulfilment: its status becomes
/// `Processing`, and nothing else changes; no token moves. A refusal
/// changes nothing.
pub fn set_redemption_processing(ctx: &mut UpdateRedemptionStatus) -> (r: Result<
    RedemptionStatusUpdated,
    GoldTokenError,
>)
    ensures
        match set_redemption_processing_error(*old(ctx)) {
            Some(e) => r == Err::<RedemptionStatusUpdated, GoldTokenError>(e) && *final(ctx)
                == *old(ctx),
            None => r == Ok::<RedemptionStatusUpdated, GoldTokenError>(
                RedemptionStatusUpdated {
                    user: old(ctx).redemption_request.user,
                    request_id: old(ctx).redemption_request.request_id,
                    old_status: RedemptionStatus::Pending,
                    new_status: RedemptionStatus::Processing,
                },
            ) && *final(ctx) == (UpdateRedemptionStatus {
                redemption_request: RedemptionRequest {
                    status: RedemptionStatus::Processing,
                    ..old(ctx).redemption_request
                },
                ..*old(ctx)
            }),
        },
{
    if !ctx.is_bound() {
        return Err(GoldTokenError::Unauthorized);
    }
    if ctx.redemption_request.status != RedemptionStatus::Pending {
        return Err(GoldTokenError::InvalidRequestStatus);
    }
    ctx.redemption_request.status = RedemptionStatus::Processing;
    Ok(
        RedemptionStatusUpdated {
            user: ctx.redemption_request.user,
            request_id: ctx.redemption_request.request_id,
            old_status: RedemptionStatus::Pending,
            new_status: RedemptionStatus::Processing,
        },
    )
}

/// Whether `ctx.redemption_pda` is the custody delegate that the request's
/// user, id and bump seed derive.
pub open spec fn fulfil_custody_verified(ctx: FulfillRedemption) -> bool {
    created_program_address(
        custody_seeds(ctx.user, ctx.redemption_request.request_id).push(
            seq![ctx.redemption_request.redemption_pda_bump],
        ),
        ctx.program_id@,
    ) == Some(ctx.redemption_pda@)
}

/// Why `fulfill_redemption` refuses, if it does. `custody_verified` says
/// whether `ctx.redemption_pda` is the request's custody delegate.
pub open spec fn fulfill_redemption_error(ctx: FulfillRedemption, custody_verified: bool)
    -> Option<GoldTokenError> {
    if !ctx.bound() {
        Some(GoldTokenError::Unauthorized)
    } else if !custody_verified {
        Some(GoldTokenError::Unauthorized)
    } else if ctx.redemption_request.status != RedemptionStatus::Pending
        && ctx.redemption_request.status != RedemptionStatus::Processing {
        Some(GoldTokenError::InvalidRequestStatus)
    } else {
        match ctx.user_token_account.burn_error(ctx.redemption_pda, ctx.redemption_request.amount) {
            Some(e) => Some(GoldTokenError::of_ledger(e)),
            None => None,
        }
    }
}

/// The accounts after an accepted `fulfill_redemption`: the amount fixed at
/// the request's creation is burned under the custody delegate's authority,
/// and the request is `Fulfilled`, stamped with `now`.
pub open spec fn fulfilled(ctx: FulfillRedemption, now: i64) -> FulfillRedemption {
    FulfillRedemption {
        redemption_request: RedemptionRequest {
            status: RedemptionStatus::Fulfilled,
            completed_at: now,
            ..ctx.redemption_request
        },
        user_token_account: ctx.user_token_account.burned(
            ctx.redemption_pda,
            ctx.redemption_request.amount,
        ),
        ..ctx
    }
}

/// Fulfils a request, given whether `ctx.redemption_pda` is its custody
/// delegate.
///
/// A `Pending` or `Processing` request is fulfilled: exactly the amount that
/// the request fixed is burned from the account under the custody
/// delegate's authority, whatever the balance has become since, and the
/// request ends `Fulfilled`. Where the ledger rejects the burn, because the
/// balance or the hold no longer covers the amount or the hold stands for
/// another, the operation fails and changes nothing.
pub fn fulfill_redemption_under(ctx: &mut FulfillRedemption, custody_verified: bool, now: i64) -> (r:
    Result<RedemptionFulfilled, GoldTokenError>)
    ensures
        match fulfill_redemption_error(*old(ctx), custody_verified) {
            Some(e) => r == Err::<RedemptionFulfilled, GoldTokenError>(e) && *final(ctx) == *old(
                ctx,
            ),
            None => r == Ok::<RedemptionFulfilled, GoldTokenError>(
                RedemptionFulfilled {
                    user: old(ctx).redemption_request.user,
                    request_id: old(ctx).redemption_request.request_id,
                    amount: old(ctx).redemption_request.amount,
                    timestamp: now,
                },
            ) && *final(ctx) == fulfilled(*old(ctx), now),
        },
{
    if !ctx.is_bound() {
        return Err(GoldTokenError::Unauthorized);
    }
    if !custody_verified {
        return Err(GoldTokenError::Unauthorized);
    }
    if ctx.redemption_request.status != RedemptionStatus::Pending && ctx.redemption_request.status
        != RedemptionStatus::Processing {
        return Err(GoldTokenError::InvalidRequestStatus);
    }
    let authority = ctx.redemption_pda;
    let amount = ctx.redemption_request.amount;
    match ctx.user_token_account.burn(&authority, amount) {
        Ok(()) => {},
        Err(e) => {
            return Err(GoldTokenError::from_ledger(e));
        },
    }
    ctx.redemption_request.status = RedemptionStatus::Fulfilled;
    ctx.redemption_request.completed_at = now;
    Ok(
        RedemptionFulfilled {
            user: ctx.redemption_request.user,
            request_id: ctx.redemption_request.request_id,
            amount,
            timestamp: now,
        },
    )
}

/// Fulfils a request on the supply controller's signature:
/// `fulfill_redemption_under`, with the custody delegate derived again from
/// the controller's address, the user, the request's id and its bump seed.
pub fn fulfill_redemption(ctx: &mut FulfillRedemption, now: i64) -> (r: Result<
    RedemptionFulfilled,
    GoldTokenError,
>)
    ensures
        match fulfill_redemption_error(*old(ctx), fulfil_custody_verified(*old(ctx))) {
            Some(e) => r == Err::<RedemptionFulfilled, GoldTokenError>(e) && *final(ctx) == *old(
                ctx,
            ),
            None => r == Ok::<RedemptionFulfilled, GoldTokenError>(
                RedemptionFulfilled {
                    user: old(ctx).redemption_request.user,
                    request_id: old(ctx).redemption_request.request_id,
                    amount: old(ctx).redemption_request.amount,
                    timestamp: now,
                },
            ) && *final(ctx) == fulfilled(*old(ctx), now),
        },
{
    let derived = custody_delegate_with_bump(
        &ctx.program_id,
        &ctx.user,
        ctx.redemption_request.request_id,
        ctx.redemption_request.redemption_pda_bump,
    );
    let custody_verified = match derived {
        Some(address) => {
            proof {
                if address@ == ctx.redemption_pda@ {
                    Address::lemma_view_injective(address, ctx.redemption_pda);
                }
            }
            address == ctx.redemption_pda
        },
        None => false,
    };
    fulfill_redemption_under(ctx, custody_verified, now)
}

/// Why `cancel_redemption` refuses, if it does.
pub open spec fn cancel_redemption_error(ctx: CancelRedemption) -> Option<GoldTokenError> {
    if !ctx.bound() {
        Some(GoldTokenError::Unauthorized)
    } else if ctx.redemption_request.status != RedemptionStatus::Pending {
        Some(GoldTokenError::InvalidRequestStatus)
    } else {
        match ctx.user_token_account.revoke_error(ctx.user) {
            Some(e) => Some(GoldTokenError::of_ledger(e)),
            None => None,
        }
    }
}

/// The accounts after an accepted `cancel_redemption`: the account's hold
/// is cleared altogether, and the request is `Cancelled`, stamped with `now`.
pub open spec fn cancelled(ctx: CancelRedemption, now: i64) -> CancelRedemption {
    CancelRedemption {
        redemption_request: RedemptionRequest {
            status: RedemptionStatus::Cancelled,
            completed_at: now,
            ..ctx.redemption_request
        },
        user_token_account: ctx.user_token_account.revoked(),
        ..ctx
    }
}

/// Cancels the signer's request, which must be `Pending`: the hold on the
/// account is revoked whole, not by the request's amount, and the request
/// ends `Cancelled`. A `Processing` request cannot be cancelled. The ledger
/// lets the signer revoke where it owns the account or is its delegate. A
/// refusal changes nothing.
pub fn cancel_redemption(ctx: &mut CancelRedemption, now: i64) -> (r: Result<
    RedemptionCancelled,
    GoldTokenError,
>)
    ensures
        match cancel_redemption_error(*old(ctx)) {
            Some(e) => r == Err::<RedemptionCancelled, GoldTokenError>(e) && *final(ctx) == *old(
                ctx,
            ),
            None => r == Ok::<RedemptionCancelled, GoldTokenError>(
                RedemptionCancelled {
                    user: old(ctx).redemption_request.user,
                    request_id: old(ctx).redemption_request.request_id,
                    amount: old(ctx).redemption_request.amount,
                    timestamp: now,
                },
            ) && *final(ctx) == cancelled(*old(ctx), now),
        },
{
    if !ctx.is_bound() {
        return Err(GoldTokenError::Unauthorized);
    }
    if ctx.redemption_request.status != RedemptionStatus::Pending {
        return Err(GoldTokenError::InvalidRequestStatus);
    }
    let user = ctx.user;
    match ctx.user_token_account.revoke(&user) {
        Ok(()) => {},
        Err(e) => {
            return Err(GoldTokenError::from_ledger(e));
        },
    }
    ctx.redemption_request.status = RedemptionStatus::Cancelled;
    ctx.redemption_request.completed_at = now;
    Ok(
        RedemptionCancelled {
            user: ctx.redemption_request.user,
            request_id: ctx.redemption_request.request_id,
            amount: ctx.redemption_request.amount,
            timestamp: now,
        },
    )
}

} // verus!
