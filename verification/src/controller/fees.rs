//! The fee controller's operations. Each checks the role and the pause flag
//! and hands on what the ledger's fee extension is to do.

use crate::address::Address;
use crate::controller::accounts::associated;
use crate::controller::accounts::is_associated;
use crate::controller::accounts::SetTransferFee;
use crate::controller::accounts::WithdrawWithheldTokensFromAccounts;
use crate::controller::accounts::WithdrawWithheldTokensFromMint;
use crate::controller::errors::GoldTokenError;
use crate::controller::events::TransferFeeUpdated;
use crate::controller::events::WithheldTokensWithdrawn;
use crate::controller::events::WithheldTokensWithdrawnFromAccounts;
use vstd::prelude::*;

verus! {

/// Why a fee operation refuses, if it does: the accounts are not bound as
/// the operation asks, or the contract is paused.
pub open spec fn fee_operation_error(bound: bool, is_paused: bool) -> Option<GoldTokenError> {
    if !bound {
        Some(GoldTokenError::Unauthorized)
    } else if is_paused {
        Some(GoldTokenError::ContractPaused)
    } else {
        None
    }
}

/// Sets the transfer fee, on the fee controller's signature and while the
/// contract is not paused: the rate and the cap go to the ledger as given.
pub fn set_transfer_fee(ctx: &SetTransferFee, transfer_fee_basis_points: u16, maximum_fee: u64) -> (r:
    Result<TransferFeeUpdated, GoldTokenError>)
    ensures
        r == match fee_operation_error(ctx.bound(), ctx.config.is_paused) {
            Some(e) => Err::<TransferFeeUpdated, GoldTokenError>(e),
            None => Ok::<TransferFeeUpdated, GoldTokenError>(
                TransferFeeUpdated {
                    mint: ctx.mint,
                    transfer_fee_basis_points,
                    maximum_fee,
                    authority: ctx.fee_controller,
                },
            ),
        },
{
    if !ctx.is_bound() {
        return Err(GoldTokenError::Unauthorized);
    }
    if ctx.config.is_paused {
        return Err(GoldTokenError::ContractPaused);
    }
    Ok(
        TransferFeeUpdated {
            mint: ctx.mint,
            transfer_fee_basis_points,
            maximum_fee,
            authority: ctx.fee_controller,
        },
    )
}

/// Decides a withdrawal of the fees withheld on the token unit into the fee
/// controller's account, given whether that account is the one associated
/// with the fee controller: it is accepted on the fee controller's
/// signature and while the contract is not paused.
pub fn withdraw_withheld_tokens_from_mint_under(
    ctx: &WithdrawWithheldTokensFromMint,
    destination_verified: bool,
) -> (r: Result<WithheldTokensWithdrawn, GoldTokenError>)
    ensures
        r == match fee_operation_error(
            ctx.bound() && destination_verified,
            ctx.config.is_paused,
        ) {
            Some(e) => Err::<WithheldTokensWithdrawn, GoldTokenError>(e),
            None => Ok::<WithheldTokensWithdrawn, GoldTokenError>(
                WithheldTokensWithdrawn {
                    mint: ctx.mint,
                    destination: ctx.destination_token_account.address,
                    authority: ctx.fee_controller,
                },
            ),
        },
{
    if !ctx.is_bound() || !destination_verified {
        return Err(GoldTokenError::Unauthorized);
    }
    if ctx.config.is_paused {
        return Err(GoldTokenError::ContractPaused);
    }
    Ok(
        WithheldTokensWithdrawn {
            mint: ctx.mint,
            destination: ctx.destination_token_account.address,
            authority: ctx.fee_controller,
        },
    )
}

/// Decides a withdrawal of the fees withheld on the token unit:
/// `withdraw_withheld_tokens_from_mint_under`, with the destination derived
/// from the fee controller.
pub fn withdraw_withheld_tokens_from_mint(ctx: &WithdrawWithheldTokensFromMint) -> (r: Result<
    WithheldTokensWithdrawn,
    GoldTokenError,
>)
    ensures
        r == match fee_operation_error(
            ctx.bound() && associated(
                ctx.destination_token_account,
                ctx.token_program,
                ctx.associated_token_program,
            ),
            ctx.config.is_paused,
        ) {
            Some(e) => Err::<WithheldTokensWithdrawn, GoldTokenError>(e),
            None => Ok::<WithheldTokensWithdrawn, GoldTokenError>(
                WithheldTokensWithdrawn {
                    mint: ctx.mint,
                    destination: ctx.destination_token_account.address,
                    authority: ctx.fee_controller,
                },
            ),
        },
{
    let destination_verified = is_associated(
        &ctx.destination_token_account,
        &ctx.token_program,
        &ctx.associated_token_program,
    );
    withdraw_withheld_tokens_from_mint_under(ctx, destination_verified)
}

/// Records a withdrawal of fees withheld on token accounts, given whether
/// the destination is the account associated with the fee controller: it is
/// accepted on the fee controller's signature and while the contract is not
/// paused. It names no source account, so that nothing is withdrawn.
pub fn withdraw_withheld_tokens_from_accounts_under(
    ctx: &WithdrawWithheldTokensFromAccounts,
    destination_verified: bool,
) -> (r: Result<WithheldTokensWithdrawnFromAccounts, GoldTokenError>)
    ensures
        match fee_operation_error(ctx.bound() && destination_verified, ctx.config.is_paused) {
            Some(e) => r is Err && r->Err_0 == e,
            None => {
                &&& r is Ok
                &&& r->Ok_0.mint == ctx.mint
                &&& r->Ok_0.destination == ctx.destination_token_account.address
                &&& r->Ok_0.source_accounts@ == Seq::<Address>::empty()
                &&& r->Ok_0.authority == ctx.fee_controller
            },
        },
{
    if !ctx.is_bound() || !destination_verified {
        return Err(GoldTokenError::Unauthorized);
    }
    if ctx.config.is_paused {
        return Err(GoldTokenError::ContractPaused);
    }
    Ok(
        WithheldTokensWithdrawnFromAccounts {
            mint: ctx.mint,
            destination: ctx.destination_token_account.address,
            source_accounts: Vec::new(),
            authority: ctx.fee_controller,
        },
    )
}

/// Records a withdrawal of fees withheld on token accounts:
/// `withdraw_withheld_tokens_from_accounts_under`, with the destination
/// derived from the fee controller.
pub fn withdraw_withheld_tokens_from_accounts(ctx: &WithdrawWithheldTokensFromAccounts) -> (r:
    Result<WithheldTokensWithdrawnFromAccounts, GoldTokenError>)
    ensures
        match fee_operation_error(
            ctx.bound() && associated(
                ctx.destination_token_account,
                ctx.token_program,
                ctx.associated_token_program,
            ),
            ctx.config.is_paused,
        ) {
            Some(e) => r is Err && r->Err_0 == e,
            None => {
                &&& r is Ok
                &&& r->Ok_0.mint == ctx.mint
                &&& r->Ok_0.destination == ctx.destination_token_account.address
                &&& r->Ok_0.source_accounts@ == Seq::<Address>::empty()
                &&& r->Ok_0.authority == ctx.fee_controller
            },
        },
{
    let destination_verified = is_associated(
        &ctx.destination_token_account,
        &ctx.token_program,
        &ctx.associated_token_program,
    );
    withdraw_withheld_tokens_from_accounts_under(ctx, destination_verified)
}

} // verus!
