//! The supply controller's minting: the decision, and the credit that
//! follows from it.

use crate::address::Address;
use crate::controller::accounts::associated;
use crate::controller::accounts::is_associated;
use crate::controller::accounts::MintTokens;
use crate::controller::errors::GoldTokenError;
use crate::controller::events::TokensMinted;
use crate::pda::find_mint_authority;
use crate::pda::found_program_address;
use crate::pda::mint_authority_seeds;
use vstd::prelude::*;

verus! {

/// Whether `ctx.mint_authority_pda` is the mint authority that the
/// controller's address derives.
pub open spec fn mint_authority_verified(ctx: MintTokens) -> bool {
    match found_program_address(mint_authority_seeds(), ctx.program_id@) {
        Some((address, _)) => address == ctx.mint_authority_pda@,
        None => false,
    }
}

/// Why `mint_tokens` refuses, if it does. `authority_verified` says whether
/// `ctx.mint_authority_pda` is the controller's mint authority, and
/// `account_verified` whether the recipient's account is the one associated
/// with the recipient.
pub open spec fn mint_tokens_error(
    ctx: MintTokens,
    authority_verified: bool,
    account_verified: bool,
    amount: u64,
) -> Option<GoldTokenError> {
    if !ctx.bound() {
        Some(GoldTokenError::Unauthorized)
    } else if !authority_verified || !account_verified {
        Some(GoldTokenError::Unauthorized)
    } else if amount == 0 {
        Some(GoldTokenError::InvalidAmount)
    } else if ctx.config.is_paused {
        Some(GoldTokenError::ContractPaused)
    } else {
        match ctx.recipient_token_account.mint_error(ctx.mint, amount) {
            Some(e) => Some(GoldTokenError::of_ledger(e)),
            None => None,
        }
    }
}

/// The accounts after an accepted `mint_tokens`: the recipient's balance
/// and the supply have risen by `amount`, and nothing else has changed.
pub open spec fn minted(ctx: MintTokens, amount: u64) -> MintTokens {
    MintTokens {
        mint: ctx.mint.issued(amount),
        recipient_token_account: ctx.recipient_token_account.credited(amount),
        ..ctx
    }
}

/// Mints, given whether `ctx.mint_authority_pda` is the controller's mint
/// authority and whether the recipient's account is the one associated with
/// the recipient.
///
/// On the supply controller's signature and while the contract is not
/// paused, `amount`, which is not zero, is minted into the recipient's
/// account under the mint authority: the balance of that account and the
/// supply rise by `amount`. An amount that either cannot take is refused as
/// invalid. The record names `recipient` as given. A refusal changes
/// nothing.
pub fn mint_tokens_under(
    ctx: &mut MintTokens,
    authority_verified: bool,
    account_verified: bool,
    amount: u64,
    recipient: Address,
) -> (r: Result<TokensMinted, GoldTokenError>)
    ensures
        match mint_tokens_error(*old(ctx), authority_verified, account_verified, amount) {
            Some(e) => r == Err::<TokensMinted, GoldTokenError>(e) && *final(ctx) == *old(ctx),
            None => r == Ok::<TokensMinted, GoldTokenError>(
                TokensMinted {
                    mint: old(ctx).mint.address,
                    to: old(ctx).recipient_token_account.address,
                    amount,
                    authority: old(ctx).supply_controller,
                    recipient,
                },
            ) && *final(ctx) == minted(*old(ctx), amount),
        },
{
    if !ctx.is_bound() {
        return Err(GoldTokenError::Unauthorized);
    }
    if !authority_verified || !account_verified {
        return Err(GoldTokenError::Unauthorized);
    }
    if amount == 0 {
        return Err(GoldTokenError::InvalidAmount);
    }
    if ctx.config.is_paused {
        return Err(GoldTokenError::ContractPaused);
    }
    let mut mint = ctx.mint;
    match ctx.recipient_token_account.mint_to(&mut mint, amount) {
        Ok(()) => {},
        Err(e) => {
            return Err(GoldTokenError::from_ledger(e));
        },
    }
    ctx.mint = mint;
    Ok(
        TokensMinted {
            mint: ctx.mint.address,
            to: ctx.recipient_token_account.address,
            amount,
            authority: ctx.supply_controller,
            recipient,
        },
    )
}

/// Mints: `mint_tokens_under`, with the mint authority derived from the
/// controller's address and the recipient's account derived from the
/// recipient.
pub fn mint_tokens(ctx: &mut MintTokens, amount: u64, recipient: Address) -> (r: Result<
    TokensMinted,
    GoldTokenError,
>)
    ensures
        match mint_tokens_error(
            *old(ctx),
            mint_authority_verified(*old(ctx)),
            associated(
                old(ctx).recipient_token_account,
                old(ctx).token_program,
                old(ctx).associated_token_program,
            ),
            amount,
        ) {
            Some(e) => r == Err::<TokensMinted, GoldTokenError>(e) && *final(ctx) == *old(ctx),
            None => r == Ok::<TokensMinted, GoldTokenError>(
                TokensMinted {
                    mint: old(ctx).mint.address,
                    to: old(ctx).recipient_token_account.address,
                    amount,
                    authority: old(ctx).supply_controller,
                    recipient,
                },
            ) && *final(ctx) == minted(*old(ctx), amount),
        },
{
    let authority_verified = match find_mint_authority(&ctx.program_id) {
        Some((address, _)) => {
            proof {
                if address@ == ctx.mint_authority_pda@ {
                    Address::lemma_view_injective(address, ctx.mint_authority_pda);
                }
            }
            address == ctx.mint_authority_pda
        },
        None => false,
    };
    let account_verified = is_associated(
        &ctx.recipient_token_account,
        &ctx.token_program,
        &ctx.associated_token_program,
    );
    mint_tokens_under(ctx, authority_verified, account_verified, amount, recipient)
}

} // verus!
