//! The asset-protection officer's powers: the blacklist, kept by the
//! gatekeeper, and the wipe of a blacklisted holder's tokens.

use crate::controller::accounts::RemoveBlacklist;
use crate::controller::accounts::UpdateBlacklist;
use crate::controller::accounts::WipeAddress;
use crate::controller::errors::GoldTokenError;
use crate::controller::events::AddressBlacklisted;
use crate::controller::events::AddressUnblacklisted;
use crate::controller::events::TokensWiped;
use crate::gatekeeper::accounts::AddToBlacklist;
use crate::gatekeeper::accounts::RemoveFromBlacklist;
use crate::gatekeeper::errors::GatekeeperError;
use crate::gatekeeper::state::BlacklistEntry;
use vstd::prelude::*;

verus! {

/// The controller's word for a refusal by the gatekeeper.
pub open spec fn of_gatekeeper(e: GatekeeperError) -> GoldTokenError {
    match e {
        GatekeeperError::AddressNotBlacklisted => GoldTokenError::AddressNotBlacklisted,
        _ => GoldTokenError::Unauthorized,
    }
}

/// The controller's word for a refusal by the gatekeeper, computed.
pub fn from_gatekeeper(e: GatekeeperError) -> (r: GoldTokenError)
    ensures
        r == of_gatekeeper(e),
{
    match e {
        GatekeeperError::AddressNotBlacklisted => GoldTokenError::AddressNotBlacklisted,
        GatekeeperError::AddressBlacklisted => GoldTokenError::Unauthorized,
        GatekeeperError::Unauthorized => GoldTokenError::Unauthorized,
        GatekeeperError::InvalidInstructionData => GoldTokenError::Unauthorized,
    }
}

/// Why `add_to_blacklist` refuses, if it does: the signer is not the
/// asset-protection officer, or is not the gatekeeper's authority.
pub open spec fn add_to_blacklist_error(ctx: UpdateBlacklist) -> Option<GoldTokenError> {
    if !ctx.bound() {
        Some(GoldTokenError::Unauthorized)
    } else if ctx.asset_protection != ctx.gatekeeper_config.authority {
        Some(GoldTokenError::Unauthorized)
    } else {
        None
    }
}

/// Blacklists `ctx.target_address` through the gatekeeper, on the
/// asset-protection officer's signature: the address has a marker
/// afterwards. It is not pause-sensitive.
pub fn add_to_blacklist(ctx: &mut UpdateBlacklist) -> (r: Result<
    AddressBlacklisted,
    GoldTokenError,
>)
    ensures
        match add_to_blacklist_error(*old(ctx)) {
            Some(e) => r == Err::<AddressBlacklisted, GoldTokenError>(e) && *final(ctx) == *old(
                ctx,
            ),
            None => r == Ok::<AddressBlacklisted, GoldTokenError>(
                AddressBlacklisted {
                    address: old(ctx).target_address,
                    authority: old(ctx).asset_protection,
                },
            ) && *final(ctx) == (UpdateBlacklist {
                blacklist_entry: Some(BlacklistEntry {  }),
                ..*old(ctx)
            }),
        },
{
    if !ctx.is_bound() {
        return Err(GoldTokenError::Unauthorized);
    }
    let mut gatekeeper_accounts = AddToBlacklist {
        config: ctx.gatekeeper_config,
        authority: ctx.asset_protection,
        target_address: ctx.target_address,
        blacklist_entry: ctx.blacklist_entry,
        mint: ctx.mint,
    };
    match crate::gatekeeper::admin::add_to_blacklist(&mut gatekeeper_accounts) {
        Ok(()) => {},
        Err(e) => {
            return Err(from_gatekeeper(e));
        },
    }
    ctx.blacklist_entry = gatekeeper_accounts.blacklist_entry;
    Ok(AddressBlacklisted { address: ctx.target_address, authority: ctx.asset_protection })
}

/// Why `remove_from_blacklist` refuses, if it does.
pub open spec fn remove_from_blacklist_error(ctx: RemoveBlacklist) -> Option<GoldTokenError> {
    if !ctx.bound() {
        Some(GoldTokenError::Unauthorized)
    } else if ctx.asset_protection != ctx.gatekeeper_config.authority {
        Some(GoldTokenError::Unauthorized)
    } else if ctx.blacklist_entry is None {
        Some(GoldTokenError::AddressNotBlacklisted)
    } else {
        None
    }
}

/// Takes `ctx.target_address` off the blacklist through the gatekeeper, on
/// the asset-protection officer's signature: its marker, which must exist,
/// is deleted. It is not pause-sensitive.
pub fn remove_from_blacklist(ctx: &mut RemoveBlacklist) -> (r: Result<
    AddressUnblacklisted,
    GoldTokenError,
>)
    ensures
        match remove_from_blacklist_error(*old(ctx)) {
            Some(e) => r == Err::<AddressUnblacklisted, GoldTokenError>(e) && *final(ctx) == *old(
                ctx,
            ),
            None => r == Ok::<AddressUnblacklisted, GoldTokenError>(
                AddressUnblacklisted {
                    address: old(ctx).target_address,
                    authority: old(ctx).asset_protection,
                },
            ) && *final(ctx) == (RemoveBlacklist { blacklist_entry: None, ..*old(ctx) }),
        },
{
    if !ctx.is_bound() {
        return Err(GoldTokenError::Unauthorized);
    }
    let mut gatekeeper_accounts = RemoveFromBlacklist {
        config: ctx.gatekeeper_config,
        authority: ctx.asset_protection,
        target_address: ctx.target_address,
        blacklist_entry: ctx.blacklist_entry,
        mint: ctx.mint,
    };
    match crate::gatekeeper::admin::remove_from_blacklist(&mut gatekeeper_accounts) {
        Ok(()) => {},
        Err(e) => {
            return Err(from_gatekeeper(e));
        },
    }
    ctx.blacklist_entry = gatekeeper_accounts.blacklist_entry;
    Ok(AddressUnblacklisted { address: ctx.target_address, authority: ctx.asset_protection })
}

/// Why `wipe_blacklisted_address` refuses, if it does.
pub open spec fn wipe_blacklisted_address_error(ctx: WipeAddress, amount: u64) -> Option<
    GoldTokenError,
> {
    if !ctx.bound() {
        Some(GoldTokenError::Unauthorized)
    } else if amount == 0 {
        Some(GoldTokenError::InvalidAmount)
    } else if ctx.blacklist_entry is None {
        Some(GoldTokenError::AddressNotBlacklisted)
    } else if ctx.target_token_account.amount < amount {
        Some(GoldTokenError::InsufficientBalance)
    } else {
        None
    }
}

/// Burns `amount` of a blacklisted holder's tokens, on the asset-protection
/// officer's signature and under the standing seizure authority: the
/// holder's consent is not asked, and a hold on the account is left as it
/// is. The target must be blacklisted and hold at least `amount`. It is not
/// pause-sensitive. A refusal changes nothing.
pub fn wipe_blacklisted_address(ctx: &mut WipeAddress, amount: u64) -> (r: Result<
    TokensWiped,
    GoldTokenError,
>)
    ensures
        match wipe_blacklisted_address_error(*old(ctx), amount) {
            Some(e) => r == Err::<TokensWiped, GoldTokenError>(e) && *final(ctx) == *old(ctx),
            None => r == Ok::<TokensWiped, GoldTokenError>(
                TokensWiped {
                    target_user: old(ctx).target_user,
                    amount,
                    authority: old(ctx).asset_protection,
                },
            ) && *final(ctx) == (WipeAddress {
                target_token_account: old(ctx).target_token_account.seized(amount),
                ..*old(ctx)
            }),
        },
{
    if !ctx.is_bound() {
        return Err(GoldTokenError::Unauthorized);
    }
    if amount == 0 {
        return Err(GoldTokenError::InvalidAmount);
    }
    if ctx.blacklist_entry.is_none() {
        return Err(GoldTokenError::AddressNotBlacklisted);
    }
    match ctx.target_token_account.burn_seized(amount) {
        Ok(()) => {},
        Err(e) => {
            return Err(GoldTokenError::from_ledger(e));
        },
    }
    Ok(TokensWiped { target_user: ctx.target_user, amount, authority: ctx.asset_protection })
}

} // verus!
