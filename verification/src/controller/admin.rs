//! The administrator's operations: the three role updates and the pause flag.

use crate::address::Address;
use crate::controller::accounts::TogglePause;
use crate::controller::accounts::UpdateRole;
use crate::controller::errors::GoldTokenError;
use crate::controller::events::PauseToggled;
use crate::controller::events::RoleUpdated;
use crate::controller::state::Config;
use vstd::prelude::*;

verus! {

/// Replaces the supply controller, on the administrator's signature, and
/// records the change. No other role may do so, and no other field changes.
pub fn update_supply_controller(ctx: &mut UpdateRole, new_controller: Address) -> (r: Result<
    RoleUpdated,
    GoldTokenError,
>)
    ensures
        old(ctx).bound() ==> {
            &&& r is Ok
            &&& r->Ok_0.role@ == "supply_controller"@
            &&& r->Ok_0.old_authority == old(ctx).config.supply_controller
            &&& r->Ok_0.new_authority == new_controller
            &&& *final(ctx) == (UpdateRole {
                config: Config { supply_controller: new_controller, ..old(ctx).config },
                ..*old(ctx)
            })
        },
        !old(ctx).bound() ==> r is Err && r->Err_0 == GoldTokenError::Unauthorized && *final(ctx)
            == *old(ctx),
{
    if !ctx.is_bound() {
        return Err(GoldTokenError::Unauthorized);
    }
    let old_controller = ctx.config.supply_controller;
    ctx.config.supply_controller = new_controller;
    Ok(
        RoleUpdated {
            role: "supply_controller".to_owned(),
            old_authority: old_controller,
            new_authority: new_controller,
        },
    )
}

/// Replaces the asset-protection officer, on the administrator's signature,
/// and records the change. No other role may do so, and no other field
/// changes.
pub fn update_asset_protection(ctx: &mut UpdateRole, new_protection: Address) -> (r: Result<
    RoleUpdated,
    GoldTokenError,
>)
    ensures
        old(ctx).bound() ==> {
            &&& r is Ok
            &&& r->Ok_0.role@ == "asset_protection"@
            &&& r->Ok_0.old_authority == old(ctx).config.asset_protection
            &&& r->Ok_0.new_authority == new_protection
            &&& *final(ctx) == (UpdateRole {
                config: Config { asset_protection: new_protection, ..old(ctx).config },
                ..*old(ctx)
            })
        },
        !old(ctx).bound() ==> r is Err && r->Err_0 == GoldTokenError::Unauthorized && *final(ctx)
            == *old(ctx),
{
    if !ctx.is_bound() {
        return Err(GoldTokenError::Unauthorized);
    }
    let old_protection = ctx.config.asset_protection;
    ctx.config.asset_protection = new_protection;
    Ok(
        RoleUpdated {
            role: "asset_protection".to_owned(),
            old_authority: old_protection,
            new_authority: new_protection,
        },
    )
}

/// Replaces the fee controller, on the administrator's signature, and
/// records the change. No other role may do so, and no other field changes.
pub fn update_fee_controller(ctx: &mut UpdateRole, new_fee_controller: Address) -> (r: Result<
    RoleUpdated,
    GoldTokenError,
>)
    ensures
        old(ctx).bound() ==> {
            &&& r is Ok
            &&& r->Ok_0.role@ == "fee_controller"@
            &&& r->Ok_0.old_authority == old(ctx).config.fee_controller
            &&& r->Ok_0.new_authority == new_fee_controller
            &&& *final(ctx) == (UpdateRole {
                config: Config { fee_controller: new_fee_controller, ..old(ctx).config },
                ..*old(ctx)
            })
        },
        !old(ctx).bound() ==> r is Err && r->Err_0 == GoldTokenError::Unauthorized && *final(ctx)
            == *old(ctx),
{
    if !ctx.is_bound() {
        return Err(GoldTokenError::Unauthorized);
    }
    let old_fee_controller = ctx.config.fee_controller;
    ctx.config.fee_controller = new_fee_controller;
    Ok(
        RoleUpdated {
            role: "fee_controller".to_owned(),
            old_authority: old_fee_controller,
            new_authority: new_fee_controller,
        },
    )
}

/// Flips the pause flag, on the administrator's signature, and records the
/// new value.
pub fn toggle_pause(ctx: &mut TogglePause) -> (r: Result<PauseToggled, GoldTokenError>)
    ensures
        old(ctx).bound() ==> r == Ok::<PauseToggled, GoldTokenError>(
            PauseToggled { is_paused: !old(ctx).config.is_paused, authority: old(ctx).admin },
        ) && *final(ctx) == (TogglePause {
            config: Config { is_paused: !old(ctx).config.is_paused, ..old(ctx).config },
            ..*old(ctx)
        }),
        !old(ctx).bound() ==> r == Err::<PauseToggled, GoldTokenError>(
            GoldTokenError::Unauthorized,
        ) && *final(ctx) == *old(ctx),
{
    if !ctx.is_bound() {
        return Err(GoldTokenError::Unauthorized);
    }
    ctx.config.is_paused = !ctx.config.is_paused;
    Ok(PauseToggled { is_paused: ctx.config.is_paused, authority: ctx.admin })
}

} // verus!
