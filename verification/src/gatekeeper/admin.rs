//! The gatekeeper's own configuration, and the blacklist's two mutations.

use crate::gatekeeper::accounts::AddToBlacklist;
use crate::gatekeeper::accounts::Initialize;
use crate::gatekeeper::accounts::RemoveFromBlacklist;
use crate::gatekeeper::accounts::SetAuthority;
use crate::gatekeeper::errors::GatekeeperError;
use crate::gatekeeper::state::BlacklistEntry;
use crate::gatekeeper::state::Config;
use vstd::prelude::*;

verus! {

/// Creates the gatekeeper's configuration, with the signer as authority.
/// It is created once: where one exists, the operation is refused and
/// changes nothing.
pub fn initialize(ctx: &mut Initialize) -> (r: Result<(), GatekeeperError>)
    ensures
        old(ctx).config is None ==> r == Ok::<(), GatekeeperError>(()) && *final(ctx) == (Initialize {
            config: Some(Config { authority: old(ctx).authority }),
            ..*old(ctx)
        }),
        old(ctx).config is Some ==> r == Err::<(), GatekeeperError>(
            GatekeeperError::Unauthorized,
        ) && *final(ctx) == *old(ctx),
{
    if ctx.config.is_some() {
        return Err(GatekeeperError::Unauthorized);
    }
    ctx.config = Some(Config { authority: ctx.authority });
    Ok(())
}

/// Hands the authority over to `ctx.new_authority`, on the signature of the
/// present one.
pub fn set_authority(ctx: &mut SetAuthority) -> (r: Result<(), GatekeeperError>)
    ensures
        old(ctx).authority == old(ctx).config.authority ==> r == Ok::<(), GatekeeperError>(()) && *final(ctx) == (
        SetAuthority { config: Config { authority: old(ctx).new_authority }, ..*old(ctx) }),
        old(ctx).authority != old(ctx).config.authority ==> r == Err::<(), GatekeeperError>(
            GatekeeperError::Unauthorized,
        ) && *final(ctx) == *old(ctx),
{
    if ctx.authority != ctx.config.authority {
        return Err(GatekeeperError::Unauthorized);
    }
    ctx.config.authority = ctx.new_authority;
    Ok(())
}

/// Blacklists `ctx.target_address`, on the authority's signature: its
/// marker exists afterwards, whether or not it did before.
pub fn add_to_blacklist(ctx: &mut AddToBlacklist) -> (r: Result<(), GatekeeperError>)
    ensures
        old(ctx).authority == old(ctx).config.authority ==> r == Ok::<(), GatekeeperError>(()) && *final(ctx) == (
        AddToBlacklist { blacklist_entry: Some(BlacklistEntry {  }), ..*old(ctx) }),
        old(ctx).authority != old(ctx).config.authority ==> r == Err::<(), GatekeeperError>(
            GatekeeperError::Unauthorized,
        ) && *final(ctx) == *old(ctx),
{
    if ctx.authority != ctx.config.authority {
        return Err(GatekeeperError::Unauthorized);
    }
    ctx.blacklist_entry = Some(BlacklistEntry {  });
    Ok(())
}

/// Why `remove_from_blacklist` refuses, if it does.
pub open spec fn remove_from_blacklist_error(ctx: RemoveFromBlacklist) -> Option<
    GatekeeperError,
> {
    if ctx.authority != ctx.config.authority {
        Some(GatekeeperError::Unauthorized)
    } else if ctx.blacklist_entry is None {
        Some(GatekeeperError::AddressNotBlacklisted)
    } else {
        None
    }
}

/// Takes `ctx.target_address` off the blacklist, on the authority's
/// signature: its marker, which must exist, is deleted.
pub fn remove_from_blacklist(ctx: &mut RemoveFromBlacklist) -> (r: Result<(), GatekeeperError>)
    ensures
        match remove_from_blacklist_error(*old(ctx)) {
            Some(e) => r == Err::<(), GatekeeperError>(e) && *final(ctx) == *old(ctx),
            None => r == Ok::<(), GatekeeperError>(()) && *final(ctx) == (RemoveFromBlacklist {
                blacklist_entry: None,
                ..*old(ctx)
            }),
        },
{
    if ctx.authority != ctx.config.authority {
        return Err(GatekeeperError::Unauthorized);
    }
    if ctx.blacklist_entry.is_none() {
        return Err(GatekeeperError::AddressNotBlacklisted);
    }
    ctx.blacklist_entry = None;
    Ok(())
}

} // verus!
