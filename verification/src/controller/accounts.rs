//! The accounts that each operation of the controller works on, as plain
//! values, and what binds them to one another.

use crate::address::Address;
use crate::controller::state::Config;
use crate::controller::state::RedemptionRequest;
use crate::gatekeeper::resolution::ExtraAccountList;
use crate::gatekeeper::state::BlacklistEntry;
use crate::ledger::Mint;
use crate::ledger::TokenAccount;
use crate::pda::associated_token_seeds;
use crate::pda::find_associated_token_account;
use crate::pda::found_program_address;
use vstd::prelude::*;

verus! {

/// The accounts of `request_redemption`.
#[derive(Clone, Copy, Debug, PartialEq, Eq)]
pub struct RequestRedemption {
    /// The controller's own address, under which custody delegates are derived.
    pub program_id: Address,
    /// The signer, who asks for the redemption.
    pub user: Address,
    pub config: Config,
    /// Where the new request goes: empty before, the request after.
    pub redemption_request: Option<RedemptionRequest>,
    /// The account whose tokens are held.
    pub user_token_account: TokenAccount,
    pub mint: Address,
    /// The custody delegate of the request to be created.
    pub redemption_pda: Address,
}

impl RequestRedemption {
    /// The token unit is the configured one, and the token account holds it
    /// and belongs to the signer.
    pub open spec fn bound(self) -> bool {
        &&& self.config.mint == self.mint
        &&& self.user_token_account.mint == self.mint
        &&& self.user_token_account.owner == self.user
    }

    /// The id that the next request gets.
    pub open spec fn next_request_id(self) -> u64 {
        (self.config.redemption_request_counter + 1) as u64
    }

    /// Decides `bound`.
    pub fn is_bound(&self) -> (r: bool)
        ensures
            r == self.bound(),
    {
        self.config.mint == self.mint && self.user_token_account.mint == self.mint
            && self.user_token_account.owner == self.user
    }
}

/// The accounts of `set_redemption_processing`.
#[derive(Clone, Copy, Debug, PartialEq, Eq)]
pub struct UpdateRedemptionStatus {
    pub config: Config,
    /// The signer.
    pub supply_controller: Address,
    pub redemption_request: RedemptionRequest,
}

impl UpdateRedemptionStatus {
    /// The signer is the supply controller.
    pub open spec fn bound(self) -> bool {
        self.config.supply_controller == self.supply_controller
    }

    /// Decides `bound`.
    pub fn is_bound(&self) -> (r: bool)
        ensures
            r == self.bound(),
    {
        self.config.supply_controller == self.supply_controller
    }
}

/// The accounts of `fulfill_redemption`.
#[derive(Clone, Copy, Debug, PartialEq, Eq)]
pub struct FulfillRedemption {
    /// The controller's own address, under which custody delegates are derived.
    pub program_id: Address,
    pub config: Config,
    /// The signer.
    pub supply_controller: Address,
    /// The request; reclaimed once it is `Fulfilled`.
    pub redemption_request: RedemptionRequest,
    pub mint: Address,
    /// The account that the request's hold stands on.
    pub user_token_account: TokenAccount,
    /// Who made the request.
    pub user: Address,
    /// The request's custody delegate.
    pub redemption_pda: Address,
}

impl FulfillRedemption {
    /// The signer is the supply controller, the token unit is the configured
    /// one, and the request is the named user's.
    pub open spec fn bound(self) -> bool {
        &&& self.config.supply_controller == self.supply_controller
        &&& self.redemption_request.user == self.user
        &&& self.config.mint == self.mint
    }

    /// Decides `bound`.
    pub fn is_bound(&self) -> (r: bool)
        ensures
            r == self.bound(),
    {
        self.config.supply_controller == self.supply_controller && self.redemption_request.user
            == self.user && self.config.mint == self.mint
    }
}

/// The accounts of `cancel_redemption`.
#[derive(Clone, Copy, Debug, PartialEq, Eq)]
pub struct CancelRedemption {
    /// The signer, who made the request.
    pub user: Address,
    /// The request; reclaimed once it is `Cancelled`.
    pub redemption_request: RedemptionRequest,
    /// The account that the request's hold stands on.
    pub user_token_account: TokenAccount,
}

impl CancelRedemption {
    /// The request is the signer's.
    pub open spec fn bound(self) -> bool {
        self.redemption_request.user == self.user
    }

    /// Decides `bound`.
    pub fn is_bound(&self) -> (r: bool)
        ensures
            r == self.bound(),
    {
        self.redemption_request.user == self.user
    }
}

/// The accounts of `initialize`.
#[derive(Clone, Debug, PartialEq, Eq)]
pub struct Initialize {
    /// The controller's own address, under which the mint authority is derived.
    pub program_id: Address,
    /// The signer, who becomes the administrator.
    pub admin: Address,
    pub supply_controller: Address,
    /// A signer too: it becomes the gatekeeper's authority and the holder
    /// of the standing seizure authority.
    pub asset_protection: Address,
    pub fee_controller: Address,
    pub gatekeeper_program: Address,
    /// Where the configuration goes: empty before, the configuration after.
    pub config: Option<Config>,
    /// Where the gatekeeper's configuration goes.
    pub gatekeeper_config: Option<crate::gatekeeper::state::Config>,
    /// Where the gatekeeper's list of extra accounts goes.
    pub extra_account_meta_list: Option<ExtraAccountList>,
    /// The token unit to create.
    pub mint: Address,
    /// The authority under which tokens are minted.
    pub mint_authority_pda: Address,
}

/// The accounts of the three role updates.
#[derive(Clone, Copy, Debug, PartialEq, Eq)]
pub struct UpdateRole {
    pub config: Config,
    /// The signer.
    pub admin: Address,
}

impl UpdateRole {
    /// The signer is the administrator.
    pub open spec fn bound(self) -> bool {
        self.config.admin == self.admin
    }

    /// Decides `bound`.
    pub fn is_bound(&self) -> (r: bool)
        ensures
            r == self.bound(),
    {
        self.config.admin == self.admin
    }
}

/// The accounts of `toggle_pause`.
#[derive(Clone, Copy, Debug, PartialEq, Eq)]
pub struct TogglePause {
    pub config: Config,
    /// The signer.
    pub admin: Address,
}

impl TogglePause {
    /// The signer is the administrator.
    pub open spec fn bound(self) -> bool {
        self.config.admin == self.admin
    }

    /// Decides `bound`.
    pub fn is_bound(&self) -> (r: bool)
        ensures
            r == self.bound(),
    {
        self.config.admin == self.admin
    }
}

/// The accounts of `set_transfer_fee`.
#[derive(Clone, Copy, Debug, PartialEq, Eq)]
pub struct SetTransferFee {
    pub config: Config,
    /// The signer.
    pub fee_controller: Address,
    pub mint: Address,
}

impl SetTransferFee {
    /// The signer is the fee controller, and the token unit is the
    /// configured one.
    pub open spec fn bound(self) -> bool {
        self.config.fee_controller == self.fee_controller && self.mint == self.config.mint
    }

    /// Decides `bound`.
    pub fn is_bound(&self) -> (r: bool)
        ensures
            r == self.bound(),
    {
        self.config.fee_controller == self.fee_controller && self.mint == self.config.mint
    }
}

/// The accounts of `withdraw_withheld_tokens_from_mint`.
#[derive(Clone, Copy, Debug, PartialEq, Eq)]
pub struct WithdrawWithheldTokensFromMint {
    pub config: Config,
    /// The signer.
    pub fee_controller: Address,
    pub mint: Address,
    /// Where the withheld fees go: the fee controller's own account.
    pub destination_token_account: TokenAccount,
    /// The ledger's program.
    pub token_program: Address,
    /// The program that derives associated token accounts.
    pub associated_token_program: Address,
}

impl WithdrawWithheldTokensFromMint {
    /// The signer is the fee controller, the token unit is the configured
    /// one, and the destination holds it and belongs to the signer.
    pub open spec fn bound(self) -> bool {
        &&& self.config.fee_controller == self.fee_controller
        &&& self.mint == self.config.mint
        &&& self.destination_token_account.mint == self.mint
        &&& self.destination_token_account.owner == self.fee_controller
    }

    /// Decides `bound`.
    pub fn is_bound(&self) -> (r: bool)
        ensures
            r == self.bound(),
    {
        self.config.fee_controller == self.fee_controller && self.mint == self.config.mint
            && self.destination_token_account.mint == self.mint
            && self.destination_token_account.owner == self.fee_controller
    }
}

/// The accounts of `withdraw_withheld_tokens_from_accounts`.
#[derive(Clone, Copy, Debug, PartialEq, Eq)]
pub struct WithdrawWithheldTokensFromAccounts {
    pub config: Config,
    /// The signer.
    pub fee_controller: Address,
    pub mint: Address,
    /// Where the withheld fees go: the fee controller's own account.
    pub destination_token_account: TokenAccount,
    /// The ledger's program.
    pub token_program: Address,
    /// The program that derives associated token accounts.
    pub associated_token_program: Address,
}

impl WithdrawWithheldTokensFromAccounts {
    /// The signer is the fee controller, the token unit is the configured
    /// one, and the destination holds it and belongs to the signer.
    pub open spec fn bound(self) -> bool {
        &&& self.config.fee_controller == self.fee_controller
        &&& self.mint == self.config.mint
        &&& self.destination_token_account.mint == self.mint
        &&& self.destination_token_account.owner == self.fee_controller
    }

    /// Decides `bound`.
    pub fn is_bound(&self) -> (r: bool)
        ensures
            r == self.bound(),
    {
        self.config.fee_controller == self.fee_controller && self.mint == self.config.mint
            && self.destination_token_account.mint == self.mint
            && self.destination_token_account.owner == self.fee_controller
    }
}

/// The accounts of `mint_tokens`.
#[derive(Clone, Copy, Debug, PartialEq, Eq)]
pub struct MintTokens {
    /// The controller's own address, under which the mint authority is derived.
    pub program_id: Address,
    pub config: Config,
    /// The signer.
    pub supply_controller: Address,
    /// The token unit, with its supply.
    pub mint: Mint,
    /// The authority under which tokens are minted.
    pub mint_authority_pda: Address,
    /// Who is to own the new tokens.
    pub recipient: Address,
    /// The recipient's account.
    pub recipient_token_account: TokenAccount,
    /// The ledger's program.
    pub token_program: Address,
    /// The program that derives associated token accounts.
    pub associated_token_program: Address,
}

impl MintTokens {
    /// The signer is the supply controller, the token unit is the
    /// configured one, and the account holds it and belongs to the recipient.
    pub open spec fn bound(self) -> bool {
        &&& self.config.supply_controller == self.supply_controller
        &&& self.mint.address == self.config.mint
        &&& self.recipient_token_account.mint == self.mint.address
        &&& self.recipient_token_account.owner == self.recipient
    }

    /// Decides `bound`.
    pub fn is_bound(&self) -> (r: bool)
        ensures
            r == self.bound(),
    {
        self.config.supply_controller == self.supply_controller && self.mint.address
            == self.config.mint && self.recipient_token_account.mint == self.mint.address
            && self.recipient_token_account.owner == self.recipient
    }
}

/// The accounts of `add_to_blacklist`.
#[derive(Clone, Copy, Debug, PartialEq, Eq)]
pub struct UpdateBlacklist {
    pub config: Config,
    /// The signer.
    pub asset_protection: Address,
    pub mint: Address,
    /// The address to blacklist.
    pub target_address: Address,
    /// The marker of `target_address`, where one exists.
    pub blacklist_entry: Option<BlacklistEntry>,
    /// The gatekeeper's configuration.
    pub gatekeeper_config: crate::gatekeeper::state::Config,
}

impl UpdateBlacklist {
    /// The signer is the asset-protection officer, and the token unit is
    /// the configured one.
    pub open spec fn bound(self) -> bool {
        self.config.asset_protection == self.asset_protection && self.mint == self.config.mint
    }

    /// Decides `bound`.
    pub fn is_bound(&self) -> (r: bool)
        ensures
            r == self.bound(),
    {
        self.config.asset_protection == self.asset_protection && self.mint == self.config.mint
    }
}

/// The accounts of `remove_from_blacklist`.
#[derive(Clone, Copy, Debug, PartialEq, Eq)]
pub struct RemoveBlacklist {
    pub config: Config,
    /// The signer.
    pub asset_protection: Address,
    pub mint: Address,
    /// The address to take off the blacklist.
    pub target_address: Address,
    /// The marker of `target_address`, where one exists.
    pub blacklist_entry: Option<BlacklistEntry>,
    /// The gatekeeper's configuration.
    pub gatekeeper_config: crate::gatekeeper::state::Config,
}

impl RemoveBlacklist {
    /// The signer is the asset-protection officer, and the token unit is
    /// the configured one.
    pub open spec fn bound(self) -> bool {
        self.config.asset_protection == self.asset_protection && self.mint == self.config.mint
    }

    /// Decides `bound`.
    pub fn is_bound(&self) -> (r: bool)
        ensures
            r == self.bound(),
    {
        self.config.asset_protection == self.asset_protection && self.mint == self.config.mint
    }
}

/// The accounts of `wipe_blacklisted_address`.
#[derive(Clone, Copy, Debug, PartialEq, Eq)]
pub struct WipeAddress {
    pub config: Config,
    /// The signer.
    pub asset_protection: Address,
    pub mint: Address,
    /// Whose tokens are wiped.
    pub target_user: Address,
    /// The account of `target_user` that is wiped.
    pub target_token_account: TokenAccount,
    /// The marker of `target_user`, where one exists.
    pub blacklist_entry: Option<BlacklistEntry>,
}

impl WipeAddress {
    /// The signer is the asset-protection officer, the token unit is the
    /// configured one, and the account holds it and belongs to the target.
    pub open spec fn bound(self) -> bool {
        &&& self.config.asset_protection == self.asset_protection
        &&& self.mint == self.config.mint
        &&& self.target_token_account.mint == self.mint
        &&& self.target_token_account.owner == self.target_user
    }

    /// Decides `bound`.
    pub fn is_bound(&self) -> (r: bool)
        ensures
            r == self.bound(),
    {
        self.config.asset_protection == self.asset_protection && self.mint == self.config.mint
            && self.target_token_account.mint == self.mint && self.target_token_account.owner
            == self.target_user
    }
}

/// Whether `account` is the token account associated with its owner for
/// its token unit under `token_program`, as `associated_token_program`
/// derives it.
pub open spec fn associated(
    account: TokenAccount,
    token_program: Address,
    associated_token_program: Address,
) -> bool {
    match found_program_address(
        associated_token_seeds(account.owner, token_program, account.mint),
        associated_token_program@,
    ) {
        Some((address, _)) => address == account.address@,
        None => false,
    }
}

/// Decides `associated`, by deriving the address.
pub fn is_associated(
    account: &TokenAccount,
    token_program: &Address,
    associated_token_program: &Address,
) -> (r: bool)
    ensures
        r == associated(*account, *token_program, *associated_token_program),
{
    match find_associated_token_account(
        associated_token_program,
        &account.owner,
        token_program,
        &account.mint,
    ) {
        Some(address) => {
            proof {
                if address@ == account.address@ {
                    Address::lemma_view_injective(address, account.address);
                }
            }
            address == account.address
        },
        None => false,
    }
}

} // verus!
