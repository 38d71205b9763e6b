//! The creation of a token: its configuration, what its mint is created
//! with, and the gatekeeper that goes with it.

use crate::address::Address;
use crate::controller::accounts::Initialize;
use crate::controller::errors::GoldTokenError;
use crate::controller::events::TokenInitialized;
use crate::controller::state::Config;
use crate::gatekeeper::resolution::is_marker_list;
use crate::gatekeeper::resolution::InitializeExtraAccountMetaList;
use crate::pda::find_mint_authority;
use crate::pda::found_program_address;
use crate::pda::mint_authority_seeds;
use anchor_lang::prelude::ProgramError;
use anchor_spl::token_2022::spl_token_2022::extension::ExtensionType;
use anchor_spl::token_2022::spl_token_2022::state::Mint;
use vstd::prelude::*;

verus! {

/// An extension that the token's mint is created with.
#[derive(Clone, Copy, Debug, PartialEq, Eq, Structural, Hash)]
pub enum MintExtension {
    /// A fee withheld on every transfer.
    TransferFeeConfig,
    /// A standing authority to move or burn any holder's tokens.
    PermanentDelegate,
    /// A program that is asked about every transfer.
    TransferHook,
}

/// What the token's mint is created with, in the order in which the ledger
/// must be told: the fee, the standing seizure authority, the transfer
/// check, and then the mint itself.
#[derive(Clone, Copy, Debug, PartialEq, Eq)]
pub struct MintSetup {
    /// The size of the mint's account.
    pub account_size: usize,
    /// Who may change the transfer fee.
    pub transfer_fee_config_authority: Address,
    /// Who may withdraw withheld fees.
    pub withdraw_withheld_authority: Address,
    pub transfer_fee_basis_points: u16,
    pub maximum_fee: u64,
    /// Who holds the standing seizure authority, for good.
    pub permanent_delegate: Address,
    /// Who may change the transfer check.
    pub transfer_hook_authority: Address,
    /// The program that checks every transfer.
    pub transfer_hook_program: Address,
    /// The authority under which tokens are minted, and its bump seed.
    pub mint_authority: Address,
    pub mint_authority_bump: u8,
    /// Nobody may freeze accounts.
    pub freeze_authority: Option<Address>,
    pub decimals: u8,
}

/// The size of the account of a mint with the given extensions.
pub uninterp spec fn mint_account_len(extensions: Seq<MintExtension>) -> usize;

/// The extensions of the token's mint.
pub open spec fn mint_extensions() -> Seq<MintExtension> {
    seq![
        MintExtension::TransferFeeConfig,
        MintExtension::PermanentDelegate,
        MintExtension::TransferHook,
    ]
}

/// Computes the size of the account of a mint with the given extensions.
///
/// Trusted: calls `ExtensionType::try_calculate_account_len` for a mint.
/// The result depends on the extensions alone and is named
/// `mint_account_len`. The call fails only for an extension of variable
/// length, and none of the three kinds is one.
#[verifier::external_body]
pub(crate) fn calculate_mint_account_len(extensions: &Vec<MintExtension>) -> (r: Result<
    usize,
    ProgramError,
>)
    ensures
        r is Ok,
        r->Ok_0 == mint_account_len(extensions@),
{
    let types: Vec<ExtensionType> = extensions.iter().map(
        |extension| match extension {
            MintExtension::TransferFeeConfig => ExtensionType::TransferFeeConfig,
            MintExtension::PermanentDelegate => ExtensionType::PermanentDelegate,
            MintExtension::TransferHook => ExtensionType::TransferHook,
        },
    ).collect();
    ExtensionType::try_calculate_account_len::<Mint>(&types)
}

/// The bump seed under which `ctx.mint_authority_pda` is the mint authority
/// that the controller's address derives, where it is that authority.
pub open spec fn mint_authority_bump(ctx: Initialize) -> Option<u8> {
    match found_program_address(mint_authority_seeds(), ctx.program_id@) {
        Some((address, bump)) => if address == ctx.mint_authority_pda@ {
            Some(bump)
        } else {
            None
        },
        None => None,
    }
}

/// Whether `initialize` is refused: a configuration, a gatekeeper
/// configuration or a list of extra accounts exists already, or
/// `ctx.mint_authority_pda` is not the mint authority.
pub open spec fn initialize_refused(ctx: Initialize, authority_bump: Option<u8>) -> bool {
    ||| ctx.config is Some
    ||| authority_bump is None
    ||| ctx.gatekeeper_config is Some
    ||| ctx.extra_account_meta_list is Some
}

/// The configuration of a new token: the roles as named, the counter at 0,
/// not paused.
pub open spec fn initial_config(ctx: Initialize) -> Config {
    Config {
        admin: ctx.admin,
        supply_controller: ctx.supply_controller,
        asset_protection: ctx.asset_protection,
        fee_controller: ctx.fee_controller,
        mint: ctx.mint,
        gatekeeper_program: ctx.gatekeeper_program,
        redemption_request_counter: 0,
        is_paused: false,
    }
}

/// What the mint of a new token is created with: the fee controller rules
/// the fee, the asset-protection officer holds the standing seizure
/// authority and rules the transfer check, the gatekeeper checks transfers,
/// and tokens have nine decimals and cannot be frozen.
pub open spec fn initial_mint_setup(
    ctx: Initialize,
    bump: u8,
    transfer_fee_basis_points: u16,
    maximum_fee: u64,
) -> MintSetup {
    MintSetup {
        account_size: mint_account_len(mint_extensions()),
        transfer_fee_config_authority: ctx.fee_controller,
        withdraw_withheld_authority: ctx.fee_controller,
        transfer_fee_basis_points,
        maximum_fee,
        permanent_delegate: ctx.asset_protection,
        transfer_hook_authority: ctx.asset_protection,
        transfer_hook_program: ctx.gatekeeper_program,
        mint_authority: ctx.mint_authority_pda,
        mint_authority_bump: bump,
        freeze_authority: None,
        decimals: 9,
    }
}

/// Creates a token, given whether `ctx.mint_authority_pda` is the mint
/// authority, and under which bump seed.
///
/// It happens once. The configuration is created with the roles as named;
/// the gatekeeper is configured with the asset-protection officer as its
/// authority, and its list of extra accounts is written; the result says
/// what the mint is to be created with. A refusal changes nothing.
pub fn initialize_under(
    ctx: &mut Initialize,
    authority_bump: Option<u8>,
    _name: String,
    _symbol: String,
    _uri: String,
    transfer_fee_basis_points: u16,
    maximum_fee: u64,
) -> (r: Result<(TokenInitialized, MintSetup), GoldTokenError>)
    ensures
        initialize_refused(*old(ctx), authority_bump) ==> r is Err && r->Err_0
            == GoldTokenError::Unauthorized && *final(ctx) == *old(ctx),
        !initialize_refused(*old(ctx), authority_bump) ==> {
            &&& r is Ok
            &&& r->Ok_0.0 == (TokenInitialized {
                mint: old(ctx).mint,
                admin: old(ctx).admin,
                gatekeeper_program: old(ctx).gatekeeper_program,
            })
            &&& r->Ok_0.1 == initial_mint_setup(
                *old(ctx),
                authority_bump->Some_0,
                transfer_fee_basis_points,
                maximum_fee,
            )
            &&& final(ctx).config == Some(initial_config(*old(ctx)))
            &&& final(ctx).gatekeeper_config == Some(
                crate::gatekeeper::state::Config { authority: old(ctx).asset_protection },
            )
            &&& final(ctx).extra_account_meta_list is Some
            &&& is_marker_list(final(ctx).extra_account_meta_list->Some_0)
            &&& final(ctx).program_id == old(ctx).program_id
            &&& final(ctx).admin == old(ctx).admin
            &&& final(ctx).supply_controller == old(ctx).supply_controller
            &&& final(ctx).asset_protection == old(ctx).asset_protection
            &&& final(ctx).fee_controller == old(ctx).fee_controller
            &&& final(ctx).gatekeeper_program == old(ctx).gatekeeper_program
            &&& final(ctx).mint == old(ctx).mint
            &&& final(ctx).mint_authority_pda == old(ctx).mint_authority_pda
        },
{
    if ctx.config.is_some() {
        return Err(GoldTokenError::Unauthorized);
    }
    let bump = match authority_bump {
        Some(bump) => bump,
        None => {
            return Err(GoldTokenError::Unauthorized);
        },
    };
    if ctx.extra_account_meta_list.is_some() {
        return Err(GoldTokenError::Unauthorized);
    }
    let mut extensions: Vec<MintExtension> = Vec::new();
    extensions.push(MintExtension::TransferFeeConfig);
    extensions.push(MintExtension::PermanentDelegate);
    extensions.push(MintExtension::TransferHook);
    assert(extensions@ =~= mint_extensions());
    let account_size = match calculate_mint_account_len(&extensions) {
        Ok(size) => size,
        Err(_) => {
            return Err(GoldTokenError::Unauthorized);
        },
    };
    let mut gatekeeper_accounts = crate::gatekeeper::accounts::Initialize {
        payer: ctx.admin,
        authority: ctx.asset_protection,
        config: ctx.gatekeeper_config,
        mint: ctx.mint,
    };
    if crate::gatekeeper::admin::initialize(&mut gatekeeper_accounts).is_err() {
        return Err(GoldTokenError::Unauthorized);
    }
    let mut list_accounts = InitializeExtraAccountMetaList {
        payer: ctx.admin,
        extra_account_meta_list: None,
        mint: ctx.mint,
    };
    if crate::gatekeeper::resolution::initialize_extra_account_meta_list(
        &mut list_accounts,
    ).is_err() {
        return Err(GoldTokenError::Unauthorized);
    }
    let setup = MintSetup {
        account_size,
        transfer_fee_config_authority: ctx.fee_controller,
        withdraw_withheld_authority: ctx.fee_controller,
        transfer_fee_basis_points,
        maximum_fee,
        permanent_delegate: ctx.asset_protection,
        transfer_hook_authority: ctx.asset_protection,
        transfer_hook_program: ctx.gatekeeper_program,
        mint_authority: ctx.mint_authority_pda,
        mint_authority_bump: bump,
        freeze_authority: None,
        decimals: 9,
    };
    ctx.config = Some(
        Config {
            admin: ctx.admin,
            supply_controller: ctx.supply_controller,
            asset_protection: ctx.asset_protection,
            fee_controller: ctx.fee_controller,
            mint: ctx.mint,
            gatekeeper_program: ctx.gatekeeper_program,
            redemption_request_counter: 0,
            is_paused: false,
        },
    );
    ctx.gatekeeper_config = gatekeeper_accounts.config;
    ctx.extra_account_meta_list = list_accounts.extra_account_meta_list;
    Ok(
        (
            TokenInitialized {
                mint: ctx.mint,
                admin: ctx.admin,
                gatekeeper_program: ctx.gatekeeper_program,
            },
            setup,
        ),
    )
}

/// Creates a token: `initialize_under`, with the mint authority derived
/// from the controller's address.
pub fn initialize(
    ctx: &mut Initialize,
    _name: String,
    _symbol: String,
    _uri: String,
    transfer_fee_basis_points: u16,
    maximum_fee: u64,
) -> (r: Result<(TokenInitialized, MintSetup), GoldTokenError>)
    ensures
        initialize_refused(*old(ctx), mint_authority_bump(*old(ctx))) ==> r is Err && r->Err_0
            == GoldTokenError::Unauthorized && *final(ctx) == *old(ctx),
        !initialize_refused(*old(ctx), mint_authority_bump(*old(ctx))) ==> {
            &&& r is Ok
            &&& r->Ok_0.0 == (TokenInitialized {
                mint: old(ctx).mint,
                admin: old(ctx).admin,
                gatekeeper_program: old(ctx).gatekeeper_program,
            })
            &&& r->Ok_0.1 == initial_mint_setup(
                *old(ctx),
                mint_authority_bump(*old(ctx))->Some_0,
                transfer_fee_basis_points,
                maximum_fee,
            )
            &&& final(ctx).config == Some(initial_config(*old(ctx)))
            &&& final(ctx).gatekeeper_config == Some(
                crate::gatekeeper::state::Config { authority: old(ctx).asset_protection },
            )
            &&& final(ctx).extra_account_meta_list is Some
            &&& is_marker_list(final(ctx).extra_account_meta_list->Some_0)
            &&& final(ctx).program_id == old(ctx).program_id
            &&& final(ctx).admin == old(ctx).admin
            &&& final(ctx).supply_controller == old(ctx).supply_controller
            &&& final(ctx).asset_protection == old(ctx).asset_protection
            &&& final(ctx).fee_controller == old(ctx).fee_controller
            &&& final(ctx).gatekeeper_program == old(ctx).gatekeeper_program
            &&& final(ctx).mint == old(ctx).mint
            &&& final(ctx).mint_authority_pda == old(ctx).mint_authority_pda
        },
{
    let authority_bump = match find_mint_authority(&ctx.program_id) {
        Some((address, bump)) => {
            proof {
                if address@ == ctx.mint_authority_pda@ {
                    Address::lemma_view_injective(address, ctx.mint_authority_pda);
                }
            }
            if address == ctx.mint_authority_pda {
                Some(bump)
            } else {
                None
            }
        },
        None => None,
    };
    initialize_under(
        ctx,
        authority_bump,
        _name,
        _symbol,
        _uri,
        transfer_fee_basis_points,
        maximum_fee,
    )
}

} // verus!
