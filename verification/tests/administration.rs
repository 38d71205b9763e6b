use anchor_lang::prelude::Pubkey;
use anchor_spl::associated_token::get_associated_token_address_with_program_id;
use anchor_spl::token_2022::spl_token_2022::extension::ExtensionType;
use anchor_spl::token_2022::spl_token_2022::state::Mint as LedgerMint;
use gold_token::address::Address;
use gold_token::controller::accounts::Initialize;
use gold_token::controller::accounts::MintTokens;
use gold_token::controller::accounts::RemoveBlacklist;
use gold_token::controller::accounts::SetTransferFee;
use gold_token::controller::accounts::TogglePause;
use gold_token::controller::accounts::UpdateBlacklist;
use gold_token::controller::accounts::UpdateRole;
use gold_token::controller::accounts::WipeAddress;
use gold_token::controller::accounts::WithdrawWithheldTokensFromAccounts;
use gold_token::controller::accounts::WithdrawWithheldTokensFromMint;
use gold_token::controller::admin::toggle_pause;
use gold_token::controller::admin::update_asset_protection;
use gold_token::controller::admin::update_fee_controller;
use gold_token::controller::admin::update_supply_controller;
use gold_token::controller::errors::GoldTokenError;
use gold_token::controller::events::AddressBlacklisted;
use gold_token::controller::events::AddressUnblacklisted;
use gold_token::controller::events::PauseToggled;
use gold_token::controller::events::RoleUpdated;
use gold_token::controller::events::TokenInitialized;
use gold_token::controller::events::TokensMinted;
use gold_token::controller::events::TokensWiped;
use gold_token::controller::events::TransferFeeUpdated;
use gold_token::controller::events::WithheldTokensWithdrawn;
use gold_token::controller::events::WithheldTokensWithdrawnFromAccounts;
use gold_token::controller::fees::set_transfer_fee;
use gold_token::controller::fees::withdraw_withheld_tokens_from_accounts;
use gold_token::controller::fees::withdraw_withheld_tokens_from_accounts_under;
use gold_token::controller::fees::withdraw_withheld_tokens_from_mint;
use gold_token::controller::fees::withdraw_withheld_tokens_from_mint_under;
use gold_token::controller::protection::add_to_blacklist;
use gold_token::controller::protection::from_gatekeeper;
use gold_token::controller::protection::remove_from_blacklist;
use gold_token::controller::protection::wipe_blacklisted_address;
use gold_token::controller::setup::initialize;
use gold_token::controller::setup::initialize_under;
use gold_token::controller::setup::MintSetup;
use gold_token::controller::state::Config;
use gold_token::controller::supply::mint_tokens;
use gold_token::controller::supply::mint_tokens_under;
use gold_token::gatekeeper::errors::GatekeeperError;
use gold_token::gatekeeper::state::BlacklistEntry;
use gold_token::ledger::Mint;
use gold_token::ledger::TokenAccount;
use gold_token::pda::custody_delegate_with_bump;
use gold_token::pda::find_associated_token_account;
use gold_token::pda::find_custody_delegate;
use gold_token::pda::find_mint_authority;

fn ad_addr(n: u8) -> Address {
    Address::new([n; 32])
}

fn ad_config() -> Config {
    Config {
        admin: ad_addr(1),
        supply_controller: ad_addr(2),
        asset_protection: ad_addr(3),
        fee_controller: ad_addr(4),
        mint: ad_addr(5),
        gatekeeper_program: ad_addr(6),
        redemption_request_counter: 17,
        is_paused: false,
    }
}

fn ad_account(owner: u8, amount: u64) -> TokenAccount {
    TokenAccount {
        address: ad_addr(50),
        mint: ad_addr(5),
        owner: ad_addr(owner),
        amount,
        delegate: Some(ad_addr(77)),
        delegated_amount: 30,
    }
}

fn ad_associated(owner: u8) -> Address {
    let key = get_associated_token_address_with_program_id(
        &Pubkey::new_from_array([owner; 32]),
        &Pubkey::new_from_array([5u8; 32]),
        &anchor_spl::token_2022::ID,
    );
    Address::new(key.to_bytes())
}

fn ad_token_program() -> Address {
    Address::new(anchor_spl::token_2022::ID.to_bytes())
}

fn ad_associated_token_program() -> Address {
    Address::new(anchor_spl::associated_token::ID.to_bytes())
}

fn ad_real_mint_authority(program: [u8; 32]) -> ([u8; 32], u8) {
    let seeds: [&[u8]; 1] = [b"mint_authority"];
    let (key, bump) = Pubkey::find_program_address(&seeds, &Pubkey::new_from_array(program));
    (key.to_bytes(), bump)
}

fn ad_initialize_accounts() -> Initialize {
    Initialize {
        program_id: ad_addr(9),
        admin: ad_addr(1),
        supply_controller: ad_addr(2),
        asset_protection: ad_addr(3),
        fee_controller: ad_addr(4),
        gatekeeper_program: ad_addr(6),
        config: None,
        gatekeeper_config: None,
        extra_account_meta_list: None,
        mint: ad_addr(5),
        mint_authority_pda: ad_addr(88),
    }
}

#[test]
fn default_config_is_blank() {
    let config = Config::default();
    assert_eq!(config.admin, Address::new([0u8; 32]));
    assert_eq!(config.supply_controller, Address::new([0u8; 32]));
    assert_eq!(config.asset_protection, Address::new([0u8; 32]));
    assert_eq!(config.fee_controller, Address::new([0u8; 32]));
    assert_eq!(config.mint, Address::new([0u8; 32]));
    assert_eq!(config.gatekeeper_program, Address::new([0u8; 32]));
    assert_eq!(config.redemption_request_counter, 0);
    assert!(!config.is_paused);
}

#[test]
fn administrator_replaces_each_role() {
    let mut ctx = UpdateRole { config: ad_config(), admin: ad_addr(1) };
    assert_eq!(
        update_supply_controller(&mut ctx, ad_addr(22)),
        Ok(RoleUpdated {
            role: "supply_controller".to_string(),
            old_authority: ad_addr(2),
            new_authority: ad_addr(22),
        })
    );
    assert_eq!(ctx.config, Config { supply_controller: ad_addr(22), ..ad_config() });
    assert_eq!(
        update_asset_protection(&mut ctx, ad_addr(23)),
        Ok(RoleUpdated {
            role: "asset_protection".to_string(),
            old_authority: ad_addr(3),
            new_authority: ad_addr(23),
        })
    );
    assert_eq!(
        update_fee_controller(&mut ctx, ad_addr(24)),
        Ok(RoleUpdated {
            role: "fee_controller".to_string(),
            old_authority: ad_addr(4),
            new_authority: ad_addr(24),
        })
    );
    assert_eq!(
        ctx.config,
        Config {
            supply_controller: ad_addr(22),
            asset_protection: ad_addr(23),
            fee_controller: ad_addr(24),
            ..ad_config()
        }
    );
    assert_eq!(ctx.admin, ad_addr(1));
}

#[test]
fn roles_may_coincide() {
    let mut ctx = UpdateRole { config: ad_config(), admin: ad_addr(1) };
    update_supply_controller(&mut ctx, ad_addr(1)).unwrap();
    update_asset_protection(&mut ctx, ad_addr(1)).unwrap();
    update_fee_controller(&mut ctx, ad_addr(1)).unwrap();
    assert_eq!(ctx.config.supply_controller, ctx.config.admin);
    assert_eq!(ctx.config.asset_protection, ctx.config.admin);
    assert_eq!(ctx.config.fee_controller, ctx.config.admin);
}

#[test]
fn only_the_administrator_replaces_roles() {
    for signer in [2u8, 3, 4, 5, 99] {
        let mut ctx = UpdateRole { config: ad_config(), admin: ad_addr(signer) };
        let before = ctx;
        assert_eq!(update_supply_controller(&mut ctx, ad_addr(22)), Err(GoldTokenError::Unauthorized));
        assert_eq!(update_asset_protection(&mut ctx, ad_addr(22)), Err(GoldTokenError::Unauthorized));
        assert_eq!(update_fee_controller(&mut ctx, ad_addr(22)), Err(GoldTokenError::Unauthorized));
        assert_eq!(ctx, before);
    }
}

#[test]
fn pause_flips_back_and_forth() {
    let mut ctx = TogglePause { config: ad_config(), admin: ad_addr(1) };
    assert_eq!(toggle_pause(&mut ctx), Ok(PauseToggled { is_paused: true, authority: ad_addr(1) }));
    assert_eq!(ctx.config, Config { is_paused: true, ..ad_config() });
    assert_eq!(toggle_pause(&mut ctx), Ok(PauseToggled { is_paused: false, authority: ad_addr(1) }));
    assert_eq!(ctx.config, ad_config());
}

#[test]
fn only_the_administrator_pauses() {
    let mut ctx = TogglePause { config: ad_config(), admin: ad_addr(2) };
    let before = ctx;
    assert_eq!(toggle_pause(&mut ctx), Err(GoldTokenError::Unauthorized));
    assert_eq!(ctx, before);
}

#[test]
fn fee_is_set_as_given() {
    let ctx = SetTransferFee { config: ad_config(), fee_controller: ad_addr(4), mint: ad_addr(5) };
    assert_eq!(
        set_transfer_fee(&ctx, 2, 1_000_000),
        Ok(TransferFeeUpdated {
            mint: ad_addr(5),
            transfer_fee_basis_points: 2,
            maximum_fee: 1_000_000,
            authority: ad_addr(4),
        })
    );
    assert_eq!(
        set_transfer_fee(&ctx, u16::MAX, u64::MAX).unwrap(),
        TransferFeeUpdated {
            mint: ad_addr(5),
            transfer_fee_basis_points: u16::MAX,
            maximum_fee: u64::MAX,
            authority: ad_addr(4),
        }
    );
}

#[test]
fn fee_operations_are_gated_by_role_and_pause() {
    let mut set = SetTransferFee { config: ad_config(), fee_controller: ad_addr(1), mint: ad_addr(5) };
    assert_eq!(set_transfer_fee(&set, 2, 10), Err(GoldTokenError::Unauthorized));
    set.fee_controller = ad_addr(4);
    set.mint = ad_addr(55);
    assert_eq!(set_transfer_fee(&set, 2, 10), Err(GoldTokenError::Unauthorized));
    set.mint = ad_addr(5);
    set.config.is_paused = true;
    assert_eq!(set_transfer_fee(&set, 2, 10), Err(GoldTokenError::ContractPaused));
    set.fee_controller = ad_addr(1);
    assert_eq!(set_transfer_fee(&set, 2, 10), Err(GoldTokenError::Unauthorized));
}

#[test]
fn withheld_fees_go_to_the_fee_controller() {
    let mut ctx = WithdrawWithheldTokensFromMint {
        config: ad_config(),
        fee_controller: ad_addr(4),
        mint: ad_addr(5),
        destination_token_account: ad_account(4, 0),
        token_program: ad_token_program(),
        associated_token_program: ad_associated_token_program(),
    };
    assert_eq!(
        withdraw_withheld_tokens_from_mint_under(&ctx, false),
        Err(GoldTokenError::Unauthorized)
    );
    assert_eq!(withdraw_withheld_tokens_from_mint(&ctx), Err(GoldTokenError::Unauthorized));
    ctx.destination_token_account.address = ad_associated(4);
    assert_eq!(
        withdraw_withheld_tokens_from_mint(&ctx),
        Ok(WithheldTokensWithdrawn {
            mint: ad_addr(5),
            destination: ad_associated(4),
            authority: ad_addr(4),
        })
    );
    ctx.destination_token_account.address = ad_addr(50);
    assert_eq!(
        withdraw_withheld_tokens_from_mint_under(&ctx, true),
        Ok(WithheldTokensWithdrawn {
            mint: ad_addr(5),
            destination: ad_addr(50),
            authority: ad_addr(4),
        })
    );
    ctx.destination_token_account.owner = ad_addr(10);
    assert_eq!(
        withdraw_withheld_tokens_from_mint_under(&ctx, true),
        Err(GoldTokenError::Unauthorized)
    );
    ctx.destination_token_account.owner = ad_addr(4);
    ctx.destination_token_account.mint = ad_addr(55);
    assert_eq!(
        withdraw_withheld_tokens_from_mint_under(&ctx, true),
        Err(GoldTokenError::Unauthorized)
    );
    ctx.destination_token_account.mint = ad_addr(5);
    ctx.fee_controller = ad_addr(1);
    assert_eq!(
        withdraw_withheld_tokens_from_mint_under(&ctx, true),
        Err(GoldTokenError::Unauthorized)
    );
    ctx.fee_controller = ad_addr(4);
    ctx.config.is_paused = true;
    assert_eq!(
        withdraw_withheld_tokens_from_mint_under(&ctx, true),
        Err(GoldTokenError::ContractPaused)
    );
    assert_eq!(
        withdraw_withheld_tokens_from_mint_under(&ctx, false),
        Err(GoldTokenError::Unauthorized)
    );
}

#[test]
fn withdrawal_from_accounts_names_no_source() {
    let mut ctx = WithdrawWithheldTokensFromAccounts {
        config: ad_config(),
        fee_controller: ad_addr(4),
        mint: ad_addr(5),
        destination_token_account: ad_account(4, 0),
        token_program: ad_token_program(),
        associated_token_program: ad_associated_token_program(),
    };
    assert_eq!(
        withdraw_withheld_tokens_from_accounts_under(&ctx, true),
        Ok(WithheldTokensWithdrawnFromAccounts {
            mint: ad_addr(5),
            destination: ad_addr(50),
            source_accounts: Vec::new(),
            authority: ad_addr(4),
        })
    );
    assert_eq!(
        withdraw_withheld_tokens_from_accounts_under(&ctx, false),
        Err(GoldTokenError::Unauthorized)
    );
    assert_eq!(withdraw_withheld_tokens_from_accounts(&ctx), Err(GoldTokenError::Unauthorized));
    ctx.destination_token_account.address = ad_associated(4);
    assert_eq!(
        withdraw_withheld_tokens_from_accounts(&ctx),
        Ok(WithheldTokensWithdrawnFromAccounts {
            mint: ad_addr(5),
            destination: ad_associated(4),
            source_accounts: Vec::new(),
            authority: ad_addr(4),
        })
    );
    ctx.config.is_paused = true;
    assert_eq!(withdraw_withheld_tokens_from_accounts(&ctx), Err(GoldTokenError::ContractPaused));
    ctx.fee_controller = ad_addr(2);
    assert_eq!(withdraw_withheld_tokens_from_accounts(&ctx), Err(GoldTokenError::Unauthorized));
}

fn ad_minting() -> MintTokens {
    MintTokens {
        program_id: ad_addr(9),
        config: ad_config(),
        supply_controller: ad_addr(2),
        mint: Mint { address: ad_addr(5), supply: 1_000 },
        mint_authority_pda: ad_addr(88),
        recipient: ad_addr(10),
        recipient_token_account: ad_account(10, 40),
        token_program: ad_token_program(),
        associated_token_program: ad_associated_token_program(),
    }
}

#[test]
fn minting_credits_the_recipient_and_raises_the_supply() {
    let mut ctx = ad_minting();
    assert_eq!(
        mint_tokens_under(&mut ctx, true, true, 500, ad_addr(12)),
        Ok(TokensMinted {
            mint: ad_addr(5),
            to: ad_addr(50),
            amount: 500,
            authority: ad_addr(2),
            recipient: ad_addr(12),
        })
    );
    let mut expected = ad_minting();
    expected.recipient_token_account.amount = 540;
    expected.mint.supply = 1_500;
    assert_eq!(ctx, expected);
    assert_eq!(ctx.recipient_token_account.delegate, Some(ad_addr(77)));
    assert_eq!(ctx.recipient_token_account.delegated_amount, 30);
    assert!(mint_tokens_under(&mut ctx, true, true, 1, ad_addr(10)).is_ok());
    assert_eq!(ctx.recipient_token_account.amount, 541);
    assert_eq!(ctx.mint.supply, 1_501);
}

#[test]
fn minting_is_decided_by_role_amount_and_pause() {
    let to = ad_addr(10);
    let mut ctx = ad_minting();
    assert_eq!(mint_tokens_under(&mut ctx, true, true, 0, to), Err(GoldTokenError::InvalidAmount));
    assert_eq!(mint_tokens_under(&mut ctx, false, true, 500, to), Err(GoldTokenError::Unauthorized));
    assert_eq!(mint_tokens_under(&mut ctx, true, false, 500, to), Err(GoldTokenError::Unauthorized));
    ctx.config.is_paused = true;
    assert_eq!(
        mint_tokens_under(&mut ctx, true, true, 500, to),
        Err(GoldTokenError::ContractPaused)
    );
    assert_eq!(mint_tokens_under(&mut ctx, true, true, 0, to), Err(GoldTokenError::InvalidAmount));
    ctx.supply_controller = ad_addr(1);
    assert_eq!(mint_tokens_under(&mut ctx, true, true, 500, to), Err(GoldTokenError::Unauthorized));
    ctx.supply_controller = ad_addr(2);
    ctx.config.is_paused = false;
    ctx.recipient_token_account.owner = ad_addr(11);
    assert_eq!(mint_tokens_under(&mut ctx, true, true, 500, to), Err(GoldTokenError::Unauthorized));
    ctx.recipient_token_account.owner = ad_addr(10);
    ctx.recipient_token_account.mint = ad_addr(55);
    assert_eq!(mint_tokens_under(&mut ctx, true, true, 500, to), Err(GoldTokenError::Unauthorized));
    ctx.recipient_token_account.mint = ad_addr(5);
    ctx.mint.address = ad_addr(55);
    assert_eq!(mint_tokens_under(&mut ctx, true, true, 500, to), Err(GoldTokenError::Unauthorized));
    ctx.mint.address = ad_addr(5);
    assert_eq!(ctx, ad_minting());
}

#[test]
fn minting_beyond_the_ledgers_limits_is_an_invalid_amount() {
    let to = ad_addr(10);
    let mut ctx = ad_minting();
    ctx.mint.supply = u64::MAX - 100;
    let before = ctx;
    assert_eq!(mint_tokens_under(&mut ctx, true, true, 101, to), Err(GoldTokenError::InvalidAmount));
    assert_eq!(ctx, before);
    assert!(mint_tokens_under(&mut ctx, true, true, 100, to).is_ok());
    assert_eq!(ctx.mint.supply, u64::MAX);
    assert_eq!(ctx.recipient_token_account.amount, 140);
    let mut ctx = ad_minting();
    ctx.recipient_token_account.amount = u64::MAX;
    let before = ctx;
    assert_eq!(mint_tokens_under(&mut ctx, true, true, 1, to), Err(GoldTokenError::InvalidAmount));
    assert_eq!(ctx, before);
    ctx.config.is_paused = true;
    assert_eq!(mint_tokens_under(&mut ctx, true, true, 1, to), Err(GoldTokenError::ContractPaused));
}

#[test]
fn minting_derives_the_mint_authority() {
    let (pda, _) = ad_real_mint_authority([9u8; 32]);
    let mut ctx = ad_minting();
    ctx.mint_authority_pda = Address::new(pda);
    let before = ctx;
    assert_eq!(mint_tokens(&mut ctx, 500, ad_addr(10)), Err(GoldTokenError::Unauthorized));
    assert_eq!(ctx, before);
    ctx.recipient_token_account.address = ad_associated(10);
    let minted = mint_tokens(&mut ctx, 500, ad_addr(10)).unwrap();
    assert_eq!(minted.amount, 500);
    assert_eq!(minted.to, ad_associated(10));
    assert_eq!(ctx.recipient_token_account.amount, 540);
    assert_eq!(ctx.mint.supply, 1_500);
    ctx.recipient_token_account.address = ad_associated(11);
    assert_eq!(mint_tokens(&mut ctx, 500, ad_addr(10)), Err(GoldTokenError::Unauthorized));
    ctx.recipient_token_account.address = ad_associated(10);
    ctx.mint_authority_pda = ad_addr(88);
    assert_eq!(mint_tokens(&mut ctx, 500, ad_addr(10)), Err(GoldTokenError::Unauthorized));
    ctx.mint_authority_pda = Address::new(pda);
    ctx.program_id = ad_addr(8);
    assert_eq!(mint_tokens(&mut ctx, 500, ad_addr(10)), Err(GoldTokenError::Unauthorized));
    assert_eq!(ctx.recipient_token_account.amount, 540);
    assert_eq!(ctx.mint.supply, 1_500);
}

#[test]
fn derived_addresses_agree_with_the_ledgers_derivation() {
    let program = Pubkey::new_from_array([9u8; 32]);
    let user = [10u8; 32];
    for request_id in [1u64, 2, 255, 256, 65_536, u64::MAX] {
        let id = request_id.to_le_bytes();
        let seeds: [&[u8]; 3] = [b"redemption_pda", &user, &id];
        let (key, bump) = Pubkey::find_program_address(&seeds, &program);
        assert_eq!(
            find_custody_delegate(&ad_addr(9), &ad_addr(10), request_id),
            Some((Address::new(key.to_bytes()), bump))
        );
        assert_eq!(
            custody_delegate_with_bump(&ad_addr(9), &ad_addr(10), request_id, bump),
            Some(Address::new(key.to_bytes()))
        );
        let bumped: [&[u8]; 4] = [b"redemption_pda", &user, &id, &[bump.wrapping_sub(1)]];
        assert_eq!(
            custody_delegate_with_bump(&ad_addr(9), &ad_addr(10), request_id, bump.wrapping_sub(1)),
            Pubkey::create_program_address(&bumped, &program).ok().map(|k| Address::new(k.to_bytes()))
        );
    }
    let (authority, bump) = ad_real_mint_authority([9u8; 32]);
    assert_eq!(find_mint_authority(&ad_addr(9)), Some((Address::new(authority), bump)));
    assert_eq!(
        find_associated_token_account(
            &ad_associated_token_program(),
            &ad_addr(10),
            &ad_token_program(),
            &ad_addr(5)
        ),
        Some(ad_associated(10))
    );
}

#[test]
fn custody_delegates_differ_by_user_and_request() {
    let a = find_custody_delegate(&ad_addr(9), &ad_addr(10), 1).unwrap().0;
    let b = find_custody_delegate(&ad_addr(9), &ad_addr(10), 2).unwrap().0;
    let c = find_custody_delegate(&ad_addr(9), &ad_addr(11), 1).unwrap().0;
    let d = find_custody_delegate(&ad_addr(8), &ad_addr(10), 1).unwrap().0;
    assert_ne!(a, b);
    assert_ne!(a, c);
    assert_ne!(a, d);
    assert_ne!(a, ad_addr(10));
    assert_eq!(a, find_custody_delegate(&ad_addr(9), &ad_addr(10), 1).unwrap().0);
}

#[test]
fn token_is_created_with_its_roles() {
    let mut ctx = ad_initialize_accounts();
    let r = initialize_under(
        &mut ctx,
        Some(253),
        "Gold".to_string(),
        "GLD".to_string(),
        "https://example.invalid/gold.json".to_string(),
        2,
        5_000,
    );
    let (event, setup) = r.unwrap();
    assert_eq!(
        event,
        TokenInitialized { mint: ad_addr(5), admin: ad_addr(1), gatekeeper_program: ad_addr(6) }
    );
    assert_eq!(
        setup,
        MintSetup {
            account_size: 382,
            transfer_fee_config_authority: ad_addr(4),
            withdraw_withheld_authority: ad_addr(4),
            transfer_fee_basis_points: 2,
            maximum_fee: 5_000,
            permanent_delegate: ad_addr(3),
            transfer_hook_authority: ad_addr(3),
            transfer_hook_program: ad_addr(6),
            mint_authority: ad_addr(88),
            mint_authority_bump: 253,
            freeze_authority: None,
            decimals: 9,
        }
    );
    assert_eq!(
        ctx.config,
        Some(Config {
            admin: ad_addr(1),
            supply_controller: ad_addr(2),
            asset_protection: ad_addr(3),
            fee_controller: ad_addr(4),
            mint: ad_addr(5),
            gatekeeper_program: ad_addr(6),
            redemption_request_counter: 0,
            is_paused: false,
        })
    );
    assert_eq!(
        ctx.gatekeeper_config,
        Some(gold_token::gatekeeper::state::Config { authority: ad_addr(3) })
    );
    let list = ctx.extra_account_meta_list.unwrap();
    assert_eq!(list.account_size, 86);
    assert_eq!(list.accounts.len(), 2);
    assert_eq!(list.accounts[0].address_config[11..13], [3, 3]);
    assert_eq!(list.accounts[1].address_config[11..15], [4, 2, 32, 32]);
}

#[test]
fn mint_account_size_is_the_ledgers() {
    let mut ctx = ad_initialize_accounts();
    let (_, setup) =
        initialize_under(&mut ctx, Some(1), String::new(), String::new(), String::new(), 0, 0)
            .unwrap();
    let expected = ExtensionType::try_calculate_account_len::<LedgerMint>(&[
        ExtensionType::TransferFeeConfig,
        ExtensionType::PermanentDelegate,
        ExtensionType::TransferHook,
    ])
    .unwrap();
    assert_eq!(setup.account_size, expected);
}

#[test]
fn token_is_created_once() {
    let mut ctx = ad_initialize_accounts();
    initialize_under(&mut ctx, Some(1), String::new(), String::new(), String::new(), 0, 0).unwrap();
    let before = ctx.clone();
    ctx.admin = ad_addr(99);
    assert_eq!(
        initialize_under(&mut ctx, Some(1), String::new(), String::new(), String::new(), 0, 0),
        Err(GoldTokenError::Unauthorized)
    );
    ctx.admin = ad_addr(1);
    assert_eq!(ctx, before);
}

#[test]
fn creation_is_refused_whole() {
    let mut ctx = ad_initialize_accounts();
    let before = ctx.clone();
    assert_eq!(
        initialize_under(&mut ctx, None, String::new(), String::new(), String::new(), 0, 0),
        Err(GoldTokenError::Unauthorized)
    );
    assert_eq!(ctx, before);
    ctx.gatekeeper_config = Some(gold_token::gatekeeper::state::Config { authority: ad_addr(3) });
    let before = ctx.clone();
    assert_eq!(
        initialize_under(&mut ctx, Some(1), String::new(), String::new(), String::new(), 0, 0),
        Err(GoldTokenError::Unauthorized)
    );
    assert_eq!(ctx, before);
    let mut first = ad_initialize_accounts();
    initialize_under(&mut first, Some(1), String::new(), String::new(), String::new(), 0, 0).unwrap();
    let mut ctx = ad_initialize_accounts();
    ctx.extra_account_meta_list = first.extra_account_meta_list;
    let before = ctx.clone();
    assert_eq!(
        initialize_under(&mut ctx, Some(1), String::new(), String::new(), String::new(), 0, 0),
        Err(GoldTokenError::Unauthorized)
    );
    assert_eq!(ctx, before);
}

#[test]
fn creation_derives_the_mint_authority() {
    let (pda, bump) = ad_real_mint_authority([9u8; 32]);
    let mut ctx = ad_initialize_accounts();
    let before = ctx.clone();
    assert_eq!(
        initialize(&mut ctx, String::new(), String::new(), String::new(), 2, 10),
        Err(GoldTokenError::Unauthorized)
    );
    assert_eq!(ctx, before);
    ctx.mint_authority_pda = Address::new(pda);
    let (_, setup) =
        initialize(&mut ctx, String::new(), String::new(), String::new(), 2, 10).unwrap();
    assert_eq!(setup.mint_authority, Address::new(pda));
    assert_eq!(setup.mint_authority_bump, bump);
    assert_eq!(setup.account_size, 382);
}

#[test]
fn officer_blacklists_through_the_gatekeeper() {
    let mut ctx = UpdateBlacklist {
        config: ad_config(),
        asset_protection: ad_addr(3),
        mint: ad_addr(5),
        target_address: ad_addr(10),
        blacklist_entry: None,
        gatekeeper_config: gold_token::gatekeeper::state::Config { authority: ad_addr(3) },
    };
    assert_eq!(
        add_to_blacklist(&mut ctx),
        Ok(AddressBlacklisted { address: ad_addr(10), authority: ad_addr(3) })
    );
    assert_eq!(ctx.blacklist_entry, Some(BlacklistEntry {}));
    assert!(add_to_blacklist(&mut ctx).is_ok());
    assert_eq!(ctx.blacklist_entry, Some(BlacklistEntry {}));
    let mut ctx = RemoveBlacklist {
        config: ad_config(),
        asset_protection: ad_addr(3),
        mint: ad_addr(5),
        target_address: ad_addr(10),
        blacklist_entry: Some(BlacklistEntry {}),
        gatekeeper_config: gold_token::gatekeeper::state::Config { authority: ad_addr(3) },
    };
    assert_eq!(
        remove_from_blacklist(&mut ctx),
        Ok(AddressUnblacklisted { address: ad_addr(10), authority: ad_addr(3) })
    );
    assert_eq!(ctx.blacklist_entry, None);
    let before = ctx;
    assert_eq!(remove_from_blacklist(&mut ctx), Err(GoldTokenError::AddressNotBlacklisted));
    assert_eq!(ctx, before);
}

#[test]
fn blacklisting_needs_the_officer_at_both_ends() {
    let mut ctx = UpdateBlacklist {
        config: ad_config(),
        asset_protection: ad_addr(1),
        mint: ad_addr(5),
        target_address: ad_addr(10),
        blacklist_entry: None,
        gatekeeper_config: gold_token::gatekeeper::state::Config { authority: ad_addr(3) },
    };
    let before = ctx;
    assert_eq!(add_to_blacklist(&mut ctx), Err(GoldTokenError::Unauthorized));
    assert_eq!(ctx, before);
    ctx.asset_protection = ad_addr(3);
    ctx.gatekeeper_config.authority = ad_addr(33);
    let before = ctx;
    assert_eq!(add_to_blacklist(&mut ctx), Err(GoldTokenError::Unauthorized));
    assert_eq!(ctx, before);
    ctx.gatekeeper_config.authority = ad_addr(3);
    ctx.mint = ad_addr(55);
    assert_eq!(add_to_blacklist(&mut ctx), Err(GoldTokenError::Unauthorized));
    let mut ctx = RemoveBlacklist {
        config: ad_config(),
        asset_protection: ad_addr(3),
        mint: ad_addr(5),
        target_address: ad_addr(10),
        blacklist_entry: Some(BlacklistEntry {}),
        gatekeeper_config: gold_token::gatekeeper::state::Config { authority: ad_addr(33) },
    };
    let before = ctx;
    assert_eq!(remove_from_blacklist(&mut ctx), Err(GoldTokenError::Unauthorized));
    assert_eq!(ctx, before);
}

#[test]
fn blacklisting_works_while_paused() {
    let mut ctx = UpdateBlacklist {
        config: Config { is_paused: true, ..ad_config() },
        asset_protection: ad_addr(3),
        mint: ad_addr(5),
        target_address: ad_addr(10),
        blacklist_entry: None,
        gatekeeper_config: gold_token::gatekeeper::state::Config { authority: ad_addr(3) },
    };
    assert!(add_to_blacklist(&mut ctx).is_ok());
}

#[test]
fn gatekeeper_refusals_have_controller_names() {
    assert_eq!(
        from_gatekeeper(GatekeeperError::AddressNotBlacklisted),
        GoldTokenError::AddressNotBlacklisted
    );
    assert_eq!(from_gatekeeper(GatekeeperError::Unauthorized), GoldTokenError::Unauthorized);
    assert_eq!(from_gatekeeper(GatekeeperError::AddressBlacklisted), GoldTokenError::Unauthorized);
    assert_eq!(
        from_gatekeeper(GatekeeperError::InvalidInstructionData),
        GoldTokenError::Unauthorized
    );
}

#[test]
fn wipe_burns_from_a_blacklisted_holder() {
    let mut ctx = WipeAddress {
        config: ad_config(),
        asset_protection: ad_addr(3),
        mint: ad_addr(5),
        target_user: ad_addr(10),
        target_token_account: ad_account(10, 150),
        blacklist_entry: Some(BlacklistEntry {}),
    };
    assert_eq!(
        wipe_blacklisted_address(&mut ctx, 60),
        Ok(TokensWiped { target_user: ad_addr(10), amount: 60, authority: ad_addr(3) })
    );
    assert_eq!(ctx.target_token_account.amount, 90);
    assert_eq!(ctx.target_token_account.delegate, Some(ad_addr(77)));
    assert_eq!(ctx.target_token_account.delegated_amount, 30);
    assert!(wipe_blacklisted_address(&mut ctx, 90).is_ok());
    assert_eq!(ctx.target_token_account.amount, 0);
}

#[test]
fn wipe_refusals() {
    let ok = WipeAddress {
        config: ad_config(),
        asset_protection: ad_addr(3),
        mint: ad_addr(5),
        target_user: ad_addr(10),
        target_token_account: ad_account(10, 150),
        blacklist_entry: Some(BlacklistEntry {}),
    };
    let mut ctx = ok;
    assert_eq!(wipe_blacklisted_address(&mut ctx, 0), Err(GoldTokenError::InvalidAmount));
    assert_eq!(ctx, ok);
    assert_eq!(wipe_blacklisted_address(&mut ctx, 151), Err(GoldTokenError::InsufficientBalance));
    assert_eq!(ctx, ok);
    ctx.blacklist_entry = None;
    let before = ctx;
    assert_eq!(wipe_blacklisted_address(&mut ctx, 60), Err(GoldTokenError::AddressNotBlacklisted));
    assert_eq!(wipe_blacklisted_address(&mut ctx, 151), Err(GoldTokenError::AddressNotBlacklisted));
    assert_eq!(wipe_blacklisted_address(&mut ctx, 0), Err(GoldTokenError::InvalidAmount));
    assert_eq!(ctx, before);
    let mut ctx = ok;
    ctx.asset_protection = ad_addr(1);
    assert_eq!(wipe_blacklisted_address(&mut ctx, 60), Err(GoldTokenError::Unauthorized));
    let mut ctx = ok;
    ctx.target_user = ad_addr(11);
    assert_eq!(wipe_blacklisted_address(&mut ctx, 60), Err(GoldTokenError::Unauthorized));
    let mut ctx = ok;
    ctx.target_token_account.mint = ad_addr(55);
    assert_eq!(wipe_blacklisted_address(&mut ctx, 60), Err(GoldTokenError::Unauthorized));
}

#[test]
fn wipe_works_while_paused() {
    let mut ctx = WipeAddress {
        config: Config { is_paused: true, ..ad_config() },
        asset_protection: ad_addr(3),
        mint: ad_addr(5),
        target_user: ad_addr(10),
        target_token_account: ad_account(10, 150),
        blacklist_entry: Some(BlacklistEntry {}),
    };
    assert!(wipe_blacklisted_address(&mut ctx, 150).is_ok());
    assert_eq!(ctx.target_token_account.amount, 0);
}
