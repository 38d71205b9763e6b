use gold_token::address::Address;
use gold_token::gatekeeper::accounts::AddToBlacklist;
use gold_token::gatekeeper::accounts::Initialize;
use gold_token::gatekeeper::accounts::RemoveFromBlacklist;
use gold_token::gatekeeper::accounts::SetAuthority;
use gold_token::gatekeeper::accounts::TransferHook;
use gold_token::gatekeeper::admin::add_to_blacklist;
use gold_token::gatekeeper::admin::initialize;
use gold_token::gatekeeper::admin::remove_from_blacklist;
use gold_token::gatekeeper::admin::set_authority;
use gold_token::gatekeeper::errors::GatekeeperError;
use gold_token::gatekeeper::hook::dispatch;
use gold_token::gatekeeper::hook::fallback;
use gold_token::gatekeeper::hook::is_execute_data;
use gold_token::gatekeeper::hook::transfer_hook;
use gold_token::gatekeeper::hook::HookInstruction;
use gold_token::gatekeeper::registry::BlacklistRegistry;
use gold_token::gatekeeper::resolution::initialize_extra_account_meta_list;
use gold_token::gatekeeper::resolution::ExtraAccount;
use gold_token::gatekeeper::resolution::ExtraAccountList;
use gold_token::gatekeeper::resolution::InitializeExtraAccountMetaList;
use gold_token::gatekeeper::service::Gatekeeper;
use gold_token::gatekeeper::state::BlacklistEntry;
use gold_token::gatekeeper::state::Config;
use gold_token::ledger::TokenAccount;
use spl_tlv_account_resolution::account::ExtraAccountMeta;
use spl_tlv_account_resolution::seeds::Seed;
use spl_tlv_account_resolution::state::ExtraAccountMetaList;
use spl_transfer_hook_interface::instruction::TransferHookInstruction;

fn gk_addr(n: u8) -> Address {
    Address::new([n; 32])
}

fn gk_account(address: u8, owner: u8, amount: u64) -> TokenAccount {
    TokenAccount {
        address: gk_addr(address),
        mint: gk_addr(5),
        owner: gk_addr(owner),
        amount,
        delegate: None,
        delegated_amount: 0,
    }
}

fn gk_transfer(source: Option<BlacklistEntry>, destination: Option<BlacklistEntry>) -> TransferHook {
    TransferHook {
        source_token: gk_account(50, 10, 500),
        mint: gk_addr(5),
        destination_token: gk_account(51, 11, 0),
        owner: gk_addr(10),
        source_blacklist_entry: source,
        destination_blacklist_entry: destination,
    }
}

#[test]
fn hook_approves_when_nobody_is_blacklisted() {
    assert_eq!(transfer_hook(&gk_transfer(None, None), 42), Ok(()));
}

#[test]
fn hook_denies_a_blacklisted_source() {
    let ctx = gk_transfer(Some(BlacklistEntry {}), None);
    assert_eq!(transfer_hook(&ctx, 42), Err(GatekeeperError::AddressBlacklisted));
}

#[test]
fn hook_denies_a_blacklisted_destination() {
    let ctx = gk_transfer(None, Some(BlacklistEntry {}));
    assert_eq!(transfer_hook(&ctx, 42), Err(GatekeeperError::AddressBlacklisted));
}

#[test]
fn hook_denies_when_both_are_blacklisted() {
    let ctx = gk_transfer(Some(BlacklistEntry {}), Some(BlacklistEntry {}));
    assert_eq!(transfer_hook(&ctx, 42), Err(GatekeeperError::AddressBlacklisted));
}

#[test]
fn hook_is_indifferent_to_the_amount() {
    for amount in [0u64, 1, 100, u64::MAX] {
        assert_eq!(transfer_hook(&gk_transfer(None, None), amount), Ok(()));
        assert_eq!(
            transfer_hook(&gk_transfer(Some(BlacklistEntry {}), None), amount),
            Err(GatekeeperError::AddressBlacklisted)
        );
        assert_eq!(
            transfer_hook(&gk_transfer(None, Some(BlacklistEntry {})), amount),
            Err(GatekeeperError::AddressBlacklisted)
        );
    }
}

#[test]
fn hook_rejects_a_signer_who_is_not_the_owner() {
    let mut ctx = gk_transfer(None, None);
    ctx.owner = gk_addr(12);
    assert_eq!(transfer_hook(&ctx, 42), Err(GatekeeperError::Unauthorized));
    let mut ctx = gk_transfer(Some(BlacklistEntry {}), Some(BlacklistEntry {}));
    ctx.owner = gk_addr(12);
    assert_eq!(transfer_hook(&ctx, 42), Err(GatekeeperError::Unauthorized));
}

#[test]
fn fallback_checks_an_execute_instruction() {
    let data = TransferHookInstruction::Execute { amount: 7 }.pack();
    assert_eq!(data, vec![105, 37, 101, 197, 75, 251, 102, 26, 7, 0, 0, 0, 0, 0, 0, 0]);
    assert_eq!(fallback(&gk_transfer(None, None), &data), Ok(()));
    assert_eq!(
        fallback(&gk_transfer(Some(BlacklistEntry {}), None), &data),
        Err(GatekeeperError::AddressBlacklisted)
    );
    assert_eq!(
        fallback(&gk_transfer(None, Some(BlacklistEntry {})), &data),
        Err(GatekeeperError::AddressBlacklisted)
    );
    let mut ctx = gk_transfer(None, None);
    ctx.owner = gk_addr(12);
    assert_eq!(fallback(&ctx, &data), Err(GatekeeperError::Unauthorized));
}

#[test]
fn fallback_accepts_bytes_after_the_amount() {
    let mut data = TransferHookInstruction::Execute { amount: u64::MAX }.pack();
    data.push(9);
    data.push(9);
    assert_eq!(fallback(&gk_transfer(None, None), &data), Ok(()));
}

#[test]
fn fallback_refuses_other_instructions() {
    let ctx = gk_transfer(None, None);
    let init = TransferHookInstruction::InitializeExtraAccountMetaList {
        extra_account_metas: Vec::new(),
    }
    .pack();
    assert_eq!(fallback(&ctx, &init), Err(GatekeeperError::InvalidInstructionData));
    let update = TransferHookInstruction::UpdateExtraAccountMetaList {
        extra_account_metas: Vec::new(),
    }
    .pack();
    assert_eq!(fallback(&ctx, &update), Err(GatekeeperError::InvalidInstructionData));
}

#[test]
fn fallback_refuses_a_list_that_states_more_than_it_holds() {
    let ctx = gk_transfer(None, None);
    let empty = TransferHookInstruction::InitializeExtraAccountMetaList {
        extra_account_metas: Vec::new(),
    }
    .pack();
    assert_eq!(empty.len(), 12);
    let mut one_stated = empty.clone();
    one_stated[8] = 1;
    assert_eq!(fallback(&ctx, &one_stated), Err(GatekeeperError::InvalidInstructionData));
    let mut two_stated = empty.clone();
    two_stated[8] = 2;
    two_stated.extend_from_slice(&[0u8; 35]);
    assert_eq!(fallback(&ctx, &two_stated), Err(GatekeeperError::InvalidInstructionData));
    let mut update = TransferHookInstruction::UpdateExtraAccountMetaList {
        extra_account_metas: Vec::new(),
    }
    .pack();
    update[8] = 255;
    update[11] = 255;
    assert_eq!(fallback(&ctx, &update), Err(GatekeeperError::InvalidInstructionData));
    let blacklisted = gk_transfer(Some(BlacklistEntry {}), None);
    assert_eq!(fallback(&blacklisted, &one_stated), Err(GatekeeperError::InvalidInstructionData));
}

#[test]
fn execute_data_is_told_by_its_first_bytes_and_its_length() {
    let data = TransferHookInstruction::Execute { amount: 7 }.pack();
    assert!(is_execute_data(&data));
    assert!(!is_execute_data(&data[..15]));
    assert!(!is_execute_data(&[]));
    for i in 0..8 {
        let mut other = data.clone();
        other[i] ^= 1;
        assert!(!is_execute_data(&other));
    }
    let mut longer = data.clone();
    longer.push(0);
    assert!(is_execute_data(&longer));
}

#[test]
fn fallback_refuses_malformed_data() {
    let ctx = gk_transfer(None, None);
    assert_eq!(fallback(&ctx, &[]), Err(GatekeeperError::InvalidInstructionData));
    assert_eq!(fallback(&ctx, &[105, 37, 101]), Err(GatekeeperError::InvalidInstructionData));
    assert_eq!(
        fallback(&ctx, &[105, 37, 101, 197, 75, 251, 102, 26]),
        Err(GatekeeperError::InvalidInstructionData)
    );
    assert_eq!(
        fallback(&ctx, &[105, 37, 101, 197, 75, 251, 102, 26, 1, 2, 3, 4, 5, 6, 7]),
        Err(GatekeeperError::InvalidInstructionData)
    );
    assert_eq!(
        fallback(&ctx, &[0, 0, 0, 0, 0, 0, 0, 0, 7, 0, 0, 0, 0, 0, 0, 0]),
        Err(GatekeeperError::InvalidInstructionData)
    );
    assert_eq!(
        fallback(&ctx, &[7, 0, 0, 0, 0, 0, 0, 0, 105, 37, 101, 197, 75, 251, 102, 26]),
        Err(GatekeeperError::InvalidInstructionData)
    );
}

#[test]
fn fallback_refuses_before_it_checks() {
    let ctx = gk_transfer(Some(BlacklistEntry {}), None);
    assert_eq!(fallback(&ctx, &[1, 2, 3]), Err(GatekeeperError::InvalidInstructionData));
}

#[test]
fn dispatch_by_instruction() {
    let ctx = gk_transfer(None, Some(BlacklistEntry {}));
    assert_eq!(
        dispatch(&ctx, Some(HookInstruction::Execute { amount: 1 })),
        Err(GatekeeperError::AddressBlacklisted)
    );
    assert_eq!(
        dispatch(&ctx, Some(HookInstruction::InitializeExtraAccountMetaList)),
        Err(GatekeeperError::InvalidInstructionData)
    );
    assert_eq!(
        dispatch(&ctx, Some(HookInstruction::UpdateExtraAccountMetaList)),
        Err(GatekeeperError::InvalidInstructionData)
    );
    assert_eq!(dispatch(&ctx, None), Err(GatekeeperError::InvalidInstructionData));
    assert_eq!(
        dispatch(&gk_transfer(None, None), Some(HookInstruction::Execute { amount: 1 })),
        Ok(())
    );
}

#[test]
fn gatekeeper_is_initialized_once() {
    let mut ctx = Initialize { payer: gk_addr(1), authority: gk_addr(3), config: None, mint: gk_addr(5) };
    assert_eq!(initialize(&mut ctx), Ok(()));
    assert_eq!(ctx.config, Some(Config { authority: gk_addr(3) }));
    ctx.authority = gk_addr(4);
    let before = ctx;
    assert_eq!(initialize(&mut ctx), Err(GatekeeperError::Unauthorized));
    assert_eq!(ctx, before);
}

#[test]
fn authority_is_handed_over_by_the_authority() {
    let mut ctx = SetAuthority {
        config: Config { authority: gk_addr(3) },
        authority: gk_addr(3),
        new_authority: gk_addr(4),
        mint: gk_addr(5),
    };
    assert_eq!(set_authority(&mut ctx), Ok(()));
    assert_eq!(ctx.config.authority, gk_addr(4));
    let before = ctx;
    assert_eq!(set_authority(&mut ctx), Err(GatekeeperError::Unauthorized));
    assert_eq!(ctx, before);
}

#[test]
fn blacklist_marker_is_created_and_deleted() {
    let mut add = AddToBlacklist {
        config: Config { authority: gk_addr(3) },
        authority: gk_addr(3),
        target_address: gk_addr(10),
        blacklist_entry: None,
        mint: gk_addr(5),
    };
    assert_eq!(add_to_blacklist(&mut add), Ok(()));
    assert_eq!(add.blacklist_entry, Some(BlacklistEntry {}));
    assert_eq!(add_to_blacklist(&mut add), Ok(()));
    assert_eq!(add.blacklist_entry, Some(BlacklistEntry {}));
    let mut remove = RemoveFromBlacklist {
        config: Config { authority: gk_addr(3) },
        authority: gk_addr(3),
        target_address: gk_addr(10),
        blacklist_entry: add.blacklist_entry,
        mint: gk_addr(5),
    };
    assert_eq!(remove_from_blacklist(&mut remove), Ok(()));
    assert_eq!(remove.blacklist_entry, None);
    let before = remove;
    assert_eq!(remove_from_blacklist(&mut remove), Err(GatekeeperError::AddressNotBlacklisted));
    assert_eq!(remove, before);
}

#[test]
fn blacklist_mutations_need_the_authority() {
    let mut add = AddToBlacklist {
        config: Config { authority: gk_addr(3) },
        authority: gk_addr(4),
        target_address: gk_addr(10),
        blacklist_entry: None,
        mint: gk_addr(5),
    };
    let before = add;
    assert_eq!(add_to_blacklist(&mut add), Err(GatekeeperError::Unauthorized));
    assert_eq!(add, before);
    let mut remove = RemoveFromBlacklist {
        config: Config { authority: gk_addr(3) },
        authority: gk_addr(4),
        target_address: gk_addr(10),
        blacklist_entry: Some(BlacklistEntry {}),
        mint: gk_addr(5),
    };
    let before = remove;
    assert_eq!(remove_from_blacklist(&mut remove), Err(GatekeeperError::Unauthorized));
    assert_eq!(remove, before);
    remove.blacklist_entry = None;
    assert_eq!(remove_from_blacklist(&mut remove), Err(GatekeeperError::Unauthorized));
}

#[test]
fn registry_is_a_set() {
    let mut registry = BlacklistRegistry::new();
    assert!(!registry.contains(&gk_addr(10)));
    assert_eq!(registry.entry(&gk_addr(10)), None);
    registry.insert(gk_addr(10));
    registry.insert(gk_addr(11));
    registry.insert(gk_addr(10));
    assert!(registry.contains(&gk_addr(10)));
    assert!(registry.contains(&gk_addr(11)));
    assert!(!registry.contains(&gk_addr(12)));
    assert_eq!(registry.entry(&gk_addr(10)), Some(BlacklistEntry {}));
    registry.remove(&gk_addr(10));
    assert!(!registry.contains(&gk_addr(10)));
    assert!(registry.contains(&gk_addr(11)));
    registry.remove(&gk_addr(10));
    registry.remove(&gk_addr(12));
    assert!(registry.contains(&gk_addr(11)));
    registry.set_entry(gk_addr(12), Some(BlacklistEntry {}));
    registry.set_entry(gk_addr(11), None);
    assert!(registry.contains(&gk_addr(12)));
    assert!(!registry.contains(&gk_addr(11)));
}

#[test]
fn registry_tells_addresses_apart_by_every_byte() {
    let mut registry = BlacklistRegistry::new();
    let mut bytes = [7u8; 32];
    registry.insert(Address::new(bytes));
    bytes[31] = 8;
    assert!(!registry.contains(&Address::new(bytes)));
    bytes[31] = 7;
    bytes[0] = 8;
    assert!(!registry.contains(&Address::new(bytes)));
    bytes[0] = 7;
    assert!(registry.contains(&Address::new(bytes)));
}

#[test]
fn blacklisted_sender_is_denied_until_taken_off() {
    let mut gatekeeper = Gatekeeper::new(gk_addr(5), gk_addr(3));
    let x = gk_account(50, 10, 500);
    let y = gk_account(51, 11, 0);
    assert_eq!(gatekeeper.transfer_hook(&x, &y, gk_addr(10), 25), Ok(()));
    assert_eq!(gatekeeper.add_to_blacklist(gk_addr(3), gk_addr(10)), Ok(()));
    assert!(gatekeeper.is_blacklisted(&gk_addr(10)));
    for amount in [0u64, 1, 25, 500, u64::MAX] {
        assert_eq!(
            gatekeeper.transfer_hook(&x, &y, gk_addr(10), amount),
            Err(GatekeeperError::AddressBlacklisted)
        );
    }
    assert_eq!(
        gatekeeper.transfer_hook(&y, &x, gk_addr(11), 25),
        Err(GatekeeperError::AddressBlacklisted)
    );
    assert_eq!(gatekeeper.remove_from_blacklist(gk_addr(3), gk_addr(10)), Ok(()));
    assert!(!gatekeeper.is_blacklisted(&gk_addr(10)));
    assert_eq!(gatekeeper.transfer_hook(&x, &y, gk_addr(10), 25), Ok(()));
    assert_eq!(gatekeeper.transfer_hook(&y, &x, gk_addr(11), 25), Ok(()));
}

#[test]
fn gatekeeper_checks_owners_not_accounts() {
    let mut gatekeeper = Gatekeeper::new(gk_addr(5), gk_addr(3));
    gatekeeper.add_to_blacklist(gk_addr(3), gk_addr(50)).unwrap();
    gatekeeper.add_to_blacklist(gk_addr(3), gk_addr(51)).unwrap();
    let x = gk_account(50, 10, 500);
    let y = gk_account(51, 11, 0);
    assert_eq!(gatekeeper.transfer_hook(&x, &y, gk_addr(10), 25), Ok(()));
}

#[test]
fn gatekeeper_service_needs_the_authority() {
    let mut gatekeeper = Gatekeeper::new(gk_addr(5), gk_addr(3));
    assert_eq!(
        gatekeeper.add_to_blacklist(gk_addr(4), gk_addr(10)),
        Err(GatekeeperError::Unauthorized)
    );
    assert!(!gatekeeper.is_blacklisted(&gk_addr(10)));
    assert_eq!(
        gatekeeper.remove_from_blacklist(gk_addr(3), gk_addr(10)),
        Err(GatekeeperError::AddressNotBlacklisted)
    );
    assert_eq!(gatekeeper.set_authority(gk_addr(4), gk_addr(4)), Err(GatekeeperError::Unauthorized));
    assert_eq!(gatekeeper.set_authority(gk_addr(3), gk_addr(4)), Ok(()));
    assert_eq!(gatekeeper.config.authority, gk_addr(4));
    assert_eq!(gatekeeper.add_to_blacklist(gk_addr(4), gk_addr(10)), Ok(()));
    assert_eq!(
        gatekeeper.remove_from_blacklist(gk_addr(3), gk_addr(10)),
        Err(GatekeeperError::Unauthorized)
    );
    assert!(gatekeeper.is_blacklisted(&gk_addr(10)));
}

#[test]
fn extra_account_list_names_the_two_markers() {
    let mut ctx = InitializeExtraAccountMetaList {
        payer: gk_addr(1),
        extra_account_meta_list: None,
        mint: gk_addr(5),
    };
    assert_eq!(initialize_extra_account_meta_list(&mut ctx), Ok(()));
    let mut source = [0u8; 32];
    source[..13].copy_from_slice(&[1, 9, b'b', b'l', b'a', b'c', b'k', b'l', b'i', b's', b't', 3, 3]);
    let mut destination = [0u8; 32];
    destination[..15]
        .copy_from_slice(&[1, 9, b'b', b'l', b'a', b'c', b'k', b'l', b'i', b's', b't', 4, 2, 32, 32]);
    assert_eq!(
        ctx.extra_account_meta_list,
        Some(ExtraAccountList {
            account_size: 86,
            accounts: vec![
                ExtraAccount {
                    discriminator: 1,
                    address_config: source,
                    is_signer: false,
                    is_writable: false,
                },
                ExtraAccount {
                    discriminator: 1,
                    address_config: destination,
                    is_signer: false,
                    is_writable: false,
                },
            ],
        })
    );
    assert_eq!(ctx.payer, gk_addr(1));
    assert_eq!(ctx.mint, gk_addr(5));
}

#[test]
fn extra_account_list_agrees_with_the_resolution_crate() {
    let mut ctx = InitializeExtraAccountMetaList {
        payer: gk_addr(1),
        extra_account_meta_list: None,
        mint: gk_addr(5),
    };
    initialize_extra_account_meta_list(&mut ctx).unwrap();
    let list = ctx.extra_account_meta_list.unwrap();
    let source = ExtraAccountMeta::new_with_seeds(
        &[Seed::Literal { bytes: b"blacklist".to_vec() }, Seed::AccountKey { index: 3 }],
        false,
        false,
    )
    .unwrap();
    let destination = ExtraAccountMeta::new_with_seeds(
        &[
            Seed::Literal { bytes: b"blacklist".to_vec() },
            Seed::AccountData { account_index: 2, data_index: 32, length: 32 },
        ],
        false,
        false,
    )
    .unwrap();
    assert_eq!(list.accounts[0].address_config, source.address_config);
    assert_eq!(list.accounts[0].discriminator, source.discriminator);
    assert_eq!(list.accounts[1].address_config, destination.address_config);
    assert_eq!(list.accounts[1].discriminator, destination.discriminator);
    assert_eq!(list.account_size, ExtraAccountMetaList::size_of(2).unwrap() as u64);
    assert_eq!(
        Seed::unpack_address_config(&list.accounts[1].address_config).unwrap(),
        vec![
            Seed::Literal { bytes: b"blacklist".to_vec() },
            Seed::AccountData { account_index: 2, data_index: 32, length: 32 },
        ]
    );
}

#[test]
fn extra_account_list_is_written_once() {
    let mut ctx = InitializeExtraAccountMetaList {
        payer: gk_addr(1),
        extra_account_meta_list: None,
        mint: gk_addr(5),
    };
    initialize_extra_account_meta_list(&mut ctx).unwrap();
    let before = ctx.clone();
    assert_eq!(initialize_extra_account_meta_list(&mut ctx), Err(GatekeeperError::Unauthorized));
    assert_eq!(ctx, before);
}

#[test]
fn gatekeeper_error_messages() {
    assert_eq!(
        GatekeeperError::AddressBlacklisted.message(),
        "The address is on the transfer blacklist."
    );
    assert_eq!(
        GatekeeperError::Unauthorized.message(),
        "Unauthorized: The signer is not the configured authority."
    );
    assert_eq!(
        GatekeeperError::AddressNotBlacklisted.message(),
        "The address is not on the transfer blacklist."
    );
    assert_eq!(GatekeeperError::InvalidInstructionData.message(), "Invalid instruction data.");
}
