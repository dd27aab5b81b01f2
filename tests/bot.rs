use anchor_lang::prelude::Pubkey;
use trading_bot::{
    authorize_swap, build_swap_instruction, check_swap, close_bot, config_signer_seeds,
    encode_swap_data, execute_swap, find_config_address, initialize_bot, is_config_address,
    settle_swap, update_config, AccountMeta, AuthorizeSwap, CloseBot, ExecuteSwap, InitializeBot,
    Key, TradeBotConfig, TradingBotError, UpdateConfig, SWAP_ACCOUNT_COUNT, SWAP_DISCRIMINATOR,
};

fn key(b: u8) -> Key {
    Key::new([b; 32])
}

fn program() -> Key {
    key(77)
}

fn owner_a() -> Key {
    key(1)
}

fn executor_b() -> Key {
    key(2)
}

fn stranger_c() -> Key {
    key(3)
}

fn record_address(owner: &Key) -> (Key, u8) {
    find_config_address(owner, &program()).expect("a record address exists")
}

fn create(owner: Key, executor: Key, max_trade: u64, max_slippage: u16) -> (TradeBotConfig, Key) {
    let (address, _) = record_address(&owner);
    let ctx = InitializeBot { bot_config: address, owner, owner_is_signer: true };
    let config = initialize_bot(&ctx, &program(), executor, max_trade, max_slippage).unwrap();
    (config, address)
}

fn swap_ctx(address: Key, owner: Key, caller: Key) -> ExecuteSwap {
    ExecuteSwap {
        bot_config: address,
        owner,
        backend_signer: caller,
        backend_signer_is_signer: true,
        user_token_in: key(101),
        user_token_out: key(102),
        token_program: key(103),
        raydium_amm_program: key(104),
        raydium_amm: key(105),
        raydium_amm_authority: key(106),
        raydium_amm_open_orders: key(107),
        raydium_amm_target_orders: key(108),
        raydium_pool_coin_token_account: key(109),
        raydium_pool_pc_token_account: key(110),
        serum_program: key(111),
        serum_market: key(112),
        serum_bids: key(113),
        serum_asks: key(114),
        serum_event_queue: key(115),
        serum_coin_vault_account: key(116),
        serum_pc_vault_account: key(117),
        serum_vault_signer: key(118),
    }
}

fn auth(address: Key, owner: Key, caller: Key) -> AuthorizeSwap {
    AuthorizeSwap { bot_config: address, owner, backend_signer: caller, backend_signer_is_signer: true }
}

fn update_ctx(address: Key, owner: Key) -> UpdateConfig {
    UpdateConfig { bot_config: address, owner, owner_is_signer: true }
}

#[test]
fn create_sets_fields_active_and_zero_counter() {
    let (config, _) = create(owner_a(), executor_b(), 1000, 50);
    let (_, bump) = record_address(&owner_a());
    assert_eq!(config.owner, owner_a());
    assert_eq!(config.backend_authority, executor_b());
    assert_eq!(config.max_trade_amount, 1000);
    assert_eq!(config.max_slippage_bps, 50);
    assert!(config.is_active);
    assert_eq!(config.trades_executed, 0);
    assert_eq!(config.bump, bump);
}

#[test]
fn executor_swap_counts_and_stranger_is_rejected() {
    let (mut config, address) = create(owner_a(), executor_b(), 1000, 50);
    let ctx = swap_ctx(address, owner_a(), executor_b());
    let signed = execute_swap(&config, &ctx, &program(), 500, 495).unwrap();
    assert_eq!(signed.instruction.data.len(), 17);
    settle_swap(&mut config, true).unwrap();
    assert_eq!(config.trades_executed, 1);

    let stranger = swap_ctx(address, owner_a(), stranger_c());
    assert_eq!(
        execute_swap(&config, &stranger, &program(), 500, 495),
        Err(TradingBotError::UnauthorizedBackend)
    );
    assert_eq!(config.trades_executed, 1);
}

#[test]
fn deactivated_bot_rejects_every_request() {
    let (mut config, address) = create(owner_a(), executor_b(), 1000, 50);
    update_config(&mut config, &update_ctx(address, owner_a()), &program(), None, None, Some(false))
        .unwrap();
    assert!(!config.is_active);
    for caller in [executor_b(), stranger_c()] {
        for amount in [0u64, 500, 1000, 5000] {
            let ctx = swap_ctx(address, owner_a(), caller);
            assert_eq!(
                execute_swap(&config, &ctx, &program(), amount, 0),
                Err(TradingBotError::BotNotActive)
            );
            let mut copy = config;
            assert_eq!(
                authorize_swap(&mut copy, &auth(address, owner_a(), caller), &program(), amount),
                Err(TradingBotError::BotNotActive)
            );
            assert_eq!(copy, config);
        }
    }
}

#[test]
fn amount_over_limit_rejected_and_not_counted() {
    let (mut config, address) = create(owner_a(), executor_b(), 1000, 50);
    let a = auth(address, owner_a(), executor_b());
    assert_eq!(
        authorize_swap(&mut config, &a, &program(), 1001),
        Err(TradingBotError::AmountExceedsLimit)
    );
    assert_eq!(config.trades_executed, 0);
    let ctx = swap_ctx(address, owner_a(), executor_b());
    assert_eq!(
        execute_swap(&config, &ctx, &program(), u64::MAX, 0),
        Err(TradingBotError::AmountExceedsLimit)
    );
    assert_eq!(authorize_swap(&mut config, &a, &program(), 1000), Ok(()));
    assert_eq!(config.trades_executed, 1);
}

#[test]
fn excess_slippage_update_applies_nothing() {
    let (mut config, address) = create(owner_a(), executor_b(), 1000, 50);
    let before = config;
    assert_eq!(
        update_config(
            &mut config,
            &update_ctx(address, owner_a()),
            &program(),
            Some(7),
            Some(10001),
            Some(false)
        ),
        Err(TradingBotError::InvalidSlippage)
    );
    assert_eq!(config, before);
    assert_eq!(
        update_config(&mut config, &update_ctx(address, owner_a()), &program(), None, Some(10000), None),
        Ok(())
    );
    assert_eq!(config.max_slippage_bps, 10000);
    assert_eq!(config.max_trade_amount, 1000);
    assert!(config.is_active);
}

#[test]
fn partial_update_sets_only_supplied_fields() {
    let (mut config, address) = create(owner_a(), executor_b(), 1000, 50);
    update_config(&mut config, &update_ctx(address, owner_a()), &program(), Some(0), None, None)
        .unwrap();
    assert_eq!(config.max_trade_amount, 0);
    assert_eq!(config.max_slippage_bps, 50);
    assert!(config.is_active);
    update_config(&mut config, &update_ctx(address, owner_a()), &program(), None, Some(0), None)
        .unwrap();
    assert_eq!(config.max_slippage_bps, 0);
    assert_eq!(config.max_trade_amount, 0);
}

#[test]
fn update_by_non_owner_or_unsigned_is_unauthorized() {
    let (mut config, address) = create(owner_a(), executor_b(), 1000, 50);
    let before = config;
    assert_eq!(
        update_config(&mut config, &update_ctx(address, stranger_c()), &program(), Some(1), None, None),
        Err(TradingBotError::Unauthorized)
    );
    let unsigned = UpdateConfig { bot_config: address, owner: owner_a(), owner_is_signer: false };
    assert_eq!(
        update_config(&mut config, &unsigned, &program(), Some(1), None, None),
        Err(TradingBotError::Unauthorized)
    );
    assert_eq!(
        update_config(&mut config, &update_ctx(key(200), owner_a()), &program(), Some(1), None, None),
        Err(TradingBotError::NotFound)
    );
    assert_eq!(config, before);
}

#[test]
fn settled_swap_counts_once_and_failed_call_counts_nothing() {
    let (mut config, address) = create(owner_a(), executor_b(), 1000, 50);
    let ctx = swap_ctx(address, owner_a(), executor_b());
    execute_swap(&config, &ctx, &program(), 10, 9).unwrap();
    let before = config;
    assert_eq!(settle_swap(&mut config, false), Err(TradingBotError::DownstreamCallFailed));
    assert_eq!(config, before);
    assert_eq!(settle_swap(&mut config, true), Ok(()));
    assert_eq!(config.trades_executed, before.trades_executed + 1);
    assert_eq!(TradeBotConfig { trades_executed: before.trades_executed, ..config }, before);
}

#[test]
fn counter_at_max_fails_instead_of_wrapping() {
    let (mut config, address) = create(owner_a(), executor_b(), 1000, 50);
    config.trades_executed = u64::MAX;
    let ctx = swap_ctx(address, owner_a(), executor_b());
    assert_eq!(
        execute_swap(&config, &ctx, &program(), 1, 0),
        Err(TradingBotError::CounterOverflow)
    );
    assert_eq!(
        authorize_swap(&mut config, &auth(address, owner_a(), executor_b()), &program(), 1),
        Err(TradingBotError::CounterOverflow)
    );
    assert_eq!(settle_swap(&mut config, true), Err(TradingBotError::CounterOverflow));
    assert_eq!(config.trades_executed, u64::MAX);
}

#[test]
fn only_signed_executor_passes_gate() {
    let (config, address) = create(owner_a(), executor_b(), 1000, 50);
    assert_eq!(check_swap(&config, &auth(address, owner_a(), executor_b()), &program(), 1), Ok(()));
    for caller in [owner_a(), stranger_c(), key(0)] {
        assert_eq!(
            check_swap(&config, &auth(address, owner_a(), caller), &program(), 1),
            Err(TradingBotError::UnauthorizedBackend)
        );
    }
    let unsigned = AuthorizeSwap {
        bot_config: address,
        owner: owner_a(),
        backend_signer: executor_b(),
        backend_signer_is_signer: false,
    };
    assert_eq!(check_swap(&config, &unsigned, &program(), 1), Err(TradingBotError::UnauthorizedBackend));
}

#[test]
fn substituted_record_is_not_found() {
    let (config_a, address_a) = create(owner_a(), executor_b(), 1000, 50);
    let (_, address_c) = create(stranger_c(), executor_b(), 1000, 50);
    // A's record presented at C's address, or claimed for C.
    assert_eq!(
        check_swap(&config_a, &auth(address_c, owner_a(), executor_b()), &program(), 1),
        Err(TradingBotError::NotFound)
    );
    assert_eq!(
        check_swap(&config_a, &auth(address_a, stranger_c(), executor_b()), &program(), 1),
        Err(TradingBotError::NotFound)
    );
    assert_eq!(
        check_swap(&config_a, &auth(address_a, owner_a(), executor_b()), &key(78), 1),
        Err(TradingBotError::NotFound)
    );
}

#[test]
fn close_then_create_starts_fresh() {
    let (mut config, address) = create(owner_a(), executor_b(), 1000, 50);
    let a = auth(address, owner_a(), executor_b());
    authorize_swap(&mut config, &a, &program(), 5).unwrap();
    authorize_swap(&mut config, &a, &program(), 5).unwrap();
    assert_eq!(config.trades_executed, 2);
    let refund = close_bot(
        &config,
        &CloseBot { bot_config: address, owner: owner_a(), owner_is_signer: true },
        &program(),
    )
    .unwrap();
    assert_eq!(refund, owner_a());
    let (fresh, fresh_address) = create(owner_a(), stranger_c(), 10, 5);
    assert_eq!(fresh_address, address);
    assert_eq!(fresh.trades_executed, 0);
    assert!(fresh.is_active);
}

#[test]
fn close_requires_signing_owner() {
    let (config, address) = create(owner_a(), executor_b(), 1000, 50);
    assert_eq!(
        close_bot(&config, &CloseBot { bot_config: address, owner: owner_a(), owner_is_signer: false }, &program()),
        Err(TradingBotError::Unauthorized)
    );
    assert_eq!(
        close_bot(&config, &CloseBot { bot_config: address, owner: executor_b(), owner_is_signer: true }, &program()),
        Err(TradingBotError::Unauthorized)
    );
    assert_eq!(
        close_bot(&config, &CloseBot { bot_config: key(9), owner: owner_a(), owner_is_signer: true }, &program()),
        Err(TradingBotError::NotFound)
    );
}

#[test]
fn create_rejects_unsigned_wrong_address_and_excess_slippage() {
    let (address, _) = record_address(&owner_a());
    let unsigned = InitializeBot { bot_config: address, owner: owner_a(), owner_is_signer: false };
    assert_eq!(
        initialize_bot(&unsigned, &program(), executor_b(), 1, 1),
        Err(TradingBotError::Unauthorized)
    );
    let (other, _) = record_address(&stranger_c());
    let wrong = InitializeBot { bot_config: other, owner: owner_a(), owner_is_signer: true };
    assert_eq!(
        initialize_bot(&wrong, &program(), executor_b(), 1, 1),
        Err(TradingBotError::Unauthorized)
    );
    let good = InitializeBot { bot_config: address, owner: owner_a(), owner_is_signer: true };
    assert_eq!(
        initialize_bot(&good, &program(), executor_b(), 1, 10001),
        Err(TradingBotError::InvalidSlippage)
    );
    assert!(initialize_bot(&good, &program(), executor_b(), 1, 10000).is_ok());
}

#[test]
fn swap_payload_is_tag_then_two_little_endian_amounts() {
    let data = encode_swap_data(500, 495);
    let mut expected = vec![SWAP_DISCRIMINATOR];
    expected.extend_from_slice(&500u64.to_le_bytes());
    expected.extend_from_slice(&495u64.to_le_bytes());
    assert_eq!(data, expected);
    assert_eq!(data[0], 9);
    assert_eq!(&data[1..3], &[0xf4, 0x01]);
    assert_eq!(&data[9..11], &[0xef, 0x01]);
    let big = encode_swap_data(0x0102030405060708, u64::MAX);
    assert_eq!(&big[1..9], &[8, 7, 6, 5, 4, 3, 2, 1]);
    assert_eq!(&big[9..17], &[0xff; 8]);
}

#[test]
fn swap_accounts_follow_venue_order() {
    let (_, address) = create(owner_a(), executor_b(), 1000, 50);
    let ctx = swap_ctx(address, owner_a(), executor_b());
    let ix = build_swap_instruction(&ctx, 1, 2);
    assert_eq!(ix.program_id, key(104));
    assert_eq!(ix.accounts.len(), SWAP_ACCOUNT_COUNT);
    let expected = vec![
        AccountMeta::new_readonly(key(103), false),
        AccountMeta::new(key(105), false),
        AccountMeta::new_readonly(key(106), false),
        AccountMeta::new(key(107), false),
        AccountMeta::new(key(108), false),
        AccountMeta::new(key(109), false),
        AccountMeta::new(key(110), false),
        AccountMeta::new_readonly(key(111), false),
        AccountMeta::new(key(112), false),
        AccountMeta::new(key(113), false),
        AccountMeta::new(key(114), false),
        AccountMeta::new(key(115), false),
        AccountMeta::new(key(116), false),
        AccountMeta::new(key(117), false),
        AccountMeta::new_readonly(key(118), false),
        AccountMeta::new(key(101), false),
        AccountMeta::new(key(102), false),
        AccountMeta::new_readonly(address, true),
    ];
    assert_eq!(ix.accounts, expected);
    assert_eq!(ix.accounts.iter().filter(|m| m.is_signer).count(), 1);
}

#[test]
fn signer_seeds_derive_the_record_address() {
    let (config, address) = create(owner_a(), executor_b(), 1000, 50);
    let ctx = swap_ctx(address, owner_a(), executor_b());
    let signed = execute_swap(&config, &ctx, &program(), 1, 1).unwrap();
    assert_eq!(signed.signer_seeds, config_signer_seeds(&owner_a(), config.bump));
    assert_eq!(signed.signer_seeds[0], b"bot_config".to_vec());
    assert_eq!(signed.signer_seeds[1], vec![1u8; 32]);
    assert_eq!(signed.signer_seeds[2], vec![config.bump]);
    let slices: Vec<&[u8]> = signed.signer_seeds.iter().map(|s| s.as_slice()).collect();
    let derived =
        Pubkey::create_program_address(&slices, &Pubkey::new_from_array(program().bytes)).unwrap();
    assert_eq!(derived.to_bytes(), address.bytes);
}

#[test]
fn record_address_matches_ledger_derivation() {
    let owner = owner_a();
    let (address, bump) = record_address(&owner);
    let (expected, expected_bump) = Pubkey::find_program_address(
        &[b"bot_config", &owner.bytes],
        &Pubkey::new_from_array(program().bytes),
    );
    assert_eq!(address.bytes, expected.to_bytes());
    assert_eq!(bump, expected_bump);
    assert_ne!(address, owner);
    assert!(is_config_address(&owner, bump, &program(), &address));
    assert!(!is_config_address(&owner, bump, &program(), &owner));
    assert!(!is_config_address(&stranger_c(), bump, &program(), &address));
}

#[test]
fn key_comparison_is_bytewise() {
    let a = key(5);
    let mut bytes = [5u8; 32];
    assert!(a.same_as(&Key::new(bytes)));
    bytes[31] = 6;
    assert!(!a.same_as(&Key::new(bytes)));
    assert_eq!(a.to_vec(), vec![5u8; 32]);
}
