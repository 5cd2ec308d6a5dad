use raydium_migration::addr::Addr;
use raydium_migration::err::AmmError;
use raydium_migration::migrate::calculate_migration_amounts;
use raydium_migration::migrate::check_migration;
use raydium_migration::migrate::handle;
use raydium_migration::migrate::MigrateToRaydium;
use raydium_migration::pda::derive_amm_authority;
use raydium_migration::pda::derive_amm_lp_mint;
use raydium_migration::pda::derive_amm_observation;
use raydium_migration::pda::derive_amm_pool_state;
use raydium_migration::pda::derive_amm_vault;
use raydium_migration::pda::derive_pool_address;
use raydium_migration::pda::derive_pool_signer;
use raydium_migration::pda::fee_receiver_address;
use raydium_migration::pool::BoundPool;
use raydium_migration::pool::TokenReserve;

fn addr(byte: u8) -> Addr {
    Addr::new(vec![byte; 32]).unwrap()
}

/// A pool and account set on which every precondition holds:
/// meme mint `1` (the smaller address), quote mint `2`, meme reserve
/// 1_000_000 tokens, quote reserve 50_000 tokens, locked.
fn valid_setup() -> (BoundPool, MigrateToRaydium) {
    let program_id = addr(9);
    let cp_swap_program = addr(7);
    let amm_config = addr(8);
    let meme_mint = addr(1);
    let quote_mint = addr(2);
    let meme_vault = addr(3);
    let quote_vault = addr(4);

    let pool_addr = derive_pool_address(&program_id, &meme_mint, &quote_mint).unwrap();
    let pool_signer = derive_pool_signer(&program_id, &pool_addr).unwrap();
    let raydium_authority = derive_amm_authority(&cp_swap_program).unwrap();
    let raydium_pool_state =
        derive_amm_pool_state(&cp_swap_program, &amm_config, &meme_mint, &quote_mint).unwrap();
    let raydium_lp_mint = derive_amm_lp_mint(&cp_swap_program, &raydium_pool_state).unwrap();
    let token_0_vault =
        derive_amm_vault(&cp_swap_program, &raydium_pool_state, &meme_mint).unwrap();
    let token_1_vault =
        derive_amm_vault(&cp_swap_program, &raydium_pool_state, &quote_mint).unwrap();
    let observation_state = derive_amm_observation(&cp_swap_program, &raydium_pool_state).unwrap();

    let pool = BoundPool {
        meme_reserve: TokenReserve {
            mint: meme_mint.dup(),
            vault: meme_vault.dup(),
            tokens: 1_000_000,
        },
        quote_reserve: TokenReserve {
            mint: quote_mint.dup(),
            vault: quote_vault.dup(),
            tokens: 50_000,
        },
        locked: true,
        pool_migration: false,
        migration_pool_key: addr(0),
    };
    let accounts = MigrateToRaydium {
        program_id,
        signer: addr(11),
        cp_swap_program,
        pool: pool_addr,
        meme_mint,
        quote_mint,
        meme_vault,
        meme_vault_amount: 1_000_000,
        quote_vault,
        quote_vault_amount: 50_000,
        pool_signer,
        amm_config,
        raydium_authority,
        raydium_pool_state,
        raydium_lp_mint,
        creator_meme_account: addr(5),
        creator_meme_amount: 0,
        creator_quote_account: addr(6),
        creator_quote_amount: 0,
        creator_lp_token: addr(10),
        token_0_vault,
        token_1_vault,
        create_pool_fee: fee_receiver_address(),
        observation_state,
    };
    (pool, accounts)
}

#[test]
fn migrate_success_moves_full_balances() {
    let (mut pool, mut accounts) = valid_setup();
    let expected_pool_key = accounts.raydium_pool_state.dup();
    let r = handle(&mut pool, &mut accounts, 1_700_000_000);
    let args = r.unwrap();
    assert_eq!(accounts.meme_vault_amount, 0);
    assert_eq!(accounts.quote_vault_amount, 0);
    assert_eq!(accounts.creator_meme_amount, 1_000_000);
    assert_eq!(accounts.creator_quote_amount, 50_000);
    assert_eq!(pool.meme_reserve.tokens, 0);
    assert_eq!(pool.quote_reserve.tokens, 0);
    assert!(pool.pool_migration);
    assert!(pool.migration_pool_key == expected_pool_key);
    assert_eq!(args.init_amount_0, 1_000_000);
    assert_eq!(args.init_amount_1, 50_000);
    assert_eq!(args.open_time, 1_700_000_000);
}

#[test]
fn migrate_success_keeps_vault_residue() {
    let (mut pool, mut accounts) = valid_setup();
    accounts.meme_vault_amount = 1_000_123;
    accounts.quote_vault_amount = 50_007;
    let r = handle(&mut pool, &mut accounts, 0);
    assert!(r.is_ok());
    assert_eq!(accounts.meme_vault_amount, 123);
    assert_eq!(accounts.quote_vault_amount, 7);
    assert_eq!(pool.meme_reserve.tokens, 123);
    assert_eq!(pool.quote_reserve.tokens, 7);
}

#[test]
fn not_locked_pool_is_refused_unchanged() {
    let (mut pool, mut accounts) = valid_setup();
    pool.locked = false;
    let r = handle(&mut pool, &mut accounts, 0);
    assert_eq!(r.unwrap_err(), AmmError::PoolIsLocked);
    assert_eq!(accounts.meme_vault_amount, 1_000_000);
    assert_eq!(accounts.quote_vault_amount, 50_000);
    assert_eq!(accounts.creator_meme_amount, 0);
    assert_eq!(accounts.creator_quote_amount, 0);
    assert!(!pool.pool_migration);
    assert_eq!(pool.meme_reserve.tokens, 1_000_000);
}

#[test]
fn migrated_pool_is_refused() {
    let (mut pool, mut accounts) = valid_setup();
    pool.pool_migration = true;
    let r = handle(&mut pool, &mut accounts, 0);
    assert_eq!(r.unwrap_err(), AmmError::AlreadyMigrated);
}

#[test]
fn mismatched_meme_mint_is_refused() {
    let (mut pool, mut accounts) = valid_setup();
    pool.meme_reserve.mint = addr(12);
    let r = handle(&mut pool, &mut accounts, 0);
    assert_eq!(r.unwrap_err(), AmmError::InvalidAccountInput);
    assert_eq!(accounts.meme_vault_amount, 1_000_000);
    assert_eq!(accounts.creator_meme_amount, 0);
}

#[test]
fn mismatched_meme_vault_is_refused() {
    let (mut pool, mut accounts) = valid_setup();
    accounts.meme_vault = addr(12);
    let r = handle(&mut pool, &mut accounts, 0);
    assert_eq!(r.unwrap_err(), AmmError::InvalidAccountInput);
    assert_eq!(accounts.meme_vault_amount, 1_000_000);
    assert!(!pool.pool_migration);
}

#[test]
fn wrong_pool_account_is_refused() {
    let (mut pool, mut accounts) = valid_setup();
    accounts.pool = addr(13);
    let r = handle(&mut pool, &mut accounts, 0);
    assert_eq!(r.unwrap_err(), AmmError::InvalidAccountInput);
}

#[test]
fn wrong_amm_derived_account_fails_before_any_transfer() {
    let (mut pool, mut accounts) = valid_setup();
    accounts.raydium_lp_mint = addr(13);
    let r = handle(&mut pool, &mut accounts, 0);
    assert_eq!(r.unwrap_err(), AmmError::InvalidAccountInput);
    assert_eq!(accounts.meme_vault_amount, 1_000_000);
    assert_eq!(accounts.quote_vault_amount, 50_000);
    assert_eq!(accounts.creator_meme_amount, 0);
    assert_eq!(accounts.creator_quote_amount, 0);
    assert!(!pool.pool_migration);
}

#[test]
fn wrong_fee_receiver_is_refused() {
    let (mut pool, mut accounts) = valid_setup();
    accounts.create_pool_fee = addr(13);
    let r = handle(&mut pool, &mut accounts, 0);
    assert_eq!(r.unwrap_err(), AmmError::InvalidAccountInput);
}

#[test]
fn short_vault_balance_is_refused() {
    let (mut pool, mut accounts) = valid_setup();
    accounts.meme_vault_amount = 999_999;
    let r = handle(&mut pool, &mut accounts, 0);
    assert_eq!(r.unwrap_err(), AmmError::InsufficientFunds);
}

#[test]
fn destination_overflow_is_refused() {
    let (mut pool, mut accounts) = valid_setup();
    accounts.creator_quote_amount = u64::MAX - 49_999;
    let r = handle(&mut pool, &mut accounts, 0);
    assert_eq!(r.unwrap_err(), AmmError::TransferFailed);
}

#[test]
fn smaller_mint_is_token_0_when_meme_is_smaller() {
    let (mut pool, mut accounts) = valid_setup();
    let meme = accounts.meme_mint.dup();
    let quote = accounts.quote_mint.dup();
    let args = handle(&mut pool, &mut accounts, 0).unwrap();
    assert!(args.token_0_mint == meme);
    assert!(args.token_1_mint == quote);
    assert_eq!(args.init_amount_0, 1_000_000);
    assert_eq!(args.init_amount_1, 50_000);
}

#[test]
fn smaller_mint_is_token_0_when_quote_is_smaller() {
    let (mut pool, mut accounts) = valid_setup();
    // Swap the two mints' raw addresses so the quote mint orders first;
    // re-derive every account that depends on them.
    let meme_mint = addr(2);
    let quote_mint = addr(1);
    let pool_addr = derive_pool_address(&accounts.program_id, &meme_mint, &quote_mint).unwrap();
    let pool_signer = derive_pool_signer(&accounts.program_id, &pool_addr).unwrap();
    let pool_state = derive_amm_pool_state(
        &accounts.cp_swap_program,
        &accounts.amm_config,
        &quote_mint,
        &meme_mint,
    )
    .unwrap();
    let lp_mint = derive_amm_lp_mint(&accounts.cp_swap_program, &pool_state).unwrap();
    let token_0_vault =
        derive_amm_vault(&accounts.cp_swap_program, &pool_state, &quote_mint).unwrap();
    let token_1_vault =
        derive_amm_vault(&accounts.cp_swap_program, &pool_state, &meme_mint).unwrap();
    let observation = derive_amm_observation(&accounts.cp_swap_program, &pool_state).unwrap();
    pool.meme_reserve.mint = meme_mint.dup();
    pool.quote_reserve.mint = quote_mint.dup();
    accounts.meme_mint = meme_mint.dup();
    accounts.quote_mint = quote_mint.dup();
    accounts.pool = pool_addr;
    accounts.pool_signer = pool_signer;
    accounts.raydium_pool_state = pool_state.dup();
    accounts.raydium_lp_mint = lp_mint;
    accounts.token_0_vault = token_0_vault;
    accounts.token_1_vault = token_1_vault;
    accounts.observation_state = observation;
    let args = handle(&mut pool, &mut accounts, 0).unwrap();
    assert!(args.token_0_mint == quote_mint);
    assert!(args.token_1_mint == meme_mint);
    assert_eq!(args.init_amount_0, 50_000);
    assert_eq!(args.init_amount_1, 1_000_000);
}

#[test]
fn check_migration_accepts_valid_setup_without_mutation() {
    let (pool, accounts) = valid_setup();
    assert!(check_migration(&pool, &accounts).is_ok());
    assert_eq!(accounts.meme_vault_amount, 1_000_000);
    assert!(!pool.pool_migration);
}

#[test]
fn migration_amounts_are_the_recorded_reserves() {
    let (pool, _) = valid_setup();
    let (meme, quote) = calculate_migration_amounts(&pool).unwrap();
    assert_eq!(meme, 1_000_000);
    assert_eq!(quote, 50_000);
}

#[test]
fn errors_describe_themselves() {
    assert_eq!(
        AmmError::PoolIsLocked.describe(),
        "pool is not locked for migration"
    );
    assert_eq!(
        AmmError::InvalidAccountInput.describe(),
        "an account does not match its expected address"
    );
}

#[test]
fn derivation_transforms_its_inputs() {
    let program_id = addr(9);
    let meme_mint = addr(1);
    let quote_mint = addr(2);
    let derived = derive_pool_address(&program_id, &meme_mint, &quote_mint).unwrap();
    assert!(!(derived == program_id));
    assert!(!(derived == meme_mint));
    assert!(!(derived == quote_mint));
    let again = derive_pool_address(&program_id, &meme_mint, &quote_mint).unwrap();
    assert!(again == derived);
    let other = derive_pool_address(&program_id, &quote_mint, &meme_mint).unwrap();
    assert!(!(other == derived));
}
