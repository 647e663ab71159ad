use notty_terminal::error::NottyTerminalError;
use notty_terminal::launch::{migrate_to_raydium, Launch, LaunchParam, PoolTarget};
use notty_terminal::state::{Curve, GlobalState, Pubkey, TokenState};
use notty_terminal::trade::{PurchaseTokenArgs, TokenInteraction};

const UNIT: u64 = 1_000_000_000;

fn key(b: u8) -> Pubkey {
    Pubkey::new([b; 32])
}

fn platform() -> GlobalState {
    GlobalState {
        admin: key(1),
        vault: key(2),
        vault_bump: 254,
        bump: 253,
        listing_fee_lamport: 50_000_000,
        trading_fee_bps: 150,
        migration_fee_lamport: 150_000,
        total_tokens_created: 1,
        total_fees_collected: 0,
        total_trading_volume: 0,
        total_migrations: 0,
    }
}

fn ready_sale() -> TokenState {
    TokenState {
        bump: 255,
        migrated: false,
        mint: key(3),
        initial_price_per_token: 0,
        sol_raised: 450_000,
        tokens_sold: 860_000_000 * UNIT,
        total_supply: 1_000_000_000,
        sol_vault_bump: 252,
        start_mcap: 0,
        target_sol: 0,
        raydium_pool: None,
        migration_timestamp: 0,
        creator: key(4),
        curve: Curve::default_sqrt(1_000_000_000),
    }
}

fn launch(token_state: TokenState, token_0: Pubkey, token_1: Pubkey) -> Launch {
    Launch {
        creator: key(4),
        token_0_mint: token_0,
        token_1_mint: token_1,
        pool_state: key(9),
        timestamp: 1_700_000_000,
        token_state,
        global_state: platform(),
    }
}

#[test]
fn migration_plans_liquidity_and_seals_the_sale() {
    let mut l = launch(ready_sale(), key(3), key(200));
    let plan = migrate_to_raydium(&mut l, LaunchParam { token_mint: key(3), time: None }).unwrap();
    assert!(plan.custom_token_first);
    assert_eq!(plan.token_amount, 140_000_000 * UNIT);
    assert_eq!(plan.sol_amount, 300_000);
    assert_eq!(plan.init_amount_0, 140_000_000 * UNIT);
    assert_eq!(plan.init_amount_1, 300_000);
    assert_eq!(plan.open_time, 1_700_000_000);
    assert!(l.token_state.migrated);
    assert_eq!(l.token_state.raydium_pool, Some(key(9)));
    assert_eq!(l.token_state.migration_timestamp, 1_700_000_000);
    assert_eq!(l.global_state.total_migrations, 1);
}

#[test]
fn migration_orders_amounts_when_token_is_second_mint() {
    let mut l = launch(ready_sale(), key(0), key(3));
    let plan =
        migrate_to_raydium(&mut l, LaunchParam { token_mint: key(3), time: Some(42) }).unwrap();
    assert!(!plan.custom_token_first);
    assert_eq!(plan.init_amount_0, 300_000);
    assert_eq!(plan.init_amount_1, 140_000_000 * UNIT);
    assert_eq!(plan.open_time, 42);
}

#[test]
fn migration_fee_larger_than_reserve_leaves_nothing() {
    let mut s = ready_sale();
    s.sol_raised = 100_000;
    let mut l = launch(s, key(3), key(200));
    let plan = migrate_to_raydium(&mut l, LaunchParam { token_mint: key(3), time: None }).unwrap();
    assert_eq!(plan.sol_amount, 0);
}

#[test]
fn second_migration_fails_and_trading_stops() {
    let mut l = launch(ready_sale(), key(3), key(200));
    migrate_to_raydium(&mut l, LaunchParam { token_mint: key(3), time: None }).unwrap();
    let sealed = l;
    let r = migrate_to_raydium(&mut l, LaunchParam { token_mint: key(3), time: None });
    assert_eq!(r.unwrap_err(), NottyTerminalError::AlreadyMigrated);
    assert_eq!(l.global_state.total_migrations, sealed.global_state.total_migrations);
    assert_eq!(l.handle_launch(), Err(NottyTerminalError::AlreadyMigrated));
    let mut ti = TokenInteraction {
        user: key(5),
        user_token_balance: u64::MAX,
        sol_vault_lamports: u64::MAX,
        platform_sol_vault: key(2),
        timestamp: 0,
        token_state: l.token_state,
        global_state: l.global_state,
    };
    let args = PurchaseTokenArgs { amount: UNIT, max_sol_cost: u64::MAX };
    let r = ti.handle_purchase(args, pool(key(3), key(200)));
    assert_eq!(r.unwrap_err(), NottyTerminalError::AlreadyGraduated);
}

#[test]
fn migration_checks_mint_and_creator() {
    let mut l = launch(ready_sale(), key(3), key(200));
    let r = migrate_to_raydium(&mut l, LaunchParam { token_mint: key(8), time: None });
    assert_eq!(r.unwrap_err(), NottyTerminalError::WrongMint);
    let mut l = launch(ready_sale(), key(100), key(200));
    let r = migrate_to_raydium(&mut l, LaunchParam { token_mint: key(3), time: None });
    assert_eq!(r.unwrap_err(), NottyTerminalError::WrongMint);
    let mut l = launch(ready_sale(), key(3), key(200));
    l.creator = key(6);
    let r = migrate_to_raydium(&mut l, LaunchParam { token_mint: key(3), time: None });
    assert_eq!(r.unwrap_err(), NottyTerminalError::WrongCreator);
    assert!(!l.token_state.migrated);
}

#[test]
fn migration_before_threshold_is_rejected() {
    let mut s = ready_sale();
    s.tokens_sold = 860_000_000 * UNIT - 1;
    let mut l = launch(s, key(3), key(200));
    let r = migrate_to_raydium(&mut l, LaunchParam { token_mint: key(3), time: None });
    assert_eq!(r.unwrap_err(), NottyTerminalError::TargetNotReached);
    assert!(!l.token_state.migrated);
}

#[test]
fn migration_with_negative_open_time_is_rejected() {
    let mut l = launch(ready_sale(), key(3), key(200));
    let r = migrate_to_raydium(&mut l, LaunchParam { token_mint: key(3), time: Some(-1) });
    assert_eq!(r.unwrap_err(), NottyTerminalError::InvalidAmount);
    assert!(!l.token_state.migrated);
}

#[test]
fn migration_counter_full_overflows() {
    let mut l = launch(ready_sale(), key(3), key(200));
    l.global_state.total_migrations = u64::MAX;
    let r = migrate_to_raydium(&mut l, LaunchParam { token_mint: key(3), time: None });
    assert_eq!(r.unwrap_err(), NottyTerminalError::NumericalOverflow);
    assert!(!l.token_state.migrated);
}

#[test]
fn sealing_a_sale_short_of_its_target_is_rejected() {
    let mut s = ready_sale();
    s.curve = Curve::LinearIntegral { base_price: 50, slope: 0 };
    s.target_sol = 450_001;
    let mut l = launch(s, key(3), key(200));
    assert_eq!(l.handle_launch(), Err(NottyTerminalError::TargetNotReached));
    assert!(!l.token_state.migrated);
    assert_eq!(l.token_state.raydium_pool, None);
    assert_eq!(l.global_state.total_migrations, 0);
    l.token_state.target_sol = 450_000;
    assert_eq!(l.handle_launch(), Ok(()));
    assert!(l.token_state.migrated);
    assert_eq!(l.token_state.raydium_pool, Some(key(9)));
}

fn buyer(token_state: TokenState) -> TokenInteraction {
    TokenInteraction {
        user: key(5),
        user_token_balance: 0,
        sol_vault_lamports: u64::MAX,
        platform_sol_vault: key(2),
        timestamp: 1_700_000_123,
        token_state,
        global_state: platform(),
    }
}

fn pool(token_0: Pubkey, token_1: Pubkey) -> PoolTarget {
    PoolTarget { token_0_mint: token_0, token_1_mint: token_1, pool_state: key(9) }
}

#[test]
fn buy_crossing_the_threshold_graduates_the_sale() {
    let threshold = 860_000_000 * UNIT;
    let mut s = ready_sale();
    s.tokens_sold = threshold - UNIT;
    s.sol_raised = 0;
    let mut ti = buyer(s);
    let args = PurchaseTokenArgs { amount: UNIT / 2, max_sol_cost: u64::MAX };
    let (first, plan) = ti.handle_purchase(args, pool(key(3), key(200))).unwrap();
    assert!(plan.is_none());
    assert!(!first.migration_ready);
    assert!(!ti.token_state.migrated);
    assert_eq!(ti.token_state.sol_raised, 225_000);

    let (second, plan) = ti.handle_purchase(args, pool(key(3), key(200))).unwrap();
    let plan = plan.unwrap();
    assert!(second.migration_ready);
    assert!(second.migrated);
    assert!(!first.migrated);
    assert_eq!(ti.token_state.tokens_sold, threshold);
    assert!(ti.token_state.migrated);
    assert_eq!(ti.token_state.raydium_pool, Some(key(9)));
    assert_eq!(ti.token_state.migration_timestamp, 1_700_000_123);
    assert_eq!(ti.global_state.total_migrations, 1);
    assert!(plan.custom_token_first);
    assert_eq!(plan.token_amount, 140_000_000 * UNIT);
    // 450_000 raised, less the 150_000 migration fee.
    assert_eq!(plan.sol_amount, 300_000);
    assert_eq!(plan.open_time, 1_700_000_123);

    let r = ti.handle_purchase(args, pool(key(3), key(200)));
    assert_eq!(r.unwrap_err(), NottyTerminalError::AlreadyGraduated);
}

#[test]
fn failed_graduation_rejects_the_crossing_buy() {
    let threshold = 860_000_000 * UNIT;
    let mut s = ready_sale();
    s.tokens_sold = threshold - UNIT;
    s.sol_raised = 0;
    let mut ti = buyer(s);
    let args = PurchaseTokenArgs { amount: UNIT, max_sol_cost: u64::MAX };
    let r = ti.handle_purchase(args, pool(key(100), key(200)));
    assert_eq!(r.unwrap_err(), NottyTerminalError::WrongMint);
    assert_eq!(ti.token_state.tokens_sold, threshold - UNIT);
    assert_eq!(ti.token_state.sol_raised, 0);
    assert_eq!(ti.global_state.total_trading_volume, 0);
    assert!(!ti.token_state.migrated);
}
