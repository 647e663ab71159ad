use notty_terminal::error::NottyTerminalError;
use notty_terminal::launch::PoolTarget;
use notty_terminal::state::{Curve, GlobalState, Pubkey, TokenState};
use notty_terminal::trade::{PurchaseTokenArgs, SellTokenArgs, TokenInteraction};

const UNIT: u64 = 1_000_000_000;

fn key(b: u8) -> Pubkey {
    Pubkey::new([b; 32])
}

fn platform(bps: u16) -> GlobalState {
    GlobalState {
        admin: key(1),
        vault: key(2),
        vault_bump: 254,
        bump: 253,
        listing_fee_lamport: 50_000_000,
        trading_fee_bps: bps,
        migration_fee_lamport: 150_000_000,
        total_tokens_created: 1,
        total_fees_collected: 0,
        total_trading_volume: 0,
        total_migrations: 0,
    }
}

fn sale(curve: Curve, total_supply: u64, sold: u64, raised: u64) -> TokenState {
    TokenState {
        bump: 255,
        migrated: false,
        mint: key(3),
        initial_price_per_token: 0,
        sol_raised: raised,
        tokens_sold: sold,
        total_supply,
        sol_vault_bump: 252,
        start_mcap: 0,
        target_sol: 1_000_000,
        raydium_pool: None,
        migration_timestamp: 0,
        creator: key(4),
        curve,
    }
}

fn trader(token_state: TokenState, bps: u16) -> TokenInteraction {
    TokenInteraction {
        user: key(5),
        user_token_balance: u64::MAX,
        sol_vault_lamports: u64::MAX,
        platform_sol_vault: key(2),
        timestamp: 1_700_000_000,
        token_state,
        global_state: platform(bps),
    }
}

fn pool() -> PoolTarget {
    PoolTarget { token_0_mint: key(3), token_1_mint: key(200), pool_state: key(9) }
}

fn flat(price: u64) -> Curve {
    Curve::LinearIntegral { base_price: price, slope: 0 }
}

#[test]
fn buy_one_token_at_flat_price_fee_truncates_to_zero() {
    let mut ti = trader(sale(flat(50), 1_000_000_000, 0, 0), 150);
    let ev = ti
        .handle_purchase(PurchaseTokenArgs { amount: UNIT, max_sol_cost: 50 }, pool())
        .unwrap().0;
    assert_eq!(ev.base_cost, 50);
    assert_eq!(ev.trading_fee, 0);
    assert_eq!(ev.total_cost, 50);
    assert_eq!(ev.amount_purchased, UNIT);
    assert_eq!(ev.tokens_sold, UNIT);
    assert_eq!(ev.sol_raised, 50);
    assert_eq!(ev.current_price, 50);
    assert!(!ev.migrated);
    assert_eq!(ev.buyer, key(5));
    assert_eq!(ev.timestamp, 1_700_000_000);
    assert_eq!(ti.token_state.tokens_sold, UNIT);
    assert_eq!(ti.token_state.sol_raised, 50);
    assert_eq!(ti.global_state.total_fees_collected, 0);
    assert_eq!(ti.global_state.total_trading_volume, 50);
}

#[test]
fn buy_charges_fee_on_top_and_counts_only_the_cost() {
    let mut ti = trader(sale(flat(1_000), 1_000_000_000, 0, 0), 150);
    let ev = ti
        .handle_purchase(PurchaseTokenArgs { amount: UNIT, max_sol_cost: 1_015 }, pool())
        .unwrap().0;
    assert_eq!((ev.base_cost, ev.trading_fee, ev.total_cost), (1_000, 15, 1_015));
    assert_eq!(ti.token_state.sol_raised, 1_000);
    assert_eq!(ti.global_state.total_fees_collected, 15);
    // The volume counts the gross trade value, the fee excluded.
    assert_eq!(ti.global_state.total_trading_volume, 1_000);
}

#[test]
fn buy_over_slippage_limit_changes_nothing() {
    let mut ti = trader(sale(flat(1_000), 1_000_000_000, 0, 0), 150);
    let before = ti;
    let r = ti.handle_purchase(PurchaseTokenArgs { amount: UNIT, max_sol_cost: 1_014 }, pool());
    assert_eq!(r.unwrap_err(), NottyTerminalError::SlippageExceeded);
    assert_eq!(ti.token_state.tokens_sold, before.token_state.tokens_sold);
    assert_eq!(ti.token_state.sol_raised, before.token_state.sol_raised);
    assert_eq!(ti.global_state.total_trading_volume, 0);
}

#[test]
fn buy_past_supply_is_rejected() {
    let mut ti = trader(sale(flat(0), 1, UNIT / 2, 0), 0);
    let r = ti.handle_purchase(PurchaseTokenArgs { amount: UNIT / 2 + 1, max_sol_cost: 0 }, pool());
    assert_eq!(r.unwrap_err(), NottyTerminalError::ExceedsSupply);
    assert_eq!(ti.token_state.tokens_sold, UNIT / 2);
    // The last units can still be bought.
    let ev = ti.handle_purchase(PurchaseTokenArgs { amount: UNIT / 2, max_sol_cost: 0 }, pool());
    assert_eq!(ev.unwrap().0.tokens_sold, UNIT);
}

#[test]
fn buy_and_sell_after_graduation_are_rejected() {
    let mut state = sale(flat(50), 1_000_000_000, UNIT, 50);
    state.migrated = true;
    state.raydium_pool = Some(key(9));
    let mut ti = trader(state, 150);
    let r = ti.handle_purchase(PurchaseTokenArgs { amount: UNIT, max_sol_cost: u64::MAX }, pool());
    assert_eq!(r.unwrap_err(), NottyTerminalError::AlreadyGraduated);
    let r = ti.handle_sell(SellTokenArgs { amount: UNIT, min_proceeds: 0 });
    assert_eq!(r.unwrap_err(), NottyTerminalError::AlreadyGraduated);
    assert_eq!(ti.token_state.tokens_sold, UNIT);
}

#[test]
fn trade_with_wrong_platform_vault_is_rejected() {
    let mut ti = trader(sale(flat(50), 1_000_000_000, UNIT, 50), 150);
    ti.platform_sol_vault = key(7);
    let r = ti.handle_purchase(PurchaseTokenArgs { amount: UNIT, max_sol_cost: u64::MAX }, pool());
    assert_eq!(r.unwrap_err(), NottyTerminalError::WrongVault);
    let r = ti.handle_sell(SellTokenArgs { amount: UNIT, min_proceeds: 0 });
    assert_eq!(r.unwrap_err(), NottyTerminalError::WrongVault);
}

#[test]
fn buy_with_fee_counter_full_overflows() {
    let mut ti = trader(sale(flat(1_000), 1_000_000_000, 0, 0), 150);
    ti.global_state.total_fees_collected = u64::MAX;
    let r = ti.handle_purchase(PurchaseTokenArgs { amount: UNIT, max_sol_cost: u64::MAX }, pool());
    assert_eq!(r.unwrap_err(), NottyTerminalError::NumericalOverflow);
    assert_eq!(ti.token_state.tokens_sold, 0);
}

#[test]
fn buy_reports_pricing_error() {
    let mut ti = trader(sale(flat(u64::MAX), 1_000_000_000, 0, 0), 150);
    let r = ti.handle_purchase(PurchaseTokenArgs { amount: 2 * UNIT, max_sol_cost: u64::MAX }, pool());
    assert!(matches!(r, Err(NottyTerminalError::PriceCalculation(_))));
}

#[test]
fn sell_pays_discounted_proceeds_less_fee() {
    let mut ti = trader(sale(flat(1_000), 1_000_000_000, UNIT, 1_000), 150);
    ti.sol_vault_lamports = 10_000;
    let ev = ti.handle_sell(SellTokenArgs { amount: UNIT, min_proceeds: 936 }).unwrap();
    assert_eq!(ev.base_proceeds, 950);
    assert_eq!(ev.trading_fee, 14);
    assert_eq!(ev.net_proceeds, 936);
    assert_eq!(ev.tokens_sold, 0);
    assert_eq!(ev.sol_raised, 50);
    assert_eq!(ev.seller, key(5));
    assert_eq!(ti.global_state.total_fees_collected, 14);
    assert_eq!(ti.global_state.total_trading_volume, 950);
}

#[test]
fn sell_below_minimum_proceeds_is_rejected() {
    let mut ti = trader(sale(flat(1_000), 1_000_000_000, UNIT, 1_000), 150);
    let r = ti.handle_sell(SellTokenArgs { amount: UNIT, min_proceeds: 937 });
    assert_eq!(r.unwrap_err(), NottyTerminalError::SlippageExceeded);
    assert_eq!(ti.token_state.tokens_sold, UNIT);
}

#[test]
fn sell_more_than_held_is_rejected() {
    let mut ti = trader(sale(flat(1_000), 1_000_000_000, UNIT, 1_000), 150);
    ti.user_token_balance = UNIT - 1;
    let r = ti.handle_sell(SellTokenArgs { amount: UNIT, min_proceeds: 0 });
    assert_eq!(r.unwrap_err(), NottyTerminalError::InsufficientTokenBalance);
}

#[test]
fn sell_more_than_sold_is_rejected() {
    let mut ti = trader(sale(flat(1_000), 1_000_000_000, UNIT, 1_000), 150);
    let r = ti.handle_sell(SellTokenArgs { amount: UNIT + 1, min_proceeds: 0 });
    assert_eq!(r.unwrap_err(), NottyTerminalError::InsufficientTokensSold);
}

#[test]
fn sell_beyond_vault_balance_is_rejected() {
    let mut ti = trader(sale(flat(1_000), 1_000_000_000, UNIT, 1_000), 150);
    ti.sol_vault_lamports = 949;
    let r = ti.handle_sell(SellTokenArgs { amount: UNIT, min_proceeds: 0 });
    assert_eq!(r.unwrap_err(), NottyTerminalError::InsufficientVaultBalance);
}

#[test]
fn sell_beyond_lamports_raised_underflows() {
    let mut ti = trader(sale(flat(1_000), 1_000_000_000, UNIT, 949), 150);
    let r = ti.handle_sell(SellTokenArgs { amount: UNIT, min_proceeds: 0 });
    assert_eq!(r.unwrap_err(), NottyTerminalError::NumericalUnderflow);
    assert_eq!(ti.token_state.sol_raised, 949);
}

#[test]
fn buy_then_sell_restores_units_sold() {
    let curve = Curve::LinearIntegral { base_price: 50, slope: 3 };
    let mut ti = trader(sale(curve, 1_000_000_000, 7 * UNIT, 10_000_000_000), 150);
    // A reserve target out of reach keeps the sale open for the sale back.
    ti.token_state.target_sol = u64::MAX;
    let buy = ti
        .handle_purchase(PurchaseTokenArgs { amount: 3 * UNIT, max_sol_cost: u64::MAX }, pool())
        .unwrap().0;
    assert_eq!(ti.token_state.tokens_sold, 10 * UNIT);
    let sell = ti.handle_sell(SellTokenArgs { amount: 3 * UNIT, min_proceeds: 0 }).unwrap();
    assert_eq!(ti.token_state.tokens_sold, 7 * UNIT);
    assert!(sell.net_proceeds < buy.total_cost);
    assert!(sell.base_proceeds < buy.base_cost);
    assert_eq!(ti.token_state.sol_raised, 10_000_000_000 + buy.base_cost - sell.base_proceeds);
}

#[test]
fn units_sold_stay_within_supply_over_many_trades() {
    let mut ti = trader(sale(flat(10), 5, 0, 0), 100);
    let amounts = [UNIT, 3 * UNIT, 2 * UNIT, UNIT, 4 * UNIT, UNIT / 2, 6 * UNIT];
    for (i, a) in amounts.iter().enumerate() {
        if i % 3 == 2 {
            let _ = ti.handle_sell(SellTokenArgs { amount: *a, min_proceeds: 0 });
        } else {
            let _ = ti.handle_purchase(PurchaseTokenArgs { amount: *a, max_sol_cost: u64::MAX }, pool());
        }
        assert!(ti.token_state.tokens_sold <= 5 * UNIT);
    }
}

#[test]
fn sqrt_sale_becomes_ready_on_the_buy_that_reaches_the_threshold() {
    let curve = Curve::default_sqrt(1_000_000_000);
    let threshold = 860_000_000 * UNIT;
    let mut ti = trader(sale(curve, 1_000_000_000, threshold - UNIT, 0), 150);
    assert!(!ti.token_state.check_migration_ready());
    let first = ti
        .handle_purchase(PurchaseTokenArgs { amount: UNIT / 2, max_sol_cost: u64::MAX }, pool())
        .unwrap().0;
    assert!(!first.migration_ready);
    assert_eq!(first.base_cost, 225_000);
    assert_eq!(first.trading_fee, 3_375);
    let second = ti
        .handle_purchase(PurchaseTokenArgs { amount: UNIT / 2, max_sol_cost: u64::MAX }, pool())
        .unwrap().0;
    assert!(second.migration_ready);
    assert!(second.migrated);
    assert_eq!(ti.token_state.tokens_sold, threshold);
    assert!(ti.token_state.check_migration_ready());
    assert!(ti.token_state.migrated);
    assert_eq!(ti.token_state.raydium_pool, Some(key(9)));
}

#[test]
fn market_cap_and_current_prices() {
    let ti = trader(sale(Curve::default_sqrt(1_000_000_000), 1_000_000_000, 0, 0), 150);
    assert_eq!(ti.calculate_current_market_cap(), Ok(50_000_000_000_000));
    assert_eq!(ti.get_current_token_price(UNIT), Ok(50_000));
    let ti = trader(sale(flat(1_000), 1_000_000_000, UNIT, 1_000), 150);
    assert_eq!(ti.get_current_sell_price(UNIT), Ok(950));
    let ti = trader(sale(flat(u64::MAX), 2, 0, 0), 150);
    assert_eq!(ti.calculate_current_market_cap(), Err(NottyTerminalError::NumericalOverflow));
}

#[test]
fn progress_percentage_of_supply() {
    let mut s = sale(flat(1), 4, 0, 0);
    assert_eq!(s.get_progress_percentage(), 0);
    s.tokens_sold = 2 * UNIT;
    assert_eq!(s.get_progress_percentage(), 50);
    s.tokens_sold = 4 * UNIT - 1;
    assert_eq!(s.get_progress_percentage(), 99);
    s.tokens_sold = 4 * UNIT;
    assert_eq!(s.get_progress_percentage(), 100);
    assert_eq!(s.remaining_units(), 0);
}

#[test]
fn reserve_target_decides_readiness_on_linear_curves() {
    let mut s = sale(flat(1), 4, 0, 999_999);
    assert!(!s.check_migration_ready());
    s.sol_raised = 1_000_000;
    assert!(s.check_migration_ready());
}

#[test]
fn consistency_checks_on_records() {
    let good = sale(flat(1), 4, 4 * UNIT, 0);
    assert!(good.is_valid());
    assert!(trader(good, 150).is_valid());
    let mut s = good;
    s.tokens_sold = 4 * UNIT + 1;
    assert!(!s.is_valid());
    let mut s = good;
    s.migrated = true;
    assert!(!s.is_valid());
    s.raydium_pool = Some(key(9));
    assert!(s.is_valid());
    let mut s = good;
    s.total_supply = u64::MAX / UNIT + 1;
    assert!(!s.is_valid());
    let mut s = good;
    s.curve = Curve::SqrtMarketCap {
        base_price_per_million: 2,
        max_price_per_million: 1,
        migration_threshold_units: 1,
    };
    assert!(!s.is_valid());
    assert!(platform(1_000).is_valid());
    assert!(!platform(1_001).is_valid());
    assert!(!trader(good, 1_001).is_valid());
    let mut g = platform(150);
    g.migration_fee_lamport = 1_000_000_001;
    assert!(g.is_valid());
}

#[test]
fn keys_compare_by_bytes() {
    let mut bytes = [7u8; 32];
    assert_eq!(key(7), Pubkey::new(bytes));
    assert_eq!(Pubkey::new(bytes).to_bytes(), bytes);
    bytes[31] = 8;
    assert_ne!(key(7), Pubkey::new(bytes));
    bytes[31] = 7;
    bytes[0] = 0;
    assert_ne!(key(7), Pubkey::new(bytes));
}
