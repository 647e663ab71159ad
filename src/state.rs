//! The platform record, the per-token sale record and the curve shapes.
use vstd::prelude::*;

verus! {

/// Base units per whole token (nine decimals).
pub const DECIMALS: u64 = 1_000_000_000;

/// Largest trading fee a platform may be configured with, in basis points.
pub const MAX_TRADING_FEE_BPS: u16 = 1000;

/// Largest migration fee a platform may be configured with, in lamports.
pub const MAX_MIGRATION_FEE_LAMPORT: u64 = 1_000_000_000;

/// A 32-byte account address.
#[derive(Clone, Copy, Debug)]
pub struct Pubkey {
    pub bytes: [u8; 32],
}

impl Pubkey {
    pub fn new(bytes: [u8; 32]) -> (r: Pubkey)
        ensures
            r.bytes@ == bytes@,
    {
        Pubkey { bytes }
    }

    pub fn to_bytes(&self) -> (r: [u8; 32])
        ensures
            r@ == self.bytes@,
    {
        self.bytes
    }
}

impl PartialEq for Pubkey {
    fn eq(&self, other: &Pubkey) -> (r: bool) {
        let mut i: usize = 0;
        while i < 32
            invariant
                0 <= i <= 32,
                forall|j: int| 0 <= j < i ==> self.bytes@[j] == other.bytes@[j],
            decreases 32 - i,
        {
            if self.bytes[i] != other.bytes[i] {
                return false;
            }
            i = i + 1;
        }
        assert(self.bytes@ =~= other.bytes@);
        true
    }
}

impl vstd::std_specs::cmp::PartialEqSpecImpl for Pubkey {
    open spec fn obeys_eq_spec() -> bool {
        true
    }

    open spec fn eq_spec(&self, other: &Pubkey) -> bool {
        self.bytes@ == other.bytes@
    }
}

impl Eq for Pubkey {}

/// The price curve a sale was created with.
#[derive(Clone, Copy, Debug, PartialEq, Eq, Structural)]
pub enum Curve {
    /// Marginal price `base_price + slope * sold`, integrated exactly over the trade.
    LinearIntegral { base_price: u64, slope: u64 },
    /// Price `base_price + slope * whole_tokens_sold`, taken once at the current
    /// supply and applied to the whole trade.
    LinearSpot { base_price: u64, slope: u64 },
    /// Price per million base units rising from `base_price_per_million` to
    /// `max_price_per_million` with the square root of the progress towards
    /// `migration_threshold_units`, taken once at the current supply.
    SqrtMarketCap {
        base_price_per_million: u64,
        max_price_per_million: u64,
        migration_threshold_units: u64,
    },
}

impl Curve {
    pub open spec fn wf(self) -> bool {
        match self {
            Curve::SqrtMarketCap {
                base_price_per_million,
                max_price_per_million,
                migration_threshold_units,
            } => base_price_per_million <= max_price_per_million && migration_threshold_units > 0,
            _ => true,
        }
    }

    /// Whether the curve's parameters are usable.
    pub fn is_valid(&self) -> (r: bool)
        ensures
            r == self.wf(),
    {
        match self {
            Curve::SqrtMarketCap {
                base_price_per_million,
                max_price_per_million,
                migration_threshold_units,
            } => *base_price_per_million <= *max_price_per_million && *migration_threshold_units
                > 0,
            _ => true,
        }
    }

    /// The square-root curve with a price rising from 50 to 450 lamports per
    /// million base units, graduating once 86% of `total_supply` whole tokens are sold.
    pub fn default_sqrt(total_supply: u64) -> (r: Curve)
        requires
            total_supply * DECIMALS <= u64::MAX,
            total_supply > 0,
        ensures
            r == (Curve::SqrtMarketCap {
                base_price_per_million: 50,
                max_price_per_million: 450,
                migration_threshold_units: ((total_supply * DECIMALS) / 100 * 86) as u64,
            }),
            r.wf(),
    {
        let units: u64 = total_supply * DECIMALS;
        Curve::SqrtMarketCap {
            base_price_per_million: 50,
            max_price_per_million: 450,
            migration_threshold_units: units / 100 * 86,
        }
    }
}

/// Platform-wide configuration and counters.
#[derive(Clone, Copy, Debug)]
pub struct GlobalState {
    pub admin: Pubkey,
    pub vault: Pubkey,
    pub vault_bump: u8,
    pub bump: u8,
    pub listing_fee_lamport: u64,
    pub trading_fee_bps: u16,
    pub migration_fee_lamport: u64,
    pub total_tokens_created: u64,
    pub total_fees_collected: u64,
    pub total_trading_volume: u64,
    pub total_migrations: u64,
}

impl GlobalState {
    pub open spec fn wf(self) -> bool {
        self.trading_fee_bps <= MAX_TRADING_FEE_BPS
    }

    /// Whether the trading fee is within the platform's limit.
    pub fn is_valid(&self) -> (r: bool)
        ensures
            r == self.wf(),
    {
        self.trading_fee_bps <= MAX_TRADING_FEE_BPS
    }
}

/// The sale record of one token.
#[derive(Clone, Copy, Debug)]
pub struct TokenState {
    pub bump: u8,
    pub migrated: bool,
    pub mint: Pubkey,
    pub initial_price_per_token: u64,
    /// Lamports retained towards graduation, fees excluded.
    pub sol_raised: u64,
    /// Base units sold so far.
    pub tokens_sold: u64,
    /// Whole tokens minted for the sale.
    pub total_supply: u64,
    pub sol_vault_bump: u8,
    pub start_mcap: u64,
    /// Lamports raised at which the sale graduates (reserve-target curves).
    pub target_sol: u64,
    pub raydium_pool: Option<Pubkey>,
    pub migration_timestamp: i64,
    pub creator: Pubkey,
    pub curve: Curve,
}

impl TokenState {
    /// Base units minted for the sale.
    pub open spec fn supply_units(self) -> int {
        self.total_supply * DECIMALS
    }

    pub open spec fn wf(self) -> bool {
        &&& self.supply_units() <= u64::MAX
        &&& self.tokens_sold <= self.supply_units()
        &&& self.curve.wf()
        &&& self.migrated == self.raydium_pool.is_some()
    }

    /// Whether the record is consistent: the minted units fit, no more are
    /// sold than minted, the curve is usable, and a pool is recorded exactly
    /// when the sale has graduated.
    pub fn is_valid(&self) -> (r: bool)
        ensures
            r == self.wf(),
    {
        let units = match self.total_supply.checked_mul(DECIMALS) {
            Some(v) => v,
            None => return false,
        };
        self.tokens_sold <= units && self.curve.is_valid() && self.migrated
            == self.raydium_pool.is_some()
    }

    /// The graduation rule: the units sold reach the threshold on the
    /// square-root curve, the lamports raised reach the target on the others.
    pub open spec fn migration_ready(self) -> bool {
        match self.curve {
            Curve::SqrtMarketCap { migration_threshold_units, .. } => self.tokens_sold
                >= migration_threshold_units,
            _ => self.sol_raised >= self.target_sol,
        }
    }

    pub fn check_migration_ready(&self) -> (r: bool)
        ensures
            r == self.migration_ready(),
    {
        match self.curve {
            Curve::SqrtMarketCap { migration_threshold_units, .. } => self.tokens_sold
                >= migration_threshold_units,
            _ => self.sol_raised >= self.target_sol,
        }
    }

    /// Whole percent of the minted units sold, at most 100.
    pub open spec fn progress_percentage(self) -> int {
        if self.total_supply == 0 {
            0
        } else if self.tokens_sold * 100 / self.supply_units() >= 100 {
            100
        } else {
            self.tokens_sold * 100 / self.supply_units()
        }
    }

    pub fn get_progress_percentage(&self) -> (r: u8)
        requires
            self.wf(),
        ensures
            r == self.progress_percentage(),
            r <= 100,
    {
        if self.total_supply == 0 {
            return 0;
        }
        let units: u64 = self.total_supply * DECIMALS;
        let pct: u128 = (self.tokens_sold as u128 * 100) / units as u128;
        if pct >= 100 {
            100
        } else {
            pct as u8
        }
    }

    /// Base units not sold yet.
    pub fn remaining_units(&self) -> (r: u64)
        requires
            self.wf(),
        ensures
            r == self.supply_units() - self.tokens_sold,
    {
        self.total_supply * DECIMALS - self.tokens_sold
    }
}

} // verus!
