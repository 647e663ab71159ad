//! Graduation: sealing a sale and planning the liquidity handed to the pool.
use vstd::prelude::*;

use crate::error::NottyTerminalError;
use crate::state::{GlobalState, Pubkey, TokenState};
use crate::trade::{
    lemma_graduated_sale_rejects_trades, purchase_outcome, same_key, sell_outcome,
    PurchaseTokenArgs, PurchasedToken, SellTokenArgs, SoldToken, TokenInteraction,
};

verus! {

#[derive(Clone, Copy, Debug)]
pub struct LaunchParam {
    /// Mint of the token whose sale graduates.
    pub token_mint: Pubkey,
    /// When the pool opens; now when absent.
    pub time: Option<i64>,
}

/// What graduation reads: the creator and pool accounts named by the caller,
/// the clock, and the two records it updates.
#[derive(Clone, Copy, Debug)]
pub struct Launch {
    pub creator: Pubkey,
    /// The pool's two mints, `token_0_mint` the smaller.
    pub token_0_mint: Pubkey,
    pub token_1_mint: Pubkey,
    /// Address of the pool that graduation creates.
    pub pool_state: Pubkey,
    pub timestamp: i64,
    pub token_state: TokenState,
    pub global_state: GlobalState,
}

/// The liquidity to hand to the pool: `token_amount` base units of the token
/// and `sol_amount` lamports, ordered as the pool's mints are.
#[derive(Clone, Copy, Debug)]
pub struct LaunchPlan {
    /// Whether the token is the pool's first mint (and wrapped SOL the second).
    pub custom_token_first: bool,
    pub token_amount: u64,
    pub sol_amount: u64,
    pub init_amount_0: u64,
    pub init_amount_1: u64,
    pub open_time: u64,
}

/// The records once `l` has graduated into its pool.
pub open spec fn sealed(l: Launch) -> Launch {
    Launch {
        token_state: TokenState {
            migrated: true,
            raydium_pool: Some(l.pool_state),
            migration_timestamp: l.timestamp,
            ..l.token_state
        },
        global_state: GlobalState {
            total_migrations: (l.global_state.total_migrations + 1) as u64,
            ..l.global_state
        },
        ..l
    }
}

/// Lamports raised less the migration fee, or zero when the fee exceeds them.
pub open spec fn available_reserve(ts: TokenState, gs: GlobalState) -> int {
    if ts.sol_raised >= gs.migration_fee_lamport {
        ts.sol_raised - gs.migration_fee_lamport
    } else {
        0
    }
}

/// The result of graduating: the sealed records and the liquidity plan, or
/// the error, checked in this order.
pub open spec fn launch_outcome(l: Launch, params: LaunchParam) -> Result<
    (Launch, LaunchPlan),
    NottyTerminalError,
> {
    let ts = l.token_state;
    let gs = l.global_state;
    let open_time = match params.time {
        Some(t) => t,
        None => l.timestamp,
    };
    if ts.migrated {
        Err(NottyTerminalError::AlreadyMigrated)
    } else if !same_key(params.token_mint, ts.mint) || !(same_key(params.token_mint, l.token_0_mint)
        || same_key(params.token_mint, l.token_1_mint)) {
        Err(NottyTerminalError::WrongMint)
    } else if !same_key(l.creator, ts.creator) {
        Err(NottyTerminalError::WrongCreator)
    } else if !ts.migration_ready() {
        Err(NottyTerminalError::TargetNotReached)
    } else if open_time < 0 {
        Err(NottyTerminalError::InvalidAmount)
    } else if gs.total_migrations + 1 > u64::MAX {
        Err(NottyTerminalError::NumericalOverflow)
    } else {
        let token_amount = ts.supply_units() - ts.tokens_sold;
        let sol_amount = available_reserve(ts, gs);
        let first = same_key(params.token_mint, l.token_0_mint);
        let plan = LaunchPlan {
            custom_token_first: first,
            token_amount: token_amount as u64,
            sol_amount: sol_amount as u64,
            init_amount_0: if first {
                token_amount as u64
            } else {
                sol_amount as u64
            },
            init_amount_1: if first {
                sol_amount as u64
            } else {
                token_amount as u64
            },
            open_time: open_time as u64,
        };
        Ok((sealed(l), plan))
    }
}

impl Launch {
    pub open spec fn wf(self) -> bool {
        self.token_state.wf() && self.global_state.wf()
    }

    /// Whether both records are consistent.
    pub fn is_valid(&self) -> (r: bool)
        ensures
            r == self.wf(),
    {
        self.token_state.is_valid() && self.global_state.is_valid()
    }

    /// Seals a sale that meets its graduation rule: marks it graduated into
    /// `pool_state` at `timestamp` and counts the migration.
    pub fn handle_launch(&mut self) -> (r: Result<(), NottyTerminalError>)
        requires
            old(self).wf(),
        ensures
            final(self).wf(),
            old(self).token_state.migrated ==> r == Err::<(), NottyTerminalError>(
                NottyTerminalError::AlreadyMigrated,
            ) && *final(self) == *old(self),
            !old(self).token_state.migrated && !old(self).token_state.migration_ready() ==> r
                == Err::<(), NottyTerminalError>(NottyTerminalError::TargetNotReached)
                && *final(self) == *old(self),
            !old(self).token_state.migrated && old(self).token_state.migration_ready()
                && old(self).global_state.total_migrations == u64::MAX ==> r == Err::<
                (),
                NottyTerminalError,
            >(NottyTerminalError::NumericalOverflow) && *final(self) == *old(self),
            !old(self).token_state.migrated && old(self).token_state.migration_ready()
                && old(self).global_state.total_migrations < u64::MAX ==> r == Ok::<
                (),
                NottyTerminalError,
            >(()) && *final(self) == sealed(*old(self)),
    {
        if self.token_state.migrated {
            return Err(NottyTerminalError::AlreadyMigrated);
        }
        if !self.token_state.check_migration_ready() {
            return Err(NottyTerminalError::TargetNotReached);
        }
        let migrations = match self.global_state.total_migrations.checked_add(1) {
            Some(v) => v,
            None => return Err(NottyTerminalError::NumericalOverflow),
        };
        self.token_state.migrated = true;
        self.token_state.raydium_pool = Some(self.pool_state);
        self.token_state.migration_timestamp = self.timestamp;
        self.global_state.total_migrations = migrations;
        Ok(())
    }
}

/// Graduates a sale that has met its graduation rule: checks the named
/// accounts, seals the records and returns the liquidity to hand to the pool.
pub fn migrate_to_raydium(ctx: &mut Launch, params: LaunchParam) -> (r: Result<
    LaunchPlan,
    NottyTerminalError,
>)
    requires
        old(ctx).wf(),
    ensures
        final(ctx).wf(),
        match launch_outcome(*old(ctx), params) {
            Ok((next, plan)) => *final(ctx) == next && r == Ok::<LaunchPlan, NottyTerminalError>(
                plan,
            ),
            Err(e) => *final(ctx) == *old(ctx) && r == Err::<LaunchPlan, NottyTerminalError>(e),
        },
{
    if ctx.token_state.migrated {
        return Err(NottyTerminalError::AlreadyMigrated);
    }
    let is_token_0 = params.token_mint == ctx.token_0_mint;
    if !(params.token_mint == ctx.token_state.mint) || !(is_token_0 || params.token_mint
        == ctx.token_1_mint) {
        return Err(NottyTerminalError::WrongMint);
    }
    if !(ctx.creator == ctx.token_state.creator) {
        return Err(NottyTerminalError::WrongCreator);
    }
    if !ctx.token_state.check_migration_ready() {
        return Err(NottyTerminalError::TargetNotReached);
    }
    let open_time: i64 = match params.time {
        Some(t) => t,
        None => ctx.timestamp,
    };
    if open_time < 0 {
        return Err(NottyTerminalError::InvalidAmount);
    }
    let token_amount = ctx.token_state.remaining_units();
    let sol_amount = ctx.token_state.sol_raised.saturating_sub(
        ctx.global_state.migration_fee_lamport,
    );
    ctx.handle_launch()?;
    let (init_amount_0, init_amount_1) = if is_token_0 {
        (token_amount, sol_amount)
    } else {
        (sol_amount, token_amount)
    };
    Ok(LaunchPlan {
        custom_token_first: is_token_0,
        token_amount,
        sol_amount,
        init_amount_0,
        init_amount_1,
        open_time: open_time as u64,
    })
}

/// Graduation happens once: after it succeeds the sale is marked graduated,
/// a second attempt fails with `AlreadyMigrated` whatever it names, and every
/// purchase or sale on the sealed record fails with `AlreadyGraduated`.
pub proof fn lemma_migration_is_idempotent(
    l: Launch,
    params: LaunchParam,
    again: LaunchParam,
    trader: TokenInteraction,
    buy: PurchaseTokenArgs,
    pool: PoolTarget,
    sell: SellTokenArgs,
)
    requires
        launch_outcome(l, params) is Ok,
        trader.token_state == launch_outcome(l, params)->Ok_0.0.token_state,
    ensures
        launch_outcome(l, params)->Ok_0.0.token_state.migrated,
        launch_outcome(launch_outcome(l, params)->Ok_0.0, again) == Err::<
            (Launch, LaunchPlan),
            NottyTerminalError,
        >(NottyTerminalError::AlreadyMigrated),
        purchase_outcome(trader, buy, pool) == Err::<
            (TokenInteraction, PurchasedToken, Option<LaunchPlan>),
            NottyTerminalError,
        >(NottyTerminalError::AlreadyGraduated),
        sell_outcome(trader, sell) == Err::<(TokenInteraction, SoldToken), NottyTerminalError>(
            NottyTerminalError::AlreadyGraduated,
        ),
{
    lemma_graduated_sale_rejects_trades(trader, buy, pool, sell);
}

/// The pool a purchase creates when it graduates the sale.
#[derive(Clone, Copy, Debug)]
pub struct PoolTarget {
    /// The pool's two mints, `token_0_mint` the smaller.
    pub token_0_mint: Pubkey,
    pub token_1_mint: Pubkey,
    /// Address of the pool.
    pub pool_state: Pubkey,
}

/// Graduation as the purchase in `ti` sees it: the sale's own creator and
/// mint, the purchase's clock, and the pool named by `pool`.
pub open spec fn graduation_view(ti: TokenInteraction, pool: PoolTarget) -> Launch {
    Launch {
        creator: ti.token_state.creator,
        token_0_mint: pool.token_0_mint,
        token_1_mint: pool.token_1_mint,
        pool_state: pool.pool_state,
        timestamp: ti.timestamp,
        token_state: ti.token_state,
        global_state: ti.global_state,
    }
}

} // verus!
