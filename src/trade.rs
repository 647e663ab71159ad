//! Buying from and selling back to the curve.
use vstd::prelude::*;

use crate::error::NottyTerminalError;
use crate::fees::{fee_of, trading_fee};
use crate::pricing::{
    buy_cost, lemma_buy_quote_monotone, buy_quote, priced, quote_in_range, sell_proceeds, sell_quote, token_price,
};
use crate::launch::{
    graduation_view, launch_outcome, migrate_to_raydium, Launch, LaunchParam, LaunchPlan,
    PoolTarget,
};
use crate::state::{Curve, GlobalState, Pubkey, TokenState, DECIMALS};

verus! {

#[derive(Clone, Copy, Debug)]
pub struct PurchaseTokenArgs {
    /// Base units to buy.
    pub amount: u64,
    /// Most lamports the buyer pays, fee included.
    pub max_sol_cost: u64,
}

#[derive(Clone, Copy, Debug)]
pub struct SellTokenArgs {
    /// Base units to sell.
    pub amount: u64,
    /// Fewest lamports the seller accepts, fee deducted.
    pub min_proceeds: u64,
}

/// Record of a completed purchase. The buyer pays `total_cost` into the sale's
/// vault, `trading_fee` of it goes on to the platform vault, and the buyer
/// receives `amount_purchased` base units.
#[derive(Clone, Copy, Debug)]
pub struct PurchasedToken {
    pub base_cost: u64,
    pub trading_fee: u64,
    pub total_cost: u64,
    pub mint: Pubkey,
    pub amount_purchased: u64,
    pub migrated: bool,
    pub total_supply: u64,
    pub tokens_sold: u64,
    pub sol_raised: u64,
    /// Price of one whole token after the trade.
    pub current_price: u64,
    /// Whether the sale has now met its graduation rule.
    pub migration_ready: bool,
    pub buyer: Pubkey,
    pub timestamp: i64,
}

/// Record of a completed sale back to the curve. The seller returns
/// `amount_sold` base units, `trading_fee` goes from the sale's vault to the
/// platform vault, and the seller receives `net_proceeds`.
#[derive(Clone, Copy, Debug)]
pub struct SoldToken {
    pub mint: Pubkey,
    pub base_proceeds: u64,
    pub trading_fee: u64,
    pub net_proceeds: u64,
    pub amount_sold: u64,
    pub migrated: bool,
    pub total_supply: u64,
    pub tokens_sold: u64,
    pub sol_raised: u64,
    /// Price of one whole token after the trade.
    pub current_price: u64,
    pub seller: Pubkey,
    pub timestamp: i64,
}

/// What a trade reads: the trader, the balances the host holds for the sale,
/// the platform vault the trader named, the clock, and the two records it
/// updates.
#[derive(Clone, Copy, Debug)]
pub struct TokenInteraction {
    pub user: Pubkey,
    /// Base units the trader holds.
    pub user_token_balance: u64,
    /// Lamports in the sale's vault.
    pub sol_vault_lamports: u64,
    /// The platform vault the trader's fees go to.
    pub platform_sol_vault: Pubkey,
    pub timestamp: i64,
    pub token_state: TokenState,
    pub global_state: GlobalState,
}

/// Two keys are the same address.
pub open spec fn same_key(a: Pubkey, b: Pubkey) -> bool {
    a.bytes@ == b.bytes@
}

/// The purchase step on its own, before the graduation check: the next
/// records and the purchase record, or the error, checked in this order.
pub open spec fn buy_step_outcome(ti: TokenInteraction, args: PurchaseTokenArgs) -> Result<
    (TokenInteraction, PurchasedToken),
    NottyTerminalError,
> {
    let ts = ti.token_state;
    let gs = ti.global_state;
    if ts.migrated {
        Err(NottyTerminalError::AlreadyGraduated)
    } else if !same_key(ti.platform_sol_vault, gs.vault) {
        Err(NottyTerminalError::WrongVault)
    } else {
        match buy_quote(ts.curve, ts.tokens_sold as int, args.amount as int) {
            Err(e) => Err(NottyTerminalError::PriceCalculation(e)),
            Ok(cost) => {
                let fee = fee_of(cost, gs.trading_fee_bps as int);
                let total = cost + fee;
                let sold = ts.tokens_sold + args.amount;
                let raised = ts.sol_raised + cost;
                let fees = gs.total_fees_collected + fee;
                let volume = gs.total_trading_volume + cost;
                if total > u64::MAX {
                    Err(NottyTerminalError::NumericalOverflow)
                } else if total > args.max_sol_cost {
                    Err(NottyTerminalError::SlippageExceeded)
                } else if sold > ts.supply_units() {
                    Err(NottyTerminalError::ExceedsSupply)
                } else if raised > u64::MAX || fees > u64::MAX || volume > u64::MAX {
                    Err(NottyTerminalError::NumericalOverflow)
                } else if token_price(ts.curve, sold) is Err {
                    Err(NottyTerminalError::PriceCalculation(token_price(ts.curve, sold)->Err_0))
                } else {
                    let next_ts = TokenState {
                        tokens_sold: sold as u64,
                        sol_raised: raised as u64,
                        ..ts
                    };
                    let next = TokenInteraction {
                        token_state: next_ts,
                        global_state: GlobalState {
                            total_fees_collected: fees as u64,
                            total_trading_volume: volume as u64,
                            ..gs
                        },
                        ..ti
                    };
                    let event = PurchasedToken {
                        base_cost: cost as u64,
                        trading_fee: fee as u64,
                        total_cost: total as u64,
                        mint: ts.mint,
                        amount_purchased: args.amount,
                        migrated: false,
                        total_supply: ts.total_supply,
                        tokens_sold: sold as u64,
                        sol_raised: raised as u64,
                        current_price: token_price(ts.curve, sold)->Ok_0 as u64,
                        migration_ready: next_ts.migration_ready(),
                        buyer: ti.user,
                        timestamp: ti.timestamp,
                    };
                    Ok((next, event))
                }
            },
        }
    }
}

/// The result of a sale back to the curve: the next records and the sale
/// record, or the error, checked in this order.
pub open spec fn sell_outcome(ti: TokenInteraction, args: SellTokenArgs) -> Result<
    (TokenInteraction, SoldToken),
    NottyTerminalError,
> {
    let ts = ti.token_state;
    let gs = ti.global_state;
    if ts.migrated {
        Err(NottyTerminalError::AlreadyGraduated)
    } else if !same_key(ti.platform_sol_vault, gs.vault) {
        Err(NottyTerminalError::WrongVault)
    } else if ti.user_token_balance < args.amount {
        Err(NottyTerminalError::InsufficientTokenBalance)
    } else {
        match sell_quote(ts.curve, ts.tokens_sold as int, args.amount as int) {
            Err(e) => Err(e),
            Ok(gross) => {
                let fee = fee_of(gross, gs.trading_fee_bps as int);
                let net = gross - fee;
                let sold = ts.tokens_sold - args.amount;
                let fees = gs.total_fees_collected + fee;
                let volume = gs.total_trading_volume + gross;
                if net < args.min_proceeds {
                    Err(NottyTerminalError::SlippageExceeded)
                } else if ti.sol_vault_lamports < gross {
                    Err(NottyTerminalError::InsufficientVaultBalance)
                } else if gross > ts.sol_raised {
                    Err(NottyTerminalError::NumericalUnderflow)
                } else if fees > u64::MAX || volume > u64::MAX {
                    Err(NottyTerminalError::NumericalOverflow)
                } else if token_price(ts.curve, sold) is Err {
                    Err(NottyTerminalError::PriceCalculation(token_price(ts.curve, sold)->Err_0))
                } else {
                    let raised = ts.sol_raised - gross;
                    let next = TokenInteraction {
                        token_state: TokenState {
                            tokens_sold: sold as u64,
                            sol_raised: raised as u64,
                            ..ts
                        },
                        global_state: GlobalState {
                            total_fees_collected: fees as u64,
                            total_trading_volume: volume as u64,
                            ..gs
                        },
                        ..ti
                    };
                    let event = SoldToken {
                        mint: ts.mint,
                        base_proceeds: gross as u64,
                        trading_fee: fee as u64,
                        net_proceeds: net as u64,
                        amount_sold: args.amount,
                        migrated: false,
                        total_supply: ts.total_supply,
                        tokens_sold: sold as u64,
                        sol_raised: raised as u64,
                        current_price: token_price(ts.curve, sold)->Ok_0 as u64,
                        seller: ti.user,
                        timestamp: ti.timestamp,
                    };
                    Ok((next, event))
                }
            },
        }
    }
}

/// The result of a purchase: the purchase step, and then, when the sale
/// meets its graduation rule, graduation into `pool` opening now. Either both
/// happen or neither: an error in either leaves the records alone.
pub open spec fn purchase_outcome(
    ti: TokenInteraction,
    args: PurchaseTokenArgs,
    pool: PoolTarget,
) -> Result<(TokenInteraction, PurchasedToken, Option<LaunchPlan>), NottyTerminalError> {
    match buy_step_outcome(ti, args) {
        Err(e) => Err(e),
        Ok((bought, event)) => if !bought.token_state.migration_ready() {
            Ok((bought, event, None))
        } else {
            match launch_outcome(
                graduation_view(bought, pool),
                LaunchParam { token_mint: bought.token_state.mint, time: None },
            ) {
                Err(e) => Err(e),
                Ok((sealed_launch, plan)) => Ok(
                    (
                        TokenInteraction {
                            token_state: sealed_launch.token_state,
                            global_state: sealed_launch.global_state,
                            ..bought
                        },
                        PurchasedToken { migrated: true, ..event },
                        Some(plan),
                    ),
                ),
            }
        },
    }
}

impl TokenInteraction {
    pub open spec fn wf(self) -> bool {
        self.token_state.wf() && self.global_state.wf()
    }

    /// Whether both records are consistent.
    pub fn is_valid(&self) -> (r: bool)
        ensures
            r == self.wf(),
    {
        self.token_state.is_valid() && self.global_state.is_valid()
    }

    /// Cost, before fees, of buying `amount_base_units` at the current supply.
    pub fn get_current_token_price(&self, amount_base_units: u64) -> (r: Result<
        u64,
        NottyTerminalError,
    >)
        requires
            self.wf(),
        ensures
            r == priced(
                buy_quote(
                    self.token_state.curve,
                    self.token_state.tokens_sold as int,
                    amount_base_units as int,
                ),
            ),
            quote_in_range(
                buy_quote(
                    self.token_state.curve,
                    self.token_state.tokens_sold as int,
                    amount_base_units as int,
                ),
            ),
    {
        buy_cost(&self.token_state.curve, self.token_state.tokens_sold, amount_base_units)
    }

    /// Proceeds, before fees, of selling `amount_base_units` back at the current supply.
    pub fn get_current_sell_price(&self, amount_base_units: u64) -> (r: Result<
        u64,
        NottyTerminalError,
    >)
        requires
            self.wf(),
        ensures
            match r {
                Ok(v) => sell_quote(
                    self.token_state.curve,
                    self.token_state.tokens_sold as int,
                    amount_base_units as int,
                ) == Ok::<int, NottyTerminalError>(v as int),
                Err(e) => sell_quote(
                    self.token_state.curve,
                    self.token_state.tokens_sold as int,
                    amount_base_units as int,
                ) == Err::<int, NottyTerminalError>(e),
            },
    {
        sell_proceeds(&self.token_state.curve, self.token_state.tokens_sold, amount_base_units)
    }

    /// Value of the whole minted supply at the current price of one token.
    pub fn calculate_current_market_cap(&self) -> (r: Result<u64, NottyTerminalError>)
        requires
            self.wf(),
        ensures
            match token_price(self.token_state.curve, self.token_state.tokens_sold as int) {
                Err(e) => r == Err::<u64, NottyTerminalError>(
                    NottyTerminalError::PriceCalculation(e),
                ),
                Ok(p) => if p * self.token_state.total_supply > u64::MAX {
                    r == Err::<u64, NottyTerminalError>(NottyTerminalError::NumericalOverflow)
                } else {
                    r matches Ok(v) && v == p * self.token_state.total_supply
                },
            },
    {
        let price = self.get_current_token_price(DECIMALS)?;
        match price.checked_mul(self.token_state.total_supply) {
            Some(v) => Ok(v),
            None => Err(NottyTerminalError::NumericalOverflow),
        }
    }

    /// Buys `args.amount` base units at the curve's quote plus the platform's
    /// trading fee, and graduates the sale into `pool` when the purchase makes
    /// it meet its graduation rule. The plan for the pool comes back with the
    /// purchase record when the sale graduates. A graduation that fails
    /// rejects the purchase too.
    pub fn handle_purchase(&mut self, args: PurchaseTokenArgs, pool: PoolTarget) -> (r: Result<
        (PurchasedToken, Option<LaunchPlan>),
        NottyTerminalError,
    >)
        requires
            old(self).wf(),
        ensures
            final(self).wf(),
            match purchase_outcome(*old(self), args, pool) {
                Ok((next, event, plan)) => *final(self) == next && r == Ok::<
                    (PurchasedToken, Option<LaunchPlan>),
                    NottyTerminalError,
                >((event, plan)),
                Err(e) => *final(self) == *old(self) && r == Err::<
                    (PurchasedToken, Option<LaunchPlan>),
                    NottyTerminalError,
                >(e),
            },
    {
        let before = *self;
        let mut event = self.buy_step(args)?;
        if !event.migration_ready {
            return Ok((event, None));
        }
        let mut launch = Launch {
            creator: self.token_state.creator,
            token_0_mint: pool.token_0_mint,
            token_1_mint: pool.token_1_mint,
            pool_state: pool.pool_state,
            timestamp: self.timestamp,
            token_state: self.token_state,
            global_state: self.global_state,
        };
        let params = LaunchParam { token_mint: self.token_state.mint, time: None };
        match migrate_to_raydium(&mut launch, params) {
            Ok(plan) => {
                self.token_state = launch.token_state;
                self.global_state = launch.global_state;
                event.migrated = true;
                Ok((event, Some(plan)))
            },
            Err(e) => {
                *self = before;
                Err(e)
            },
        }
    }

    /// The purchase step: buys `args.amount` base units at the curve's quote
    /// plus the platform's trading fee. The quote alone counts towards the
    /// lamports raised and the trading volume; the fee goes to the fees
    /// collected.
    fn buy_step(&mut self, args: PurchaseTokenArgs) -> (r: Result<
        PurchasedToken,
        NottyTerminalError,
    >)
        requires
            old(self).wf(),
        ensures
            final(self).wf(),
            match buy_step_outcome(*old(self), args) {
                Ok((next, event)) => *final(self) == next && r == Ok::<
                    PurchasedToken,
                    NottyTerminalError,
                >(event),
                Err(e) => *final(self) == *old(self) && r == Err::<
                    PurchasedToken,
                    NottyTerminalError,
                >(e),
            },
    {
        if self.token_state.migrated {
            return Err(NottyTerminalError::AlreadyGraduated);
        }
        if !(self.platform_sol_vault == self.global_state.vault) {
            return Err(NottyTerminalError::WrongVault);
        }
        let amount = args.amount;
        let base_cost = self.get_current_token_price(amount)?;
        let fee = trading_fee(base_cost, self.global_state.trading_fee_bps);
        let total_cost = match base_cost.checked_add(fee) {
            Some(v) => v,
            None => return Err(NottyTerminalError::NumericalOverflow),
        };
        if total_cost > args.max_sol_cost {
            return Err(NottyTerminalError::SlippageExceeded);
        }
        if amount > self.token_state.remaining_units() {
            return Err(NottyTerminalError::ExceedsSupply);
        }
        let sol_raised = match self.token_state.sol_raised.checked_add(base_cost) {
            Some(v) => v,
            None => return Err(NottyTerminalError::NumericalOverflow),
        };
        let fees = match self.global_state.total_fees_collected.checked_add(fee) {
            Some(v) => v,
            None => return Err(NottyTerminalError::NumericalOverflow),
        };
        let volume = match self.global_state.total_trading_volume.checked_add(base_cost) {
            Some(v) => v,
            None => return Err(NottyTerminalError::NumericalOverflow),
        };
        let sold = self.token_state.tokens_sold + amount;
        let current_price = buy_cost(&self.token_state.curve, sold, DECIMALS)?;
        self.token_state.tokens_sold = sold;
        self.token_state.sol_raised = sol_raised;
        self.global_state.total_fees_collected = fees;
        self.global_state.total_trading_volume = volume;
        Ok(PurchasedToken {
            base_cost,
            trading_fee: fee,
            total_cost,
            mint: self.token_state.mint,
            amount_purchased: amount,
            migrated: self.token_state.migrated,
            total_supply: self.token_state.total_supply,
            tokens_sold: self.token_state.tokens_sold,
            sol_raised: self.token_state.sol_raised,
            current_price,
            migration_ready: self.token_state.check_migration_ready(),
            buyer: self.user,
            timestamp: self.timestamp,
        })
    }

    /// Sells `args.amount` base units back at the curve's sell quote less the
    /// platform's trading fee. The whole quote leaves the lamports raised.
    pub fn handle_sell(&mut self, args: SellTokenArgs) -> (r: Result<SoldToken, NottyTerminalError>)
        requires
            old(self).wf(),
        ensures
            final(self).wf(),
            match sell_outcome(*old(self), args) {
                Ok((next, event)) => *final(self) == next && r == Ok::<
                    SoldToken,
                    NottyTerminalError,
                >(event),
                Err(e) => *final(self) == *old(self) && r == Err::<SoldToken, NottyTerminalError>(
                    e,
                ),
            },
    {
        if self.token_state.migrated {
            return Err(NottyTerminalError::AlreadyGraduated);
        }
        if !(self.platform_sol_vault == self.global_state.vault) {
            return Err(NottyTerminalError::WrongVault);
        }
        let amount = args.amount;
        if self.user_token_balance < amount {
            return Err(NottyTerminalError::InsufficientTokenBalance);
        }
        let base_proceeds = self.get_current_sell_price(amount)?;
        let fee = trading_fee(base_proceeds, self.global_state.trading_fee_bps);
        let net_proceeds = base_proceeds - fee;
        if net_proceeds < args.min_proceeds {
            return Err(NottyTerminalError::SlippageExceeded);
        }
        if self.sol_vault_lamports < base_proceeds {
            return Err(NottyTerminalError::InsufficientVaultBalance);
        }
        if base_proceeds > self.token_state.sol_raised {
            return Err(NottyTerminalError::NumericalUnderflow);
        }
        let fees = match self.global_state.total_fees_collected.checked_add(fee) {
            Some(v) => v,
            None => return Err(NottyTerminalError::NumericalOverflow),
        };
        let volume = match self.global_state.total_trading_volume.checked_add(base_proceeds) {
            Some(v) => v,
            None => return Err(NottyTerminalError::NumericalOverflow),
        };
        let sold = self.token_state.tokens_sold - amount;
        let current_price = buy_cost(&self.token_state.curve, sold, DECIMALS)?;
        self.token_state.tokens_sold = sold;
        self.token_state.sol_raised = self.token_state.sol_raised - base_proceeds;
        self.global_state.total_fees_collected = fees;
        self.global_state.total_trading_volume = volume;
        Ok(SoldToken {
            mint: self.token_state.mint,
            base_proceeds,
            trading_fee: fee,
            net_proceeds,
            amount_sold: amount,
            migrated: self.token_state.migrated,
            total_supply: self.token_state.total_supply,
            tokens_sold: self.token_state.tokens_sold,
            sol_raised: self.token_state.sol_raised,
            current_price,
            seller: self.user,
            timestamp: self.timestamp,
        })
    }
}

/// One trade against a sale.
#[derive(Clone, Copy, Debug)]
pub enum Trade {
    Buy(PurchaseTokenArgs, PoolTarget),
    Sell(SellTokenArgs),
}

/// The records after `trade`: the next records if it succeeds, the same
/// records if it is rejected.
pub open spec fn apply_trade(ti: TokenInteraction, trade: Trade) -> TokenInteraction {
    match trade {
        Trade::Buy(args, pool) => match purchase_outcome(ti, args, pool) {
            Ok((next, _, _)) => next,
            Err(_) => ti,
        },
        Trade::Sell(args) => match sell_outcome(ti, args) {
            Ok((next, _)) => next,
            Err(_) => ti,
        },
    }
}

/// The records after each of `trades` in turn.
pub open spec fn apply_trades(ti: TokenInteraction, trades: Seq<Trade>) -> TokenInteraction
    decreases trades.len(),
{
    if trades.len() == 0 {
        ti
    } else {
        apply_trades(apply_trade(ti, trades[0]), trades.drop_first())
    }
}

/// A purchase or a sale that succeeds keeps the records well formed.
pub proof fn lemma_trade_preserves_wf(ti: TokenInteraction, trade: Trade)
    requires
        ti.wf(),
    ensures
        apply_trade(ti, trade).wf(),
{
}

/// Whatever trades are attempted, in whatever order, the units sold stay
/// between zero and the minted supply, and the records stay well formed.
pub proof fn lemma_trades_conserve_supply(ti: TokenInteraction, trades: Seq<Trade>)
    requires
        ti.wf(),
    ensures
        apply_trades(ti, trades).wf(),
        0 <= apply_trades(ti, trades).token_state.tokens_sold
            <= apply_trades(ti, trades).token_state.supply_units(),
    decreases trades.len(),
{
    if trades.len() > 0 {
        lemma_trade_preserves_wf(ti, trades[0]);
        lemma_trades_conserve_supply(apply_trade(ti, trades[0]), trades.drop_first());
    }
}

/// Buying `n` units and then selling `n` units back leaves the units sold
/// where they were, fees and proceeds aside. The sale may read other balances
/// than the purchase did; only the sale record carries over.
pub proof fn lemma_buy_then_sell_restores_units_sold(
    ti: TokenInteraction,
    buy: PurchaseTokenArgs,
    pool: PoolTarget,
    later: TokenInteraction,
    sell: SellTokenArgs,
)
    requires
        ti.wf(),
        purchase_outcome(ti, buy, pool) is Ok,
        later.token_state == purchase_outcome(ti, buy, pool)->Ok_0.0.token_state,
        sell.amount == buy.amount,
        sell_outcome(later, sell) is Ok,
    ensures
        sell_outcome(later, sell)->Ok_0.0.token_state.tokens_sold == ti.token_state.tokens_sold,
{
    let bought = buy_step_outcome(ti, buy)->Ok_0.0.token_state;
    assert(bought.tokens_sold == ti.token_state.tokens_sold + buy.amount);
}

/// A sale that has graduated takes no more trades: every purchase and every
/// sale is rejected with `AlreadyGraduated` and leaves the records alone.
pub proof fn lemma_graduated_sale_rejects_trades(
    ti: TokenInteraction,
    buy: PurchaseTokenArgs,
    pool: PoolTarget,
    sell: SellTokenArgs,
)
    requires
        ti.token_state.migrated,
    ensures
        purchase_outcome(ti, buy, pool) == Err::<
            (TokenInteraction, PurchasedToken, Option<LaunchPlan>),
            NottyTerminalError,
        >(NottyTerminalError::AlreadyGraduated),
        sell_outcome(ti, sell) == Err::<(TokenInteraction, SoldToken), NottyTerminalError>(
            NottyTerminalError::AlreadyGraduated,
        ),
        apply_trade(ti, Trade::Buy(buy, pool)) == ti,
        apply_trade(ti, Trade::Sell(sell)) == ti,
{
}

/// A purchase never leaves a sale that meets its graduation rule open: after
/// a successful purchase the sale is either graduated or still short of its
/// rule.
pub proof fn lemma_no_ready_sale_left_open(
    ti: TokenInteraction,
    args: PurchaseTokenArgs,
    pool: PoolTarget,
)
    requires
        purchase_outcome(ti, args, pool) is Ok,
    ensures
        ({
            let next = purchase_outcome(ti, args, pool)->Ok_0.0;
            next.token_state.migrated || !next.token_state.migration_ready()
        }),
{
}

/// The market cap does not fall as units are sold: for a sale's curve and
/// supply and `s0 <= s1` units sold, whenever the cap at `s1` is in range,
/// the cap at `s0` is in range too and at most as large. This is what
/// `calculate_current_market_cap` returns for the two supplies.
pub proof fn lemma_market_cap_monotone(curve: Curve, total_supply: u64, s0: int, s1: int)
    requires
        curve.wf(),
        0 <= s0 <= s1,
        token_price(curve, s1) is Ok,
        token_price(curve, s1)->Ok_0 * total_supply <= u64::MAX,
    ensures
        token_price(curve, s0) is Ok,
        token_price(curve, s0)->Ok_0 * total_supply <= token_price(curve, s1)->Ok_0
            * total_supply,
{
    lemma_buy_quote_monotone(curve, s0, s1, DECIMALS as int);
    let p0 = token_price(curve, s0)->Ok_0;
    let p1 = token_price(curve, s1)->Ok_0;
    assert(p0 * total_supply <= p1 * total_supply) by (nonlinear_arith)
        requires
            p0 <= p1,
            0 <= total_supply,
    ;
}

} // verus!
