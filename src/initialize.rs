//! Creating the platform record.
use vstd::prelude::*;

use crate::error::NottyTerminalError;
use crate::state::{GlobalState, Pubkey, MAX_MIGRATION_FEE_LAMPORT, MAX_TRADING_FEE_BPS};

verus! {

#[derive(Clone, Copy, Debug)]
pub struct InitializeArgs {
    pub listing_fee_lamport: u64,
    pub trading_fee_bps: u16,
    pub migration_fee_lamport: u64,
}

/// What initialization reads: the administrator, the platform vault and the
/// bump seeds the host derived for the vault and the platform record.
#[derive(Clone, Copy, Debug)]
pub struct InitializeGlobalState {
    pub admin: Pubkey,
    pub vault: Pubkey,
    pub vault_bump: u8,
    pub global_state_bump: u8,
}

impl InitializeGlobalState {
    /// The platform record that initialization with `args` creates.
    pub open spec fn initial_state(self, args: InitializeArgs) -> GlobalState {
        GlobalState {
            admin: self.admin,
            vault: self.vault,
            vault_bump: self.vault_bump,
            bump: self.global_state_bump,
            listing_fee_lamport: args.listing_fee_lamport,
            trading_fee_bps: args.trading_fee_bps,
            migration_fee_lamport: args.migration_fee_lamport,
            total_tokens_created: 0,
            total_fees_collected: 0,
            total_trading_volume: 0,
            total_migrations: 0,
        }
    }

    /// Creates the platform record with zeroed counters, after checking that
    /// the trading fee is at most 10% and the migration fee at most 1 SOL.
    pub fn handle_initialize(&self, args: InitializeArgs) -> (r: Result<
        GlobalState,
        NottyTerminalError,
    >)
        ensures
            args.trading_fee_bps > MAX_TRADING_FEE_BPS ==> r == Err::<
                GlobalState,
                NottyTerminalError,
            >(NottyTerminalError::InvalidTradingFee),
            args.trading_fee_bps <= MAX_TRADING_FEE_BPS && args.migration_fee_lamport
                > MAX_MIGRATION_FEE_LAMPORT ==> r == Err::<GlobalState, NottyTerminalError>(
                NottyTerminalError::InvalidMigrationFee,
            ),
            args.trading_fee_bps <= MAX_TRADING_FEE_BPS && args.migration_fee_lamport
                <= MAX_MIGRATION_FEE_LAMPORT ==> r == Ok::<GlobalState, NottyTerminalError>(
                self.initial_state(args),
            ),
            r matches Ok(g) ==> g.wf(),
    {
        if args.trading_fee_bps > MAX_TRADING_FEE_BPS {
            return Err(NottyTerminalError::InvalidTradingFee);
        }
        if args.migration_fee_lamport > MAX_MIGRATION_FEE_LAMPORT {
            return Err(NottyTerminalError::InvalidMigrationFee);
        }
        Ok(GlobalState {
            admin: self.admin,
            vault: self.vault,
            vault_bump: self.vault_bump,
            bump: self.global_state_bump,
            listing_fee_lamport: args.listing_fee_lamport,
            trading_fee_bps: args.trading_fee_bps,
            migration_fee_lamport: args.migration_fee_lamport,
            total_tokens_created: 0,
            total_fees_collected: 0,
            total_trading_volume: 0,
            total_migrations: 0,
        })
    }
}

} // verus!
