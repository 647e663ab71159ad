//! Opening the sale of a new token.
use vstd::prelude::*;

use crate::error::NottyTerminalError;
use crate::state::{Curve, GlobalState, Pubkey, TokenState, DECIMALS};
use crate::trade::same_key;

verus! {

#[derive(Clone, Debug)]
pub struct CreateTokenArgs {
    pub name: String,
    pub token_symbol: String,
    pub token_uri: String,
    /// Whole tokens to mint.
    pub total_supply: u64,
    /// Starting market cap in lamports.
    pub start_mcap: u64,
    /// Lamports raised at which the sale graduates (reserve-target curves).
    pub end_mcap: u64,
    pub curve: Curve,
}

/// Record of a created sale.
#[derive(Clone, Copy, Debug)]
pub struct TokenCreated {
    pub mint: Pubkey,
    pub initial_price_per_token: u64,
    pub migrated: bool,
    pub total_supply: u64,
    pub tokens_sold: u64,
    pub sol_raised: u64,
    pub start_mcap: u64,
    pub end_mcap: u64,
    pub creator: Pubkey,
    pub raydium_pool: Option<Pubkey>,
    pub migration_timestamp: i64,
}

/// A new sale: its record, the creation record, and what the host moves.
/// The creator pays `listing_fee_share` lamports to the platform vault and
/// the same again to the sale's vault, where they stay outside the lamports
/// raised, and `mint_amount` base units are minted to the sale's token vault.
#[derive(Clone, Copy, Debug)]
pub struct CreatedToken {
    pub token_state: TokenState,
    pub event: TokenCreated,
    pub listing_fee_share: u64,
    pub mint_amount: u64,
}

/// What creation reads: the creator, the new mint, the platform vault the
/// creator named, the bump seeds of the new accounts and the platform record
/// it updates.
#[derive(Clone, Copy, Debug)]
pub struct CreateToken {
    pub creator: Pubkey,
    pub creator_mint: Pubkey,
    pub vault: Pubkey,
    pub token_state_bump: u8,
    pub sol_vault_bump: u8,
    pub global_state: GlobalState,
}

/// The result of creating a sale: the updated context and the new sale, or
/// the error, checked in this order.
pub open spec fn create_outcome(ct: CreateToken, args: CreateTokenArgs) -> Result<
    (CreateToken, CreatedToken),
    NottyTerminalError,
> {
    let gs = ct.global_state;
    let units = args.total_supply * DECIMALS;
    if !same_key(ct.vault, gs.vault) {
        Err(NottyTerminalError::WrongVault)
    } else if !args.curve.wf() {
        Err(NottyTerminalError::InvalidCurve)
    } else if units > u64::MAX || units == 0 {
        Err(NottyTerminalError::NumericalOverflow)
    } else if gs.total_tokens_created + 1 > u64::MAX {
        Err(NottyTerminalError::NumericalOverflow)
    } else {
        let share = gs.listing_fee_lamport / 2;
        let price = args.start_mcap as int / units;
        let ts = TokenState {
            bump: ct.token_state_bump,
            migrated: false,
            mint: ct.creator_mint,
            initial_price_per_token: price as u64,
            sol_raised: 0,
            tokens_sold: 0,
            total_supply: args.total_supply,
            sol_vault_bump: ct.sol_vault_bump,
            start_mcap: args.start_mcap,
            target_sol: args.end_mcap,
            raydium_pool: None,
            migration_timestamp: 0,
            creator: ct.creator,
            curve: args.curve,
        };
        let event = TokenCreated {
            mint: ct.creator_mint,
            initial_price_per_token: price as u64,
            migrated: false,
            total_supply: args.total_supply,
            tokens_sold: 0,
            sol_raised: 0,
            start_mcap: args.start_mcap,
            end_mcap: args.end_mcap,
            creator: ct.creator,
            raydium_pool: None,
            migration_timestamp: 0,
        };
        let next = CreateToken {
            global_state: GlobalState {
                total_tokens_created: (gs.total_tokens_created + 1) as u64,
                ..gs
            },
            ..ct
        };
        Ok(
            (
                next,
                CreatedToken {
                    token_state: ts,
                    event,
                    listing_fee_share: share as u64,
                    mint_amount: units as u64,
                },
            ),
        )
    }
}

impl CreateToken {
    /// Opens a sale of `args.total_supply` whole tokens on `args.curve`, with
    /// nothing sold or raised. Half the listing fee goes to the platform, the
    /// other half to the sale's vault; neither counts as raised.
    pub fn handle_create_token(&mut self, args: &CreateTokenArgs) -> (r: Result<
        CreatedToken,
        NottyTerminalError,
    >)
        requires
            old(self).global_state.wf(),
        ensures
            final(self).global_state.wf(),
            r matches Ok(c) ==> c.token_state.wf(),
            match create_outcome(*old(self), *args) {
                Ok((next, created)) => *final(self) == next && r == Ok::<
                    CreatedToken,
                    NottyTerminalError,
                >(created),
                Err(e) => *final(self) == *old(self) && r == Err::<
                    CreatedToken,
                    NottyTerminalError,
                >(e),
            },
    {
        if !(self.vault == self.global_state.vault) {
            return Err(NottyTerminalError::WrongVault);
        }
        if !args.curve.is_valid() {
            return Err(NottyTerminalError::InvalidCurve);
        }
        let units: u64 = match args.total_supply.checked_mul(DECIMALS) {
            Some(v) => v,
            None => return Err(NottyTerminalError::NumericalOverflow),
        };
        let initial_price_per_token: u64 = match args.start_mcap.checked_div(units) {
            Some(v) => v,
            None => return Err(NottyTerminalError::NumericalOverflow),
        };
        let created = match self.global_state.total_tokens_created.checked_add(1) {
            Some(v) => v,
            None => return Err(NottyTerminalError::NumericalOverflow),
        };
        let share: u64 = self.global_state.listing_fee_lamport / 2;
        self.global_state.total_tokens_created = created;
        let token_state = TokenState {
            bump: self.token_state_bump,
            migrated: false,
            mint: self.creator_mint,
            initial_price_per_token,
            sol_raised: 0,
            tokens_sold: 0,
            total_supply: args.total_supply,
            sol_vault_bump: self.sol_vault_bump,
            start_mcap: args.start_mcap,
            target_sol: args.end_mcap,
            raydium_pool: None,
            migration_timestamp: 0,
            creator: self.creator,
            curve: args.curve,
        };
        let event = TokenCreated {
            mint: self.creator_mint,
            initial_price_per_token,
            migrated: false,
            total_supply: args.total_supply,
            tokens_sold: 0,
            sol_raised: 0,
            start_mcap: args.start_mcap,
            end_mcap: args.end_mcap,
            creator: self.creator,
            raydium_pool: None,
            migration_timestamp: 0,
        };
        Ok(CreatedToken { token_state, event, listing_fee_share: share, mint_amount: units })
    }
}

} // verus!
