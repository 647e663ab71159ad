//! Bonding-curve sale engine: pricing, fees, sale lifecycle and the
//! graduation decision of a token launch, as pure state transitions over
//! plain records. Moving lamports and tokens, and creating the pool, is left
//! to the caller, which acts on the amounts these functions return.
//!
//! Fixed choices:
//! - a sale is priced by the curve it was created with (`state::Curve`);
//! - a sell is quoted as the buy of the same units, from `sold - n` to
//!   `sold`, less `pricing::SELL_DISCOUNT_BPS`, so buying and selling back
//!   never gains;
//! - a sale graduates when its units sold reach the threshold (square-root
//!   curve) or its lamports raised reach the target (linear curves), checked
//!   after each purchase and again by `launch::migrate_to_raydium`;
//! - every operation either returns its records updated or an error with the
//!   records untouched.
pub mod arith;
pub mod create_token;
pub mod error;
pub mod fees;
pub mod initialize;
pub mod launch;
pub mod pricing;
pub mod state;
pub mod trade;
