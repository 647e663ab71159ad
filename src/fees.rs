//! Trading fees.
use vstd::prelude::*;

use crate::pricing::BPS_DENOMINATOR;

verus! {

/// The fee on `gross` at `bps` basis points, rounded down.
pub open spec fn fee_of(gross: int, bps: int) -> int {
    gross * bps / BPS_DENOMINATOR as int
}

/// The fee on `gross` at `bps` basis points, rounded down; it never exceeds `gross`.
pub fn trading_fee(gross: u64, bps: u16) -> (r: u64)
    requires
        bps <= BPS_DENOMINATOR,
    ensures
        r == fee_of(gross as int, bps as int),
        r <= gross,
{
    assert(gross * bps <= gross * BPS_DENOMINATOR) by (nonlinear_arith)
        requires
            bps <= BPS_DENOMINATOR,
    ;
    let fee: u128 = (gross as u128 * bps as u128) / BPS_DENOMINATOR as u128;
    fee as u64
}

} // verus!
