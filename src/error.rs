//! Error kinds of the sale engine.
use vstd::prelude::*;

verus! {

/// The step of a price computation whose value left its range.
#[derive(Clone, Copy, Debug, PartialEq, Eq, Structural)]
pub enum PriceCalculationError {
    /// Remaining supply: total supply less the units sold.
    SupplyOverflow,
    /// Slope (or price range) times the current supply term.
    SlopeSupplyOverflow,
    /// Base price plus the slope term.
    PricePerTokenOverflow,
    /// The linear part of a cost: trade size times price.
    LinearCostOverflow,
    /// The quadratic inner term `sold * n + n * n / 2`.
    NSquaredOverflow,
    /// Slope times the quadratic inner term.
    QuadraticSlopeOverflow,
    /// The quadratic part after division by the decimal factor.
    QuadraticDivisionOverflow,
    /// Linear part plus quadratic part.
    FinalSumOverflow,
}

/// Every way an operation of the engine can be rejected.
#[derive(Clone, Copy, Debug, PartialEq, Eq, Structural)]
pub enum NottyTerminalError {
    InsufficientFunds,
    VaultInsufficientSol,
    NumericalOverflow,
    NumericalUnderflow,
    AlreadyMigrated,
    TargetNotReached,
    ExceedsSupply,
    SlippageExceeded,
    InvalidAmount,
    SoldOut,
    InsufficientTokensSold,
    AlreadyGraduated,
    NotGraduated,
    UnauthorizedAdmin,
    InsufficientFeeVaultBalance,
    InsufficientVaultBalance,
    InsufficientTokenBalance,
    InvalidTradingFee,
    InvalidMigrationFee,
    InvalidCurve,
    WrongVault,
    WrongCreator,
    WrongMint,
    /// A price computation left its range at the given step.
    PriceCalculation(PriceCalculationError),
}

} // verus!
