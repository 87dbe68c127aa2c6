//! The failures an operation can report.

use vstd::prelude::*;

verus! {

/// Why an operation was refused. An operation that returns an error has
/// changed nothing.
#[derive(Clone, Copy, Debug, PartialEq, Eq, Structural)]
pub enum Error {
    /// No administrator has been set yet.
    NotInitialized,
    /// An administrator has been set already.
    AlreadyInitialized,
    /// The posted margin is below the requirement, or above the free collateral.
    InsufficientCollateral,
    /// The position would exceed the venue's size limit.
    PositionTooLarge,
    /// An amount or size is zero, has the wrong sign, or exceeds what is held.
    InvalidAmount,
    /// The position is adequately margined and cannot be liquidated.
    BelowMaintenanceMargin,
    /// The trader holds no position in the instrument.
    PositionNotFound,
    /// The caller is not the administrator.
    Unauthorized,
    /// The venue is paused.
    Paused,
    /// The oracle has no price for the instrument.
    OracleUnavailable,
    /// The oracle's price is older than the staleness bound.
    OracleStale,
    /// The instrument is not one the venue supports.
    InvalidSymbol,
    /// An amount is zero.
    ZeroAmount,
    /// Liquidator and trader are the same account.
    SelfLiquidation,
    /// The mark price is beyond the caller's limit price.
    SlippageExceeded,
    /// A value does not fit in 128 bits, or a division has no result.
    Overflow,
}

impl Error {
    /// The number that stands for this error on the wire, counting from 1 in
    /// the order of declaration.
    pub open spec fn spec_code(self) -> u32 {
        match self {
            Error::NotInitialized => 1,
            Error::AlreadyInitialized => 2,
            Error::InsufficientCollateral => 3,
            Error::PositionTooLarge => 4,
            Error::InvalidAmount => 5,
            Error::BelowMaintenanceMargin => 6,
            Error::PositionNotFound => 7,
            Error::Unauthorized => 8,
            Error::Paused => 9,
            Error::OracleUnavailable => 10,
            Error::OracleStale => 11,
            Error::InvalidSymbol => 12,
            Error::ZeroAmount => 13,
            Error::SelfLiquidation => 14,
            Error::SlippageExceeded => 15,
            Error::Overflow => 16,
        }
    }

    /// The number that stands for this error on the wire.
    pub fn code(&self) -> (c: u32)
        ensures
            c == self.spec_code(),
            1 <= c <= 16,
    {
        match self {
            Error::NotInitialized => 1,
            Error::AlreadyInitialized => 2,
            Error::InsufficientCollateral => 3,
            Error::PositionTooLarge => 4,
            Error::InvalidAmount => 5,
            Error::BelowMaintenanceMargin => 6,
            Error::PositionNotFound => 7,
            Error::Unauthorized => 8,
            Error::Paused => 9,
            Error::OracleUnavailable => 10,
            Error::OracleStale => 11,
            Error::InvalidSymbol => 12,
            Error::ZeroAmount => 13,
            Error::SelfLiquidation => 14,
            Error::SlippageExceeded => 15,
            Error::Overflow => 16,
        }
    }
}

} // verus!
