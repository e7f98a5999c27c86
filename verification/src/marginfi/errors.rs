//! The ways in which decoding, price resolution and valuation fail.

use vstd::prelude::*;

verus! {

/// Why a buffer could not be read as an account record.
#[derive(Clone, Copy, Debug, PartialEq, Eq, Structural)]
pub enum DecodeError {
    /// Fewer bytes than the type tag and the record take together.
    BufferTooShort,
    /// More bytes than the type tag and the record take together.
    SizeMismatch,
    /// The buffer does not start with the expected type tag.
    DiscriminatorMismatch,
}

/// Why a chain of fixed-point operations gave no number.
#[derive(Clone, Copy, Debug, PartialEq, Eq, Structural)]
pub enum ArithmeticError {
    /// A result left the representable range.
    Overflow,
    /// A divisor was zero.
    DivisionByZero,
}

/// Why no price could be had from a bank's oracle, or an arithmetic step
/// left the representable range.
#[derive(Clone, Copy, Debug, PartialEq, Eq, Structural)]
pub enum MarginfiError {
    /// A fixed-point operation overflowed or divided by zero.
    MathError,
    /// The bank names no oracle.
    OracleNotSetup,
    /// The bank names an oracle kind that is no longer served, or one that
    /// this crate does not know.
    Deprecated,
    /// The accounts supplied do not belong to the bank's oracle kind.
    MissingOracleAccount,
    /// A bank with a fixed price has a negative one.
    FixedOraclePriceNegative,
    /// The account is not a Pyth price update.
    PythPushInvalidAccount,
    /// The price update was not verified by enough guardians.
    PythPushInsufficientVerificationLevel,
    /// The price update is older than the bank allows.
    PythPushStalePrice,
    /// The account is not a Switchboard pull feed.
    SwitchboardInvalidAccount,
    /// The feed was last updated longer ago than the bank allows.
    SwitchboardStalePrice,
    /// The confidence interval is wider than the bank allows.
    OracleMaxConfidenceExceeded,
    /// The liquid staking token has no supply, so it has no price.
    ZeroSupplyInStakePool,
    /// An auxiliary account could not be read.
    AccountDidNotDeserialize,
}

/// The side of a position.
#[derive(Clone, Copy, Debug, PartialEq, Eq, Structural)]
pub enum BalanceSide {
    Assets,
    Liabilities,
}

/// What went wrong while valuing one position.
#[derive(Clone, Copy, Debug, PartialEq, Eq, Structural)]
pub enum HealthErrorKind {
    /// No bank was supplied under the position's bank key.
    MissingBank,
    /// No price feed was supplied under the position's bank key.
    MissingFeed,
    /// A fixed-point step of the valuation overflowed.
    Arithmetic,
    /// The bank's oracle gave no price.
    Oracle(MarginfiError),
}

/// A failed valuation: what went wrong, and at which position of the
/// account (counted among the positions that were valued) and on which side.
#[derive(Clone, Copy, Debug, PartialEq, Eq, Structural)]
pub struct HealthError {
    pub kind: HealthErrorKind,
    pub position: usize,
    pub side: BalanceSide,
}

} // verus!
