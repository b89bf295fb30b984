//! Error kinds of the fund engine.

use vstd::prelude::*;

verus! {

/// Why an operation of the fund was refused. No operation changes anything
/// when it returns one of these.
#[derive(Clone, Copy, Debug, PartialEq, Eq, Structural)]
pub enum SaturnFundError {
    /// A balance is smaller than the amount asked of it.
    InsufficientFunds,
    /// A venue trade returned less than the tolerated minimum.
    SlippageExceeded,
    /// The caller is not the principal that the operation requires.
    Unauthorized,
    /// A percentage, or a sum of percentages, is above 100.
    InvalidPercentage,
    /// A quotient was asked for with a zero denominator.
    DivisionByZero,
    /// Account data does not have the shape that the operation expects.
    InvalidAccountData,
    /// The instruction bytes name no operation, or an instruction cannot be
    /// built from the values given.
    InvalidInstructionData,
    /// An instruction was asked of a program that does not define it.
    IncorrectProgramId,
    /// No holding or account is recorded for an asset.
    AccountNotFound,
    /// The fund has no allocation policy yet.
    PolicyUnset,
    /// Settlement would leave the liquid reserve under the baseline.
    BelowBaseline,
    /// A share or fee computation does not fit in 64 bits.
    Overflow,
    /// The fund's total value does not fit in 64 bits.
    ValueOverflow,
    /// A price record is too short or older than the freshness bound.
    StaleOrMalformedFeed,
    /// The trading venue reported a failure.
    VenueCallFailed,
    /// The liquid reserve is short of what a redemption owes, by `shortfall`.
    PartialRedemptionShortfall { shortfall: u64 },
}

/// The class that an error belongs to.
#[derive(Clone, Copy, Debug, PartialEq, Eq, Structural)]
pub enum ErrorKind {
    InputError,
    StateError,
    ArithmeticError,
    ExternalError,
    AuthorizationError,
}

impl SaturnFundError {
    /// The class of this error.
    pub open spec fn spec_kind(self) -> ErrorKind {
        match self {
            SaturnFundError::InvalidPercentage
            | SaturnFundError::DivisionByZero
            | SaturnFundError::InvalidAccountData
            | SaturnFundError::InvalidInstructionData
            | SaturnFundError::IncorrectProgramId
            | SaturnFundError::AccountNotFound => ErrorKind::InputError,
            SaturnFundError::PolicyUnset
            | SaturnFundError::BelowBaseline
            | SaturnFundError::InsufficientFunds
            | SaturnFundError::PartialRedemptionShortfall { .. } => ErrorKind::StateError,
            SaturnFundError::Overflow | SaturnFundError::ValueOverflow => ErrorKind::ArithmeticError,
            SaturnFundError::StaleOrMalformedFeed
            | SaturnFundError::VenueCallFailed
            | SaturnFundError::SlippageExceeded => ErrorKind::ExternalError,
            SaturnFundError::Unauthorized => ErrorKind::AuthorizationError,
        }
    }

    /// Classifies the error.
    pub fn kind(&self) -> (k: ErrorKind)
        ensures
            k == self.spec_kind(),
    {
        match self {
            SaturnFundError::InvalidPercentage
            | SaturnFundError::DivisionByZero
            | SaturnFundError::InvalidAccountData
            | SaturnFundError::InvalidInstructionData
            | SaturnFundError::IncorrectProgramId
            | SaturnFundError::AccountNotFound => ErrorKind::InputError,
            SaturnFundError::PolicyUnset
            | SaturnFundError::BelowBaseline
            | SaturnFundError::InsufficientFunds
            | SaturnFundError::PartialRedemptionShortfall { .. } => ErrorKind::StateError,
            SaturnFundError::Overflow | SaturnFundError::ValueOverflow => ErrorKind::ArithmeticError,
            SaturnFundError::StaleOrMalformedFeed
            | SaturnFundError::VenueCallFailed
            | SaturnFundError::SlippageExceeded => ErrorKind::ExternalError,
            SaturnFundError::Unauthorized => ErrorKind::AuthorizationError,
        }
    }
}

} // verus!
