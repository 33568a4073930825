//! Why a call is refused.

use vstd::prelude::*;

verus! {

/// The reasons for which a call is refused.
#[derive(Copy, Clone, Debug, Eq, PartialEq, PartialOrd, Ord, Structural)]
pub enum InsuranceError {
    AlreadyInitialized,
    NotInitialized,
    /// The caller does not hold the role that the call asks for, or the call came in while
    /// another one was moving tokens.
    Unauthorized,
    ContractPaused,
    InvalidAmount,
    InvalidCoverageBps,
    InvalidPremiumConfig,
    InvalidMinCoverageRatio,
    /// Selling this coverage would push the coverage ratio below the configured floor.
    CoverageRatioFloorBreached,
    AlreadyCovered,
    NoCoverageFound,
    /// The invoice contract does not (yet) report this invoice as defaulted.
    InvoiceNotDefaulted,
    /// Collateral recovery already covers what is owed; nothing to claim.
    NoShortfall,
    /// The coverage has already paid its one claim.
    AlreadyClaimed,
    AmountOverflow,
    FundedInvoiceNotFound,
    PoolCallFailed,
    /// The reserve holds nothing to pay a claim with.
    InsufficientReserves,
}

impl InsuranceError {
    /// The number under which the error is reported on chain.
    pub open spec fn spec_code(self) -> u32 {
        match self {
            InsuranceError::AlreadyInitialized => 0,
            InsuranceError::NotInitialized => 1,
            InsuranceError::Unauthorized => 2,
            InsuranceError::ContractPaused => 3,
            InsuranceError::InvalidAmount => 4,
            InsuranceError::InvalidCoverageBps => 5,
            InsuranceError::InvalidPremiumConfig => 6,
            InsuranceError::InvalidMinCoverageRatio => 7,
            InsuranceError::CoverageRatioFloorBreached => 8,
            InsuranceError::AlreadyCovered => 9,
            InsuranceError::NoCoverageFound => 10,
            InsuranceError::InvoiceNotDefaulted => 11,
            InsuranceError::NoShortfall => 12,
            InsuranceError::AlreadyClaimed => 13,
            InsuranceError::AmountOverflow => 14,
            InsuranceError::FundedInvoiceNotFound => 15,
            InsuranceError::PoolCallFailed => 16,
            InsuranceError::InsufficientReserves => 17,
        }
    }

    /// The number under which the error is reported on chain.
    pub fn code(self) -> (r: u32)
        ensures
            r == self.spec_code(),
    {
        match self {
            InsuranceError::AlreadyInitialized => 0,
            InsuranceError::NotInitialized => 1,
            InsuranceError::Unauthorized => 2,
            InsuranceError::ContractPaused => 3,
            InsuranceError::InvalidAmount => 4,
            InsuranceError::InvalidCoverageBps => 5,
            InsuranceError::InvalidPremiumConfig => 6,
            InsuranceError::InvalidMinCoverageRatio => 7,
            InsuranceError::CoverageRatioFloorBreached => 8,
            InsuranceError::AlreadyCovered => 9,
            InsuranceError::NoCoverageFound => 10,
            InsuranceError::InvoiceNotDefaulted => 11,
            InsuranceError::NoShortfall => 12,
            InsuranceError::AlreadyClaimed => 13,
            InsuranceError::AmountOverflow => 14,
            InsuranceError::FundedInvoiceNotFound => 15,
            InsuranceError::PoolCallFailed => 16,
            InsuranceError::InsufficientReserves => 17,
        }
    }
}

} // verus!
