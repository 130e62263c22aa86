//! Failure kinds of the flash loan executor.

use vstd::prelude::*;

verus! {

/// Every way an operation of the executor can fail.
#[derive(Copy, Clone, Debug, PartialEq, Eq, Structural, PartialOrd, Ord)]
pub enum Error {
    /// The contract is already initialized.
    AlreadyInitialized,
    /// The caller is not the contract owner.
    Unauthorized,
    /// A nested call into the orchestration entry point was detected.
    ReentrancyGuard,
    /// The borrow amount is zero or negative.
    InvalidFlashLoanAmount,
    /// The pool cannot cover the loan.
    InsufficientLiquidity,
    /// A leg's realized output fell short of its tolerance-adjusted floor.
    SlippageExceeded,
    /// The venue selection is malformed.
    InvalidRoute,
    /// The venue rejected the swap.
    SwapFailed,
    /// The contract balance cannot cover the repayment.
    RepaymentFailed,
    /// The arbitrage produced no strictly positive net profit.
    NoProfitGenerated,
    /// The net profit is positive but under the caller's floor.
    ProfitBelowThreshold,
    /// The pool identifier is unknown.
    InvalidPoolAddress,
    /// The asset identifier is unknown.
    InvalidTokenAddress,
    /// Checked arithmetic left the representable range.
    ArithmeticOverflow,
    /// The contract is paused.
    ContractPaused,
    /// The withdrawal amount is not positive or exceeds the balance.
    InvalidWithdrawAmount,
}

impl Error {
    /// The numeric code under which the error is reported to the host.
    pub open spec fn spec_code(self) -> u32 {
        match self {
            Error::AlreadyInitialized => 1,
            Error::Unauthorized => 2,
            Error::ReentrancyGuard => 3,
            Error::InvalidFlashLoanAmount => 4,
            Error::InsufficientLiquidity => 5,
            Error::SlippageExceeded => 6,
            Error::InvalidRoute => 7,
            Error::SwapFailed => 8,
            Error::RepaymentFailed => 9,
            Error::NoProfitGenerated => 10,
            Error::ProfitBelowThreshold => 11,
            Error::InvalidPoolAddress => 12,
            Error::InvalidTokenAddress => 13,
            Error::ArithmeticOverflow => 14,
            Error::ContractPaused => 15,
            Error::InvalidWithdrawAmount => 16,
        }
    }

    /// The numeric code under which the error is reported to the host.
    pub fn code(self) -> (res: u32)
        ensures
            res == self.spec_code(),
            1 <= res <= 16,
    {
        match self {
            Error::AlreadyInitialized => 1,
            Error::Unauthorized => 2,
            Error::ReentrancyGuard => 3,
            Error::InvalidFlashLoanAmount => 4,
            Error::InsufficientLiquidity => 5,
            Error::SlippageExceeded => 6,
            Error::InvalidRoute => 7,
            Error::SwapFailed => 8,
            Error::RepaymentFailed => 9,
            Error::NoProfitGenerated => 10,
            Error::ProfitBelowThreshold => 11,
            Error::InvalidPoolAddress => 12,
            Error::InvalidTokenAddress => 13,
            Error::ArithmeticOverflow => 14,
            Error::ContractPaused => 15,
            Error::InvalidWithdrawAmount => 16,
        }
    }
}

} // verus!
