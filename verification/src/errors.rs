//! The ways in which an operation can be refused.

use vstd::prelude::*;

verus! {

/// Why an operation was aborted. Nothing has changed when one of these is
/// returned.
#[derive(Clone, Copy, Debug, PartialEq, Eq, Structural)]
pub enum ErrorCode {
    /// Provider has Insufficient Liquidity
    InsufficientLiquidityProvided,
    /// Reserve does not have enough liquidity
    InsufficientLiquidityPresent,
    /// Provider does not have enough liquidity tokens
    InsufficientLiquidityTokens,
    /// Trader has insufficient token balance
    InsufficientTokenBalance,
    /// Amount deposited cannot be zero
    DepositAmountIsZero,
    /// Insufficient amount will be returned
    InsufficientReturnedAmount,
    /// A product or sum left the 64-bit range, or a divisor was zero
    ArithmeticFailure,
}

impl ErrorCode {
    /// The text that goes with each code.
    pub open spec fn spec_message(self) -> Seq<char> {
        match self {
            ErrorCode::InsufficientLiquidityProvided => "Provider has Insufficient Liquidity"@,
            ErrorCode::InsufficientLiquidityPresent => "Reserve does not have enough liquidity"@,
            ErrorCode::InsufficientLiquidityTokens => "Provider does not have enough liquidity tokens"@,
            ErrorCode::InsufficientTokenBalance => "Trader has insufficient token balance"@,
            ErrorCode::DepositAmountIsZero => "Amount deposited cannot be zero"@,
            ErrorCode::InsufficientReturnedAmount => "Insufficient amount will be returned"@,
            ErrorCode::ArithmeticFailure => "Arithmetic overflowed or divided by zero"@,
        }
    }

    /// The human-readable message of this code.
    pub fn message(&self) -> (text: &'static str)
        ensures
            text@ == self.spec_message(),
    {
        match self {
            ErrorCode::InsufficientLiquidityProvided => "Provider has Insufficient Liquidity",
            ErrorCode::InsufficientLiquidityPresent => "Reserve does not have enough liquidity",
            ErrorCode::InsufficientLiquidityTokens => "Provider does not have enough liquidity tokens",
            ErrorCode::InsufficientTokenBalance => "Trader has insufficient token balance",
            ErrorCode::DepositAmountIsZero => "Amount deposited cannot be zero",
            ErrorCode::InsufficientReturnedAmount => "Insufficient amount will be returned",
            ErrorCode::ArithmeticFailure => "Arithmetic overflowed or divided by zero",
        }
    }
}

} // verus!
