use vstd::prelude::*;

verus! {

/// Why an instruction of the pool is refused.
#[derive(Clone, Copy, Debug, PartialEq, Eq, Structural)]
pub enum AmmError {
    /// The amount was zero, or a fee is not below one whole in basis points.
    InvalidAmount,
    /// The pool's emergency switch is set.
    PoolLocked,
    /// An output fell below, or a required input rose above, the caller's bound.
    SlippageExceeded,
    /// The caller does not hold enough LP tokens.
    InsufficientFunds,
}

impl AmmError {
    /// The message that the program reports with this error.
    pub fn msg(&self) -> (m: &'static str)
        ensures
            *self == AmmError::InvalidAmount ==> m@ == "Amount cannot be zero"@,
            *self == AmmError::PoolLocked ==> m@ == "Pool is locked"@,
            *self == AmmError::SlippageExceeded ==> m@ == "Slippage tolerance exceeded"@,
            *self == AmmError::InsufficientFunds ==> m@ == "Insufficient LP token balance"@,
    {
        match self {
            AmmError::InvalidAmount => "Amount cannot be zero",
            AmmError::PoolLocked => "Pool is locked",
            AmmError::SlippageExceeded => "Slippage tolerance exceeded",
            AmmError::InsufficientFunds => "Insufficient LP token balance",
        }
    }
}

} // verus!
