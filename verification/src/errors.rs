use vstd::prelude::*;

verus! {

/// Typed failures of the instruction handlers. Every failure aborts the whole
/// instruction; the host transaction reverts all effects, so an `Err` result
/// always comes with an unchanged account state.
#[derive(Clone, Copy, Debug, PartialEq, Eq, Structural)]
pub enum ErrorCode {
    /// The funding-raise tier selector names no tier.
    InvalidFundingRaiseTier,
    /// Arithmetic on supply or fee amounts overflowed or underflowed.
    CalculationError,
    /// Pool creation was asked for before the launch reached `Succeed`.
    OnlyCreatePoolWhenLaunchSuccess,
}

} // verus!
