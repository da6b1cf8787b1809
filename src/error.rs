use vstd::prelude::*;

verus! {

/// Reasons a message to the basket contract is refused.
#[derive(Clone, Copy, Debug, PartialEq, Eq, Structural)]
pub enum ContractError {
    /// The configuration record was read before it was ever saved.
    NotInitialized,
    /// The caller may not perform this operation in the current state.
    Unauthorized,
    /// A component's simulated swap could not be obtained.
    AggregationFailure,
    /// The aggregated basket price is zero, so no multiplier exists.
    InvalidPrice,
    /// An amount does not fit in 128 bits.
    Overflow,
    /// A basket must hold at least one component.
    EmptyBasket,
}

} // verus!
