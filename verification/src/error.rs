use vstd::prelude::*;

verus! {

/// Every way a lifecycle transition, a query, or initialization can fail.
/// Each variant is both the local guard's verdict and the caller-visible
/// terminal result of the unit of work; nothing is retried or swallowed.
#[derive(Debug, PartialEq, Eq)]
pub enum ContractError {
    /// Failure surfaced by the hosting store or an external query service,
    /// propagated verbatim with context.
    Std(String),
    /// Caller does not hold the right-token required for the transition.
    Unauthorized,
    /// Initialization attempted against an already-registered issuance class.
    NftClassInUse,
    /// Attached funds absent, multiple, wrong denom, or wrong quantity.
    InvalidFunds,
    /// The contract identity lacks the required restricted, non-admin access
    /// grant over the marker account.
    InvalidMarkerPermissions,
    /// The marker account's balance is fragmented or attributed to more than
    /// one holder.
    InvalidMarkerHolding,
    /// Transition invoked while the pledge is not in the required source state.
    InvalidPledgeStatus,
    /// Referenced pledge identifier has no record.
    PledgeNotFound,
    /// A pledge record already exists under the given identifier.
    PledgeAlreadyExists,
}

} // verus!
