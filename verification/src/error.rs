//! The failures an operation of the ledger can report.

use vstd::prelude::*;

verus! {

/// Why an operation was refused. A refused operation leaves the ledger as it was.
#[derive(Clone, Copy, Debug, PartialEq, Eq, Structural)]
pub enum LedgerError {
    /// The token, pool or loan referred to is not in its registry.
    NotFound,
    /// The invoker is not the owner of the ledger.
    Unauthorized,
    /// The requested amount is below the pool's minimum loan amount.
    AmountTooSmall,
    /// The requested amount is above the pool's maximum loan amount.
    AmountTooLarge,
    /// The requested amount exceeds the pool's available liquidity.
    InsufficientLiquidity,
}

} // verus!
