use vstd::prelude::*;

verus! {

/// Errors surfaced by the asset-transfer model when a single transfer leg
/// cannot be performed.
#[derive(Clone, Copy, Debug, PartialEq, Eq, Structural)]
pub enum TransferError {
    /// The source account does not hold enough of the asset.
    InsufficientBalance,
    /// One of the two accounts does not hold the asset being moved.
    AssetMismatch,
    /// One of the two accounts is frozen.
    AccountFrozen,
}

/// Errors surfaced by pool creation and by the swap engine.
#[derive(Clone, Copy, Debug, PartialEq, Eq, Structural)]
pub enum MockDefiError {
    /// The requested swap amount is zero.
    InvalidAmount,
    /// The destination reserve holds less than the requested amount.
    InsufficientLiquidity,
    /// The supplied authority account is not the re-derived pool authority.
    AuthorityMismatch,
    /// A pool record for the ordered asset pair already exists.
    DuplicatePool,
    /// No valid derived address exists in the bump space for the pool or its
    /// authority, so the pool's accounts cannot be allocated.
    AllocationFailed,
    /// A transfer leg failed; the whole swap is rolled back.
    Transfer(TransferError),
}

} // verus!
