use vstd::prelude::*;

verus! {

/// Every failure a core operation can raise.
///
/// Each error is terminal for the operation that raised it: a guard
/// failure aborts the whole operation and no state change is committed.
#[derive(Clone, Copy, PartialEq, Eq, Structural, Debug)]
pub enum GorkError {
    /// The program is currently paused.
    Paused,
    /// Caller is not the admin.
    NotAdmin,
    /// Caller is neither the keeper nor the admin.
    NotKeeper,
    /// The minimum interval since the last index update has not elapsed.
    TooEarly,
    /// Amount exceeds the per-update cap.
    ExceedsMinuteCap,
    /// Amount exceeds the rolling daily distribution cap.
    ExceedsDailyCap,
    /// No rewards available to claim.
    NothingToClaim,
    /// Arithmetic would wrap, which would fabricate or lose value.
    MathOverflow,
    /// The vault holds less than the accounted liability.
    InsufficientVaultBalance,
    /// Amount must be greater than zero.
    ZeroAmount,
    /// Supply or balance is zero where a positive value is required.
    ZeroBalance,
}

} // verus!
