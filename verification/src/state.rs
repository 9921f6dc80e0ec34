use vstd::prelude::*;

verus! {

/// Scaling factor for reward-index arithmetic: the index counts reward
/// units distributed per token of supply, in units of 1 / `INDEX_SCALE`.
pub const INDEX_SCALE: u128 = 1_000_000_000_000;

/// A 32-byte on-chain address, held as four little-endian 64-bit words.
///
/// The core only ever compares identities for equality, against the
/// stored admin, keeper and owner fields.
#[derive(Clone, Copy, PartialEq, Eq, Structural, Debug)]
pub struct Identity {
    pub w0: u64,
    pub w1: u64,
    pub w2: u64,
    pub w3: u64,
}

/// Global program state — one record per deployment.
#[derive(Clone, Copy, PartialEq, Eq, Structural, Debug)]
pub struct GlobalState {
    /// May pause, unpause and reconfigure the caps.
    pub admin: Identity,
    /// May advance the reward index (besides the admin).
    pub keeper: Identity,
    /// When true, index updates and claims are blocked.
    pub paused: bool,
    /// Time of the last successful index advancement, in seconds.
    pub last_update_ts: i64,
    /// Monotonically non-decreasing reward index, scaled by
    /// [`INDEX_SCALE`]: cumulative payout per token of supply.
    pub global_reward_index: u128,
    /// Mint address of the reward asset.
    pub usdc_mint: Identity,
    /// Custodial vault that holds the reward asset for distribution.
    pub reward_vault: Identity,
    /// Cap on the amount a single index update may distribute.
    pub max_per_minute: u64,
    /// Cap on the amount distributed within one rolling day.
    pub max_per_day: u64,
    /// Amount distributed so far in the current rolling day.
    pub daily_distributed: u64,
    /// Start of the current rolling day, in seconds.
    pub day_start_ts: i64,
    /// Address-derivation marker; not semantically meaningful.
    pub bump: u8,
}

impl GlobalState {
    /// Configuration well-formedness: the caps are usable. Established
    /// at creation and preserved by every operation.
    pub open spec fn wf(self) -> bool {
        self.max_per_minute > 0 && self.max_per_day >= self.max_per_minute
    }
}

/// Per-user reward tracking state — one record per holder.
#[derive(Clone, Copy, PartialEq, Eq, Structural, Debug)]
pub struct UserState {
    /// Wallet this record belongs to.
    pub owner: Identity,
    /// Snapshot of the global reward index at the last settlement.
    pub user_index: u128,
    /// Accrued amount not yet transferred out.
    pub pending_rewards: u64,
    /// Address-derivation marker; not semantically meaningful.
    pub bump: u8,
}

impl UserState {
    /// A user record is consistent with a global index when its
    /// snapshot does not run ahead of it.
    pub open spec fn consistent_with(self, global_index: u128) -> bool {
        self.user_index <= global_index
    }
}

} // verus!
