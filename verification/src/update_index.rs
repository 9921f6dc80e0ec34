use vstd::prelude::*;

use crate::errors::GorkError;
use crate::state::{GlobalState, Identity, INDEX_SCALE};

verus! {

/// Minimum seconds between two successful index updates.
pub const MIN_UPDATE_INTERVAL: i64 = 60;

/// Seconds in one rolling day.
pub const DAY_SECONDS: i64 = 86_400;

/// The rolling day has expired when at least [`DAY_SECONDS`] have passed
/// since its start.
pub open spec fn window_rolls(gs: GlobalState, now: i64) -> bool {
    now - gs.day_start_ts >= DAY_SECONDS
}

/// Today's distributed total as judged for a new distribution at `now`:
/// zero when the rolling day has expired, today's total otherwise. The
/// daily cap is checked after the roll, so a late update in a fresh
/// window is judged against the fresh cap.
pub open spec fn daily_base(gs: GlobalState, now: i64) -> int {
    if window_rolls(gs, now) {
        0
    } else {
        gs.daily_distributed as int
    }
}

/// Per-token index increase for distributing `amount` over `supply`
/// tokens: `floor(amount * INDEX_SCALE / supply)`. Truncation is
/// intentional; rounding error stays in the pool.
pub open spec fn index_delta(amount: u64, supply: u64) -> int
    recommends
        supply > 0,
{
    (amount as int) * (INDEX_SCALE as int) / (supply as int)
}

/// The first guard that a distribution of `amount` over `supply` at time
/// `now` by `caller` violates, or `None` when it is admissible.
pub open spec fn update_index_error(
    gs: GlobalState,
    caller: Identity,
    amount: u64,
    supply: u64,
    now: i64,
) -> Option<GorkError> {
    if caller != gs.keeper && caller != gs.admin {
        Some(GorkError::NotKeeper)
    } else if gs.paused {
        Some(GorkError::Paused)
    } else if amount == 0 {
        Some(GorkError::ZeroAmount)
    } else if gs.last_update_ts + MIN_UPDATE_INTERVAL > i64::MAX {
        Some(GorkError::MathOverflow)
    } else if now < gs.last_update_ts + MIN_UPDATE_INTERVAL {
        Some(GorkError::TooEarly)
    } else if amount > gs.max_per_minute {
        Some(GorkError::ExceedsMinuteCap)
    } else if now - gs.day_start_ts > i64::MAX || now - gs.day_start_ts < i64::MIN {
        Some(GorkError::MathOverflow)
    } else if daily_base(gs, now) + amount > u64::MAX {
        Some(GorkError::MathOverflow)
    } else if daily_base(gs, now) + amount > gs.max_per_day {
        Some(GorkError::ExceedsDailyCap)
    } else if supply == 0 {
        Some(GorkError::ZeroBalance)
    } else if gs.global_reward_index + index_delta(amount, supply) > u128::MAX {
        Some(GorkError::MathOverflow)
    } else {
        None
    }
}

/// The global record after a successful distribution of `amount` over
/// `supply` at time `now`.
pub open spec fn update_index_post(
    gs: GlobalState,
    amount: u64,
    supply: u64,
    now: i64,
) -> GlobalState {
    GlobalState {
        last_update_ts: now,
        global_reward_index: (gs.global_reward_index + index_delta(amount, supply)) as u128,
        daily_distributed: (daily_base(gs, now) + amount) as u64,
        day_start_ts: if window_rolls(gs, now) {
            now
        } else {
            gs.day_start_ts
        },
        ..gs
    }
}

/// Advance the global reward index: distribute `amount` over `supply`
/// tokens at time `now`, on behalf of `caller`.
///
/// The call is admitted only when the caller is the keeper or the admin,
/// the system is not paused, the amount is positive and within the
/// per-update cap, at least [`MIN_UPDATE_INTERVAL`] seconds have passed
/// since the last successful update, and the rolling-day total stays
/// within the daily cap. On success the index grows by
/// `floor(amount * INDEX_SCALE / supply)` and that delta is returned.
/// On rejection the record is left untouched: a guard failure aborts the
/// whole operation.
pub fn update_index(
    gs: &mut GlobalState,
    caller: Identity,
    amount_usdc: u64,
    supply: u64,
    now: i64,
) -> (result: Result<u128, GorkError>)
    ensures
        match result {
            Ok(delta) => {
                &&& update_index_error(*old(gs), caller, amount_usdc, supply, now) is None
                &&& delta == index_delta(amount_usdc, supply)
                &&& *final(gs) == update_index_post(*old(gs), amount_usdc, supply, now)
            },
            Err(e) => {
                &&& update_index_error(*old(gs), caller, amount_usdc, supply, now) == Some(e)
                &&& *final(gs) == *old(gs)
            },
        },
        old(gs).wf() ==> final(gs).wf(),
{
    if !(caller == gs.keeper || caller == gs.admin) {
        return Err(GorkError::NotKeeper);
    }
    if gs.paused {
        return Err(GorkError::Paused);
    }
    if amount_usdc == 0 {
        return Err(GorkError::ZeroAmount);
    }
    if gs.last_update_ts > i64::MAX - MIN_UPDATE_INTERVAL {
        return Err(GorkError::MathOverflow);
    }
    if now < gs.last_update_ts + MIN_UPDATE_INTERVAL {
        return Err(GorkError::TooEarly);
    }
    if amount_usdc > gs.max_per_minute {
        return Err(GorkError::ExceedsMinuteCap);
    }
    let day_elapsed: i128 = now as i128 - gs.day_start_ts as i128;
    if day_elapsed > i64::MAX as i128 || day_elapsed < i64::MIN as i128 {
        return Err(GorkError::MathOverflow);
    }
    let rolls: bool = day_elapsed >= DAY_SECONDS as i128;
    let base: u64 = if rolls {
        0
    } else {
        gs.daily_distributed
    };
    if base > u64::MAX - amount_usdc {
        return Err(GorkError::MathOverflow);
    }
    let new_daily: u64 = base + amount_usdc;
    if new_daily > gs.max_per_day {
        return Err(GorkError::ExceedsDailyCap);
    }
    if supply == 0 {
        return Err(GorkError::ZeroBalance);
    }
    assert((amount_usdc as int) * (INDEX_SCALE as int) <= (u64::MAX as int) * (INDEX_SCALE as int))
        by (nonlinear_arith)
        requires
            amount_usdc <= u64::MAX,
    ;
    let scaled: u128 = (amount_usdc as u128) * INDEX_SCALE;
    let delta: u128 = scaled / (supply as u128);
    if gs.global_reward_index > u128::MAX - delta {
        return Err(GorkError::MathOverflow);
    }
    gs.global_reward_index = gs.global_reward_index + delta;
    gs.daily_distributed = new_daily;
    if rolls {
        gs.day_start_ts = now;
    }
    gs.last_update_ts = now;
    Ok(delta)
}

/// A u64 read little-endian from the eight bytes of `s` that start at
/// `lo`.
pub open spec fn le_u64_at(s: Seq<u8>, lo: int) -> int
    recommends
        0 <= lo,
        lo + 8 <= s.len(),
{
    s[lo] + s[lo + 1] * 0x100 + s[lo + 2] * 0x1_0000 + s[lo + 3] * 0x100_0000 + s[lo + 4]
        * 0x1_0000_0000 + s[lo + 5] * 0x100_0000_0000 + s[lo + 6] * 0x1_0000_0000_0000 + s[lo + 7]
        * 0x100_0000_0000_0000
}

/// Circulating supply read from a raw SPL mint record: the 64-bit
/// little-endian integer at bytes 36..44 of the account data.
pub fn supply_from_mint_bytes(data: &[u8]) -> (supply: u64)
    requires
        data@.len() >= 44,
    ensures
        supply == le_u64_at(data@, 36),
{
    let b0 = data[36] as u64;
    let b1 = data[37] as u64;
    let b2 = data[38] as u64;
    let b3 = data[39] as u64;
    let b4 = data[40] as u64;
    let b5 = data[41] as u64;
    let b6 = data[42] as u64;
    let b7 = data[43] as u64;
    b0 + b1 * 0x100 + b2 * 0x1_0000 + b3 * 0x100_0000 + b4 * 0x1_0000_0000 + b5 * 0x100_0000_0000
        + b6 * 0x1_0000_0000_0000 + b7 * 0x100_0000_0000_0000
}

} // verus!
