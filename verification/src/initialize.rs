use vstd::prelude::*;

use crate::errors::GorkError;
use crate::state::{GlobalState, Identity};

verus! {

/// Create the global record, once per deployment, at time `now`.
///
/// The caps must be usable: a zero per-update cap, or a daily cap below
/// the per-update cap, is rejected. The keeper defaults to the admin;
/// the operator assigns a dedicated keeper through the configuration
/// update before going live. The index starts at zero and the rolling
/// day starts at creation time.
pub fn initialize_global(
    admin: Identity,
    usdc_mint: Identity,
    reward_vault: Identity,
    max_per_minute: u64,
    max_per_day: u64,
    now: i64,
    bump: u8,
) -> (result: Result<GlobalState, GorkError>)
    ensures
        match result {
            Ok(gs) => {
                &&& max_per_minute > 0
                &&& max_per_day >= max_per_minute
                &&& gs == (GlobalState {
                    admin,
                    keeper: admin,
                    paused: false,
                    last_update_ts: now,
                    global_reward_index: 0,
                    usdc_mint,
                    reward_vault,
                    max_per_minute,
                    max_per_day,
                    daily_distributed: 0,
                    day_start_ts: now,
                    bump,
                })
                &&& gs.wf()
            },
            Err(e) => {
                &&& e == GorkError::ZeroAmount
                &&& (max_per_minute == 0 || max_per_day < max_per_minute)
            },
        },
{
    if max_per_minute == 0 {
        return Err(GorkError::ZeroAmount);
    }
    if max_per_day < max_per_minute {
        return Err(GorkError::ZeroAmount);
    }
    Ok(
        GlobalState {
            admin,
            keeper: admin,
            paused: false,
            last_update_ts: now,
            global_reward_index: 0,
            usdc_mint,
            reward_vault,
            max_per_minute,
            max_per_day,
            daily_distributed: 0,
            day_start_ts: now,
            bump,
        },
    )
}

} // verus!
