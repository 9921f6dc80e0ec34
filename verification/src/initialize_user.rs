use vstd::prelude::*;

use crate::state::{GlobalState, Identity, UserState};

verus! {

/// Create a user record for `owner` at first registration.
///
/// The snapshot is synced to the current global index, so the holder can
/// never claim rewards that accrued before they registered.
pub fn initialize_user(owner: Identity, gs: &GlobalState, bump: u8) -> (us: UserState)
    ensures
        us == (UserState { owner, user_index: gs.global_reward_index, pending_rewards: 0, bump }),
        us.consistent_with(gs.global_reward_index),
{
    UserState { owner, user_index: gs.global_reward_index, pending_rewards: 0, bump }
}

} // verus!
