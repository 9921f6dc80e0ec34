use vstd::prelude::*;

use crate::errors::GorkError;
use crate::state::{GlobalState, Identity, UserState, INDEX_SCALE};

verus! {

/// Amount newly earned by a balance held since the user's snapshot:
/// `floor(balance * (global_index - user_index) / INDEX_SCALE)`, and
/// zero when the index has not advanced or nothing was held.
pub open spec fn earned_amount(balance: u64, user_index: u128, global_index: u128) -> int
    recommends
        user_index <= global_index,
{
    if global_index > user_index && balance > 0 {
        (balance as int) * (global_index - user_index) / (INDEX_SCALE as int)
    } else {
        0
    }
}

/// Why a settlement of `us` against `global_index` with `balance` held
/// fails, or `None` when it succeeds. A snapshot that runs ahead of the
/// global index signals a corrupted invariant; a pending total past the
/// 64-bit range would lose value if allowed to wrap.
pub open spec fn accrue_error(us: UserState, global_index: u128, balance: u64) -> Option<
    GorkError,
> {
    if us.user_index > global_index {
        Some(GorkError::MathOverflow)
    } else if us.pending_rewards + earned_amount(balance, us.user_index, global_index)
        > u64::MAX {
        Some(GorkError::MathOverflow)
    } else {
        None
    }
}

/// The user record after a successful settlement: the snapshot is synced
/// to the global index unconditionally — even when nothing was earned —
/// and the earned amount is added to the pending total.
pub open spec fn accrue_post(us: UserState, global_index: u128, balance: u64) -> UserState {
    UserState {
        user_index: global_index,
        pending_rewards: (us.pending_rewards + earned_amount(balance, us.user_index, global_index))
            as u64,
        ..us
    }
}

/// Settle pending rewards for a user without transferring: credit
/// `floor(balance * (global_index - user_index) / INDEX_SCALE)` to the
/// pending total and sync the snapshot to `global_index`.
///
/// The snapshot is synced even when the balance is zero or the index has
/// not moved, so a holder who re-acquires balance later cannot earn for
/// a period over which they held nothing. On failure the record is left
/// untouched.
pub fn accrue_rewards(
    global_index: u128,
    user_state: &mut UserState,
    user_token_balance: u64,
) -> (result: Result<(), GorkError>)
    ensures
        match result {
            Ok(()) => {
                &&& accrue_error(*old(user_state), global_index, user_token_balance) is None
                &&& *final(user_state) == accrue_post(
                    *old(user_state),
                    global_index,
                    user_token_balance,
                )
            },
            Err(e) => {
                &&& accrue_error(*old(user_state), global_index, user_token_balance) == Some(e)
                &&& *final(user_state) == *old(user_state)
            },
        },
        result is Ok ==> final(user_state).consistent_with(global_index),
{
    if user_state.user_index > global_index {
        return Err(GorkError::MathOverflow);
    }
    let index_delta: u128 = global_index - user_state.user_index;
    let mut earned: u64 = 0;
    if index_delta > 0 && user_token_balance > 0 {
        let wide = match (user_token_balance as u128).checked_mul(index_delta) {
            Some(w) => w,
            None => {
                proof {
                    lemma_mul_overflow_exceeds(user_token_balance, index_delta);
                }
                return Err(GorkError::MathOverflow);
            },
        };
        let earned_wide: u128 = wide / INDEX_SCALE;
        if earned_wide > u64::MAX as u128 {
            return Err(GorkError::MathOverflow);
        }
        earned = earned_wide as u64;
    }
    let new_pending = match user_state.pending_rewards.checked_add(earned) {
        Some(p) => p,
        None => {
            return Err(GorkError::MathOverflow);
        },
    };
    user_state.pending_rewards = new_pending;
    user_state.user_index = global_index;
    Ok(())
}

/// When `balance * delta` exceeds the 128-bit range, the scaled-down
/// earned amount still exceeds the 64-bit range: nothing is lost by
/// failing before the division.
proof fn lemma_mul_overflow_exceeds(balance: u64, delta: u128)
    requires
        balance > 0,
        delta > 0,
        (balance as int) * (delta as int) > u128::MAX,
    ensures
        (balance as int) * (delta as int) / (INDEX_SCALE as int) > u64::MAX,
{
    let p = (balance as int) * (delta as int);
    assert(p / (INDEX_SCALE as int) >= (u128::MAX as int + 1) / (INDEX_SCALE as int)) by {
        vstd::arithmetic::div_mod::lemma_div_is_ordered(
            u128::MAX as int + 1,
            p,
            INDEX_SCALE as int,
        );
    }
}

/// Why a claim by `caller` against `gs` fails, or `None` when it
/// succeeds. The settlement runs first; a claim of a zero entitlement
/// and a vault short of the entitlement are both rejected.
pub open spec fn claim_error(
    gs: GlobalState,
    us: UserState,
    caller: Identity,
    balance: u64,
    vault_balance: u64,
) -> Option<GorkError> {
    if us.owner != caller {
        Some(GorkError::NotAdmin)
    } else if gs.paused {
        Some(GorkError::Paused)
    } else if accrue_error(us, gs.global_reward_index, balance) is Some {
        accrue_error(us, gs.global_reward_index, balance)
    } else if accrue_post(us, gs.global_reward_index, balance).pending_rewards == 0 {
        Some(GorkError::NothingToClaim)
    } else if vault_balance < accrue_post(us, gs.global_reward_index, balance).pending_rewards {
        Some(GorkError::InsufficientVaultBalance)
    } else {
        None
    }
}

/// Claim all pending rewards: settle the caller's accrual up to the
/// current global index, then zero the pending total and return the
/// settled amount for the surrounding transaction to transfer out of
/// the vault.
///
/// The pending total is zeroed before any transfer is requested, so a
/// retried transfer can never be asked to pay the same entitlement
/// twice. On failure both records are left untouched.
pub fn claim_rewards(
    gs: &GlobalState,
    us: &mut UserState,
    caller: Identity,
    user_balance: u64,
    vault_balance: u64,
) -> (result: Result<u64, GorkError>)
    ensures
        match result {
            Ok(claimable) => {
                &&& claim_error(*gs, *old(us), caller, user_balance, vault_balance) is None
                &&& claimable == accrue_post(
                    *old(us),
                    gs.global_reward_index,
                    user_balance,
                ).pending_rewards
                &&& 0 < claimable <= vault_balance
                &&& *final(us) == (UserState {
                    user_index: gs.global_reward_index,
                    pending_rewards: 0,
                    ..*old(us)
                })
            },
            Err(e) => {
                &&& claim_error(*gs, *old(us), caller, user_balance, vault_balance) == Some(e)
                &&& *final(us) == *old(us)
            },
        },
{
    if !(us.owner == caller) {
        return Err(GorkError::NotAdmin);
    }
    if gs.paused {
        return Err(GorkError::Paused);
    }
    let mut settled: UserState = *us;
    match accrue_rewards(gs.global_reward_index, &mut settled, user_balance) {
        Ok(()) => {},
        Err(e) => {
            return Err(e);
        },
    }
    let claimable: u64 = settled.pending_rewards;
    if claimable == 0 {
        return Err(GorkError::NothingToClaim);
    }
    if vault_balance < claimable {
        return Err(GorkError::InsufficientVaultBalance);
    }
    settled.pending_rewards = 0;
    *us = settled;
    Ok(claimable)
}

} // verus!
