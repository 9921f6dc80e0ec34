use vstd::prelude::*;

use crate::claim::{accrue_error, accrue_post, earned_amount};
use crate::state::{GlobalState, Identity, UserState, INDEX_SCALE};
use crate::update_index::{index_delta, update_index_error, update_index_post, window_rolls};
use vstd::arithmetic::div_mod::{
    lemma_div_is_ordered, lemma_div_multiples_vanish, lemma_div_pos_is_pos, lemma_remainder_lower,
};
use vstd::arithmetic::mul::{
    lemma_mul_inequality, lemma_mul_is_commutative, lemma_mul_is_distributive_add_other_way,
    lemma_mul_nonnegative,
};

verus! {

/// The sum of a sequence of amounts.
pub open spec fn sum_u64(s: Seq<u64>) -> int
    decreases s.len(),
{
    if s.len() == 0 {
        0
    } else {
        sum_u64(s.drop_last()) + s.last()
    }
}

/// One global record follows another by some successful index
/// advancement.
pub open spec fn advanced(pre: GlobalState, post: GlobalState) -> bool {
    exists|caller: Identity, amount: u64, supply: u64, now: i64|
        update_index_error(pre, caller, amount, supply, now) is None && post
            == update_index_post(pre, amount, supply, now)
}

/// A single successful advancement never decreases the global reward
/// index, and leaves the configuration untouched.
pub proof fn lemma_advanced_monotonic(pre: GlobalState, post: GlobalState)
    requires
        advanced(pre, post),
    ensures
        post.global_reward_index >= pre.global_reward_index,
        post.max_per_minute == pre.max_per_minute,
        post.max_per_day == pre.max_per_day,
{
    let (caller, amount, supply, now) = choose|caller: Identity, amount: u64, supply: u64, now: i64|
        update_index_error(pre, caller, amount, supply, now) is None && post
            == update_index_post(pre, amount, supply, now);
    lemma_mul_nonnegative(amount as int, INDEX_SCALE as int);
    lemma_div_pos_is_pos((amount as int) * (INDEX_SCALE as int), supply as int);
}

/// The user-record invariant survives index advancement: a snapshot
/// that does not run ahead of the global index before an advancement
/// does not run ahead of it after.
pub proof fn lemma_consistency_preserved(pre: GlobalState, post: GlobalState, us: UserState)
    requires
        advanced(pre, post),
        us.consistent_with(pre.global_reward_index),
    ensures
        us.consistent_with(post.global_reward_index),
{
    lemma_advanced_monotonic(pre, post);
}

/// Monotonicity: across any chain of successful index advancements, the
/// global reward index is non-decreasing.
pub proof fn lemma_index_monotonic(states: Seq<GlobalState>)
    requires
        forall|i: int|
            0 <= i < states.len() - 1 ==> #[trigger] advanced(states[i], states[i + 1]),
    ensures
        forall|i: int, j: int|
            0 <= i <= j < states.len() ==> states[i].global_reward_index
                <= states[j].global_reward_index,
{
    assert forall|i: int, j: int|
        0 <= i <= j < states.len() implies states[i].global_reward_index
        <= states[j].global_reward_index by {
        lemma_index_chain(states, i, j);
    }
}

proof fn lemma_index_chain(states: Seq<GlobalState>, i: int, j: int)
    requires
        forall|k: int|
            0 <= k < states.len() - 1 ==> #[trigger] advanced(states[k], states[k + 1]),
        0 <= i <= j < states.len(),
    ensures
        states[i].global_reward_index <= states[j].global_reward_index,
    decreases j - i,
{
    if i < j {
        lemma_index_chain(states, i, j - 1);
        assert(advanced(states[j - 1], states[j - 1 + 1]));
        lemma_advanced_monotonic(states[j - 1], states[j]);
    }
}

/// One global record follows another by a successful advancement of
/// `amount` that did not roll the daily window: both lie in the same
/// rolling day.
pub open spec fn advanced_same_day(pre: GlobalState, post: GlobalState, amount: u64) -> bool {
    exists|caller: Identity, supply: u64, now: i64|
        update_index_error(pre, caller, amount, supply, now) is None && !window_rolls(pre, now)
            && post == update_index_post(pre, amount, supply, now)
}

proof fn lemma_same_day_step(pre: GlobalState, post: GlobalState, amount: u64)
    requires
        advanced_same_day(pre, post, amount),
    ensures
        post.daily_distributed == pre.daily_distributed + amount,
        pre.daily_distributed + amount <= pre.max_per_day,
        amount <= pre.max_per_minute,
        post.max_per_minute == pre.max_per_minute,
        post.max_per_day == pre.max_per_day,
        post.day_start_ts == pre.day_start_ts,
{
    let (caller, supply, now) = choose|caller: Identity, supply: u64, now: i64|
        update_index_error(pre, caller, amount, supply, now) is None && !window_rolls(pre, now)
            && post == update_index_post(pre, amount, supply, now);
}

/// Cap enforcement: across any chain of successful advancements within
/// a single rolling day, the accepted amounts accumulate in the daily
/// total, their sum stays within the daily cap, and each single amount
/// stays within the per-update cap.
pub proof fn lemma_daily_cap(states: Seq<GlobalState>, amounts: Seq<u64>)
    requires
        states.len() == amounts.len() + 1,
        forall|i: int|
            0 <= i < amounts.len() ==> advanced_same_day(
                states[i],
                states[i + 1],
                #[trigger] amounts[i],
            ),
    ensures
        states.last().daily_distributed == states.first().daily_distributed + sum_u64(amounts),
        amounts.len() > 0 ==> states.first().daily_distributed + sum_u64(amounts)
            <= states.first().max_per_day,
        forall|i: int| 0 <= i < amounts.len() ==> #[trigger] amounts[i] <= states.first().max_per_minute,
        states.last().max_per_day == states.first().max_per_day,
        states.last().max_per_minute == states.first().max_per_minute,
    decreases amounts.len(),
{
    if amounts.len() > 0 {
        let n = amounts.len() as int;
        lemma_daily_cap(states.drop_last(), amounts.drop_last());
        assert(states.drop_last().last() == states[n - 1]);
        assert(states.drop_last().first() == states.first());
        assert(advanced_same_day(states[n - 1], states[n - 1 + 1], amounts[n - 1]));
        lemma_same_day_step(states[n - 1], states[n], amounts[n - 1]);
        assert forall|i: int| 0 <= i < amounts.len() implies #[trigger] amounts[i]
            <= states.first().max_per_minute by {
            if i < n - 1 {
                assert(amounts.drop_last()[i] == amounts[i]);
            }
        }
    }
}

/// No retroactive accrual: a user record created while the global index
/// stands at `global_index` settles to a zero credit against that same
/// index, whatever balance is held — advancements from before the
/// record's creation earn it nothing.
pub proof fn lemma_no_retroactive_accrual(
    owner: Identity,
    global_index: u128,
    bump: u8,
    balance: u64,
)
    ensures
        ({
            let us = UserState { owner, user_index: global_index, pending_rewards: 0, bump };
            &&& accrue_error(us, global_index, balance) is None
            &&& accrue_post(us, global_index, balance).pending_rewards == 0
        }),
{
}

/// The credit of a settlement depends only on the index distance
/// covered, never on where the snapshot lies in the index's history.
pub proof fn lemma_earned_depends_on_delta(balance: u64, x1: u128, y1: u128, x2: u128, y2: u128)
    requires
        x1 <= y1,
        x2 <= y2,
        y1 - x1 == y2 - x2,
    ensures
        earned_amount(balance, x1, y1) == earned_amount(balance, x2, y2),
{
}

/// Idempotent settlement: settling a second time against an unchanged
/// global index cannot fail and leaves the record exactly as the first
/// settlement left it, whatever balance is held meanwhile.
pub proof fn lemma_settle_idempotent(
    us: UserState,
    global_index: u128,
    balance: u64,
    later_balance: u64,
)
    requires
        accrue_error(us, global_index, balance) is None,
    ensures
        accrue_error(accrue_post(us, global_index, balance), global_index, later_balance) is None,
        accrue_post(accrue_post(us, global_index, balance), global_index, later_balance)
            == accrue_post(us, global_index, balance),
{
}

/// The user record after settling through a chain of global indices,
/// holding the matching balance over each interval.
pub open spec fn settled_after(us: UserState, indices: Seq<u128>, balances: Seq<u64>) -> UserState
    recommends
        indices.len() == balances.len(),
    decreases indices.len(),
{
    if indices.len() == 0 {
        us
    } else {
        accrue_post(
            settled_after(us, indices.drop_last(), balances.drop_last()),
            indices.last(),
            balances.last(),
        )
    }
}

/// Every settlement along the chain succeeds.
pub open spec fn settle_chain_ok(us: UserState, indices: Seq<u128>, balances: Seq<u64>) -> bool
    recommends
        indices.len() == balances.len(),
    decreases indices.len(),
{
    if indices.len() == 0 {
        true
    } else {
        settle_chain_ok(us, indices.drop_last(), balances.drop_last()) && accrue_error(
            settled_after(us, indices.drop_last(), balances.drop_last()),
            indices.last(),
            balances.last(),
        ) is None
    }
}

/// The per-interval credits: over the interval that ends at `indices[i]`
/// and starts at the previous index (or at `start_index` for the first),
/// a balance of `balances[i]` earns
/// `floor(balances[i] * (indices[i] - previous) / INDEX_SCALE)`.
pub open spec fn total_earned(start_index: u128, indices: Seq<u128>, balances: Seq<u64>) -> int
    recommends
        indices.len() == balances.len(),
    decreases indices.len(),
{
    if indices.len() == 0 {
        0
    } else {
        let prev = if indices.len() == 1 {
            start_index
        } else {
            indices[indices.len() - 2]
        };
        total_earned(start_index, indices.drop_last(), balances.drop_last()) + earned_amount(
            balances.last(),
            prev,
            indices.last(),
        )
    }
}

/// Conservation, per user: over any chain of successful settlements, the
/// pending total grows by exactly the sum of the per-interval credits —
/// no settlement creates or loses value beyond the per-interval floor
/// formula — and the snapshot ends at the last index settled against.
pub proof fn lemma_conservation_per_user(us: UserState, indices: Seq<u128>, balances: Seq<u64>)
    requires
        indices.len() == balances.len(),
        settle_chain_ok(us, indices, balances),
    ensures
        settled_after(us, indices, balances).pending_rewards == us.pending_rewards + total_earned(
            us.user_index,
            indices,
            balances,
        ),
        settled_after(us, indices, balances).user_index == if indices.len() == 0 {
            us.user_index
        } else {
            indices.last()
        },
    decreases indices.len(),
{
    if indices.len() > 0 {
        lemma_conservation_per_user(us, indices.drop_last(), balances.drop_last());
    }
}

/// The credits that one advancement of the index by `delta` creates
/// across a set of holders: each holder's settlement over that single
/// interval earns `floor(balance * delta / INDEX_SCALE)`.
pub open spec fn credited_total(balances: Seq<u64>, delta: int) -> int
    decreases balances.len(),
{
    if balances.len() == 0 {
        0
    } else {
        credited_total(balances.drop_last(), delta) + (balances.last() as int) * delta / (
        INDEX_SCALE as int)
    }
}

proof fn lemma_sum_nonneg(balances: Seq<u64>)
    ensures
        sum_u64(balances) >= 0,
    decreases balances.len(),
{
    if balances.len() > 0 {
        lemma_sum_nonneg(balances.drop_last());
    }
}

/// Floors add up below the floor of the sum: `a/d + c/d <= (a+c)/d` for
/// nonnegative numerators.
proof fn lemma_div_sum_le(a: int, c: int, d: int)
    requires
        a >= 0,
        c >= 0,
        d > 0,
    ensures
        a / d + c / d <= (a + c) / d,
{
    lemma_remainder_lower(a, d);
    lemma_remainder_lower(c, d);
    lemma_div_pos_is_pos(a, d);
    lemma_div_pos_is_pos(c, d);
    assert((a / d + c / d) * d == (a / d) * d + (c / d) * d) by {
        lemma_mul_is_distributive_add_other_way(d, a / d, c / d);
    }
    lemma_div_is_ordered((a / d + c / d) * d, a + c, d);
    assert(((a / d + c / d) * d) / d == a / d + c / d) by {
        lemma_mul_is_commutative(a / d + c / d, d);
        lemma_div_multiples_vanish(a / d + c / d, d);
    }
}

proof fn lemma_credited_le(balances: Seq<u64>, delta: int)
    requires
        delta >= 0,
    ensures
        credited_total(balances, delta) <= sum_u64(balances) * delta / (INDEX_SCALE as int),
    decreases balances.len(),
{
    let s = INDEX_SCALE as int;
    if balances.len() == 0 {
        assert(sum_u64(balances) * delta == 0);
    } else {
        let pre = balances.drop_last();
        let b = balances.last() as int;
        lemma_credited_le(pre, delta);
        lemma_sum_nonneg(pre);
        lemma_mul_nonnegative(sum_u64(pre), delta);
        lemma_mul_nonnegative(b, delta);
        lemma_div_sum_le(sum_u64(pre) * delta, b * delta, s);
        assert(sum_u64(pre) * delta + b * delta == (sum_u64(pre) + b) * delta) by {
            lemma_mul_is_distributive_add_other_way(delta, sum_u64(pre), b);
        }
    }
}

/// Conservation, across users: one advancement that distributes `amount`
/// over `supply` tokens raises the index by
/// `index_delta(amount, supply)`, and the credits that this advancement
/// creates across any set of holders whose balances sum to at most
/// `supply` total at most `amount` — rounding error stays in the pool,
/// and no value is fabricated.
pub proof fn lemma_no_over_distribution(amount: u64, supply: u64, balances: Seq<u64>)
    requires
        supply > 0,
        sum_u64(balances) <= supply,
    ensures
        credited_total(balances, index_delta(amount, supply)) <= amount,
{
    let s = INDEX_SCALE as int;
    let num = (amount as int) * s;
    let d = index_delta(amount, supply);
    lemma_mul_nonnegative(amount as int, s);
    lemma_div_pos_is_pos(num, supply as int);
    lemma_credited_le(balances, d);
    lemma_sum_nonneg(balances);
    lemma_mul_inequality(sum_u64(balances), supply as int, d);
    assert((supply as int) * d <= num) by {
        lemma_remainder_lower(num, supply as int);
        lemma_mul_is_commutative(num / (supply as int), supply as int);
    }
    assert(sum_u64(balances) * d / s <= num / s) by {
        lemma_mul_is_commutative(sum_u64(balances), d);
        lemma_mul_is_commutative(supply as int, d);
        lemma_div_is_ordered(sum_u64(balances) * d, num, s);
    }
    assert(num / s == amount as int) by {
        lemma_mul_is_commutative(amount as int, s);
        lemma_div_multiples_vanish(amount as int, s);
    }
}

} // verus!
