use gorkwheel::claim::{accrue_rewards, claim_rewards};
use gorkwheel::errors::GorkError;
use gorkwheel::initialize::initialize_global;
use gorkwheel::pause::{pause_handler, unpause_handler};
use gorkwheel::set_config::set_config;
use gorkwheel::state::{GlobalState, Identity, UserState, INDEX_SCALE};
use gorkwheel::update_index::{supply_from_mint_bytes, update_index};

fn ident(n: u64) -> Identity {
    Identity { w0: n, w1: 0, w2: 0, w3: 0 }
}

fn fresh_global(max_per_minute: u64, max_per_day: u64) -> GlobalState {
    initialize_global(ident(1), ident(2), ident(3), max_per_minute, max_per_day, 0, 0).unwrap()
}

#[test]
fn init_rejects_zero_minute_cap() {
    let r = initialize_global(ident(1), ident(2), ident(3), 0, 5000, 0, 0);
    assert_eq!(r, Err(GorkError::ZeroAmount));
}

#[test]
fn init_rejects_day_cap_below_minute_cap() {
    let r = initialize_global(ident(1), ident(2), ident(3), 1000, 999, 0, 0);
    assert_eq!(r, Err(GorkError::ZeroAmount));
}

#[test]
fn init_sets_fields() {
    let gs = fresh_global(1000, 5000);
    assert_eq!(gs.admin, ident(1));
    assert_eq!(gs.keeper, ident(1));
    assert!(!gs.paused);
    assert_eq!(gs.global_reward_index, 0);
    assert_eq!(gs.usdc_mint, ident(2));
    assert_eq!(gs.reward_vault, ident(3));
    assert_eq!(gs.daily_distributed, 0);
    assert_eq!(gs.day_start_ts, 0);
}

#[test]
fn update_rejects_stranger() {
    let mut gs = fresh_global(1000, 5000);
    let r = update_index(&mut gs, ident(99), 100, 100, 60);
    assert_eq!(r, Err(GorkError::NotKeeper));
}

#[test]
fn update_rejects_when_paused() {
    let mut gs = fresh_global(1000, 5000);
    pause_handler(&mut gs, ident(1)).unwrap();
    let r = update_index(&mut gs, ident(1), 100, 100, 60);
    assert_eq!(r, Err(GorkError::Paused));
}

#[test]
fn update_rejects_zero_amount() {
    let mut gs = fresh_global(1000, 5000);
    let r = update_index(&mut gs, ident(1), 0, 100, 60);
    assert_eq!(r, Err(GorkError::ZeroAmount));
}

#[test]
fn update_rejects_over_minute_cap() {
    let mut gs = fresh_global(1000, 5000);
    let r = update_index(&mut gs, ident(1), 1001, 100, 60);
    assert_eq!(r, Err(GorkError::ExceedsMinuteCap));
}

#[test]
fn update_rejects_zero_supply() {
    let mut gs = fresh_global(1000, 5000);
    let r = update_index(&mut gs, ident(1), 100, 0, 60);
    assert_eq!(r, Err(GorkError::ZeroBalance));
}

#[test]
fn update_rejects_index_overflow() {
    let mut gs = fresh_global(1000, 5000);
    gs.global_reward_index = u128::MAX;
    let before = gs;
    let r = update_index(&mut gs, ident(1), 100, 100, 60);
    assert_eq!(r, Err(GorkError::MathOverflow));
    assert_eq!(gs, before);
}

#[test]
fn update_rejects_timestamp_overflow() {
    let mut gs = fresh_global(1000, 5000);
    gs.last_update_ts = i64::MAX;
    let r = update_index(&mut gs, ident(1), 100, 100, 60);
    assert_eq!(r, Err(GorkError::MathOverflow));
}

#[test]
fn update_rejects_daily_total_overflow() {
    let mut gs = fresh_global(u64::MAX, u64::MAX);
    update_index(&mut gs, ident(1), u64::MAX, 100, 60).unwrap();
    let r = update_index(&mut gs, ident(1), 1, 100, 120);
    assert_eq!(r, Err(GorkError::MathOverflow));
}

#[test]
fn accrue_rejects_corrupted_snapshot() {
    // A snapshot ahead of the global index signals a corrupted
    // invariant and is refused rather than wrapped.
    let mut us = UserState { owner: ident(7), user_index: 10, pending_rewards: 0, bump: 0 };
    let before = us;
    let r = accrue_rewards(9, &mut us, 1);
    assert_eq!(r, Err(GorkError::MathOverflow));
    assert_eq!(us, before);
}

#[test]
fn accrue_rejects_pending_overflow() {
    let mut us =
        UserState { owner: ident(7), user_index: 0, pending_rewards: u64::MAX, bump: 0 };
    let r = accrue_rewards(INDEX_SCALE, &mut us, 1);
    assert_eq!(r, Err(GorkError::MathOverflow));
    assert_eq!(us.pending_rewards, u64::MAX);
}

#[test]
fn accrue_rejects_oversized_credit() {
    // The earned amount would exceed the 64-bit range: refused, never
    // truncated.
    let mut us = UserState { owner: ident(7), user_index: 0, pending_rewards: 0, bump: 0 };
    let r = accrue_rewards(u128::MAX, &mut us, u64::MAX);
    assert_eq!(r, Err(GorkError::MathOverflow));
}

#[test]
fn claim_rejects_wrong_owner() {
    let gs = fresh_global(1000, 5000);
    let mut us = UserState { owner: ident(7), user_index: 0, pending_rewards: 5, bump: 0 };
    let r = claim_rewards(&gs, &mut us, ident(8), 10, 100);
    assert_eq!(r, Err(GorkError::NotAdmin));
}

#[test]
fn claim_rejects_when_paused() {
    let mut gs = fresh_global(1000, 5000);
    pause_handler(&mut gs, ident(1)).unwrap();
    let mut us = UserState { owner: ident(7), user_index: 0, pending_rewards: 5, bump: 0 };
    let r = claim_rewards(&gs, &mut us, ident(7), 10, 100);
    assert_eq!(r, Err(GorkError::Paused));
}

#[test]
fn claim_rejects_nothing_to_claim() {
    let gs = fresh_global(1000, 5000);
    let mut us = UserState { owner: ident(7), user_index: 0, pending_rewards: 0, bump: 0 };
    let before = us;
    let r = claim_rewards(&gs, &mut us, ident(7), 10, 100);
    assert_eq!(r, Err(GorkError::NothingToClaim));
    assert_eq!(us, before);
}

#[test]
fn claim_rejects_underfunded_vault() {
    let mut gs = fresh_global(1000, 5000);
    update_index(&mut gs, ident(1), 100, 100, 60).unwrap();
    let mut us = UserState { owner: ident(7), user_index: 0, pending_rewards: 0, bump: 0 };
    let before = us;
    let r = claim_rewards(&gs, &mut us, ident(7), 10, 9);
    assert_eq!(r, Err(GorkError::InsufficientVaultBalance));
    assert_eq!(us, before);
}

#[test]
fn claim_settles_before_paying() {
    // Pending rewards and newly accrued rewards are claimed together.
    let mut gs = fresh_global(1000, 5000);
    update_index(&mut gs, ident(1), 100, 100, 60).unwrap();
    let mut us = UserState { owner: ident(7), user_index: 0, pending_rewards: 4, bump: 0 };
    let claimed = claim_rewards(&gs, &mut us, ident(7), 10, 100).unwrap();
    assert_eq!(claimed, 14);
    assert_eq!(us.pending_rewards, 0);
}

#[test]
fn set_config_rejects_stranger() {
    let mut gs = fresh_global(1000, 5000);
    let r = set_config(&mut gs, ident(99), 2000, 9000);
    assert_eq!(r, Err(GorkError::NotAdmin));
    assert_eq!(gs.max_per_minute, 1000);
}

#[test]
fn set_config_rejects_bad_caps() {
    let mut gs = fresh_global(1000, 5000);
    assert_eq!(set_config(&mut gs, ident(1), 0, 9000), Err(GorkError::ZeroAmount));
    assert_eq!(set_config(&mut gs, ident(1), 2000, 1999), Err(GorkError::ZeroAmount));
}

#[test]
fn set_config_updates_caps() {
    let mut gs = fresh_global(1000, 5000);
    set_config(&mut gs, ident(1), 2000, 9000).unwrap();
    assert_eq!(gs.max_per_minute, 2000);
    assert_eq!(gs.max_per_day, 9000);
    assert_eq!(gs.admin, ident(1));
}

#[test]
fn pause_and_unpause() {
    let mut gs = fresh_global(1000, 5000);
    pause_handler(&mut gs, ident(1)).unwrap();
    assert!(gs.paused);
    unpause_handler(&mut gs, ident(1)).unwrap();
    assert!(!gs.paused);
}

#[test]
fn pause_rejects_stranger() {
    let mut gs = fresh_global(1000, 5000);
    assert_eq!(pause_handler(&mut gs, ident(99)), Err(GorkError::NotAdmin));
    assert!(!gs.paused);
    gs.paused = true;
    assert_eq!(unpause_handler(&mut gs, ident(99)), Err(GorkError::NotAdmin));
    assert!(gs.paused);
}

#[test]
fn supply_read_little_endian() {
    let mut data = vec![0u8; 82];
    data[36] = 0x39;
    data[37] = 0x30;
    let supply = supply_from_mint_bytes(&data);
    assert_eq!(supply, 12345);
}

#[test]
fn supply_read_full_width() {
    let mut data = vec![0u8; 82];
    for (i, b) in [0x01u8, 0x02, 0x03, 0x04, 0x05, 0x06, 0x07, 0x08].iter().enumerate() {
        data[36 + i] = *b;
    }
    let supply = supply_from_mint_bytes(&data);
    assert_eq!(supply, 0x0807060504030201);
}
