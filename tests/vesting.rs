use cfish_contract::authority::derive_authority;
use cfish_contract::error::CustomError;
use cfish_contract::vesting::{
    distribute_reward, release_vested_reward, Authority, DistributeReward, ReleaseVestedReward, RewardTracker,
    VestingEntry, VESTING_DURATION,
};

const PROGRAM: [u8; 32] = [9u8; 32];
const USER: [u8; 32] = [6u8; 32];
const DAY: i64 = 86400;
const T0: i64 = 1_700_000_000;

fn blank_entry() -> VestingEntry {
    VestingEntry { beneficiary: [0u8; 32], total_amount: 0, released_amount: 0, start_time: 0, duration: 0 }
}

fn grant_ctx() -> DistributeReward {
    DistributeReward {
        user: USER,
        reward_tracker: RewardTracker { last_reward_day: 0, daily_count: 0 },
        vesting_entry: blank_entry(),
    }
}

fn release_ctx(entry: VestingEntry, pool: u64) -> ReleaseVestedReward {
    let (key, bump) = derive_authority(&b"authority".to_vec(), &Vec::new(), &PROGRAM).unwrap();
    ReleaseVestedReward {
        program_id: PROGRAM,
        beneficiary: USER,
        beneficiary_token_amount: 0,
        vesting_entry: entry,
        authority_key: key,
        authority: Authority { bump },
        authority_token_amount: pool,
    }
}

#[test]
fn five_grants_per_day_then_next_day() {
    let mut c = grant_ctx();
    for i in 0..5 {
        assert_eq!(distribute_reward(&mut c, 100, T0 + i * 60), Ok(()));
    }
    assert_eq!(c.reward_tracker.daily_count, 5);
    let before = c.vesting_entry;
    assert_eq!(distribute_reward(&mut c, 100, T0 + 600), Err(CustomError::DailyLimitExceeded));
    assert_eq!(c.reward_tracker.daily_count, 5);
    assert_eq!(c.vesting_entry.start_time, before.start_time);
    assert_eq!(distribute_reward(&mut c, 100, T0 + DAY), Ok(()));
    assert_eq!(c.reward_tracker.daily_count, 1);
    assert_eq!(c.reward_tracker.last_reward_day, (T0 + DAY) / DAY);
}

#[test]
fn grant_opens_vesting_entry() {
    let mut c = grant_ctx();
    assert_eq!(distribute_reward(&mut c, 1800, T0), Ok(()));
    assert_eq!(c.vesting_entry.beneficiary, USER);
    assert_eq!(c.vesting_entry.total_amount, 1800);
    assert_eq!(c.vesting_entry.released_amount, 0);
    assert_eq!(c.vesting_entry.start_time, T0 + DAY);
    assert_eq!(c.vesting_entry.duration, 180 * DAY);
    assert_eq!(VESTING_DURATION, 180 * DAY);
}

#[test]
fn grant_start_time_overflow_fails() {
    let mut c = grant_ctx();
    assert_eq!(distribute_reward(&mut c, 1, i64::MAX - 10), Err(CustomError::Overflow));
    assert_eq!(c.reward_tracker.daily_count, 0);
}

fn entry(total: u64) -> VestingEntry {
    VestingEntry { beneficiary: USER, total_amount: total, released_amount: 0, start_time: T0, duration: 180 * DAY }
}

#[test]
fn release_before_start_fails() {
    let mut r = release_ctx(entry(1800), 1800);
    assert_eq!(release_vested_reward(&mut r, T0 - 1), Err(CustomError::VestingNotStarted));
    assert_eq!(r.vesting_entry.released_amount, 0);
}

#[test]
fn release_is_linear_and_monotone() {
    let mut r = release_ctx(entry(1800), 1800);
    assert_eq!(release_vested_reward(&mut r, T0), Err(CustomError::NoRewardsToRelease));
    assert_eq!(release_vested_reward(&mut r, T0 + 10 * DAY), Ok(()));
    assert_eq!(r.vesting_entry.released_amount, 100);
    assert_eq!(r.beneficiary_token_amount, 100);
    assert_eq!(r.authority_token_amount, 1700);
    assert_eq!(release_vested_reward(&mut r, T0 + 10 * DAY), Err(CustomError::NoRewardsToRelease));
    assert_eq!(release_vested_reward(&mut r, T0 + 90 * DAY), Ok(()));
    assert_eq!(r.vesting_entry.released_amount, 900);
    assert_eq!(r.beneficiary_token_amount, 900);
}

#[test]
fn release_is_clamped_after_duration() {
    let mut r = release_ctx(entry(1800), 5000);
    assert_eq!(release_vested_reward(&mut r, T0 + 400 * DAY), Ok(()));
    assert_eq!(r.vesting_entry.released_amount, 1800);
    assert_eq!(r.beneficiary_token_amount, 1800);
    assert_eq!(release_vested_reward(&mut r, T0 + 800 * DAY), Err(CustomError::NoRewardsToRelease));
    assert_eq!(r.beneficiary_token_amount, 1800);
}

#[test]
fn release_truncates() {
    let mut r = release_ctx(entry(7), 7);
    assert_eq!(release_vested_reward(&mut r, T0 + 30 * DAY), Ok(()));
    assert_eq!(r.vesting_entry.released_amount, 1);
}

#[test]
fn release_with_wrong_bump_fails_closed() {
    let mut r = release_ctx(entry(1800), 1800);
    r.authority.bump = r.authority.bump.wrapping_sub(1);
    assert_eq!(release_vested_reward(&mut r, T0 + 10 * DAY), Err(CustomError::AuthorityMismatch));
    assert_eq!(r.vesting_entry.released_amount, 0);
}

#[test]
fn release_beyond_pool_fails() {
    let mut r = release_ctx(entry(1800), 50);
    assert_eq!(release_vested_reward(&mut r, T0 + 10 * DAY), Err(CustomError::InsufficientFunds));
    assert_eq!(r.authority_token_amount, 50);
}

#[test]
fn release_into_full_account_overflows() {
    let mut r = release_ctx(entry(1800), 1800);
    r.beneficiary_token_amount = u64::MAX;
    assert_eq!(release_vested_reward(&mut r, T0 + 10 * DAY), Err(CustomError::Overflow));
    assert_eq!(r.vesting_entry.released_amount, 0);
}
