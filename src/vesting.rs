use vstd::prelude::*;

use crate::authority::{certified_address, derivable, verify_authority, Key};
use crate::clock::{current_day, day_of, SECONDS_PER_DAY};
use crate::error::CustomError;

verus! {

/// Reward grants that one beneficiary may receive within one calendar day.
pub const DAILY_REWARD_LIMIT: u64 = 5;

/// Length of every vesting schedule: one hundred and eighty days, in seconds.
pub const VESTING_DURATION: i64 = 15552000;

/// Counts the reward grants of one beneficiary within the current calendar day.
#[derive(Debug, Clone, Copy, PartialEq, Eq, Structural)]
pub struct RewardTracker {
    pub last_reward_day: i64,
    pub daily_count: u64,
}

/// A reward allocation that is released linearly between `start_time` and
/// `start_time + duration`.
#[derive(Debug, Clone, Copy)]
pub struct VestingEntry {
    pub beneficiary: Key,
    pub total_amount: u64,
    pub released_amount: u64,
    pub start_time: i64,
    pub duration: i64,
}

/// The certifying bump of the derived authority that holds the reward pool.
#[derive(Debug, Clone, Copy, PartialEq, Eq, Structural)]
pub struct Authority {
    pub bump: u8,
}

/// The records that a reward grant reads and writes: the beneficiary's tracker and
/// the freshly allocated vesting entry of this grant.
#[derive(Debug, Clone, Copy)]
pub struct DistributeReward {
    pub user: Key,
    pub reward_tracker: RewardTracker,
    pub vesting_entry: VestingEntry,
}

/// The records that a vesting release reads and writes: the entry, the pool's
/// derived authority with its address, and the token balances on both sides.
#[derive(Debug, Clone, Copy)]
pub struct ReleaseVestedReward {
    pub program_id: Key,
    pub beneficiary: Key,
    pub beneficiary_token_amount: u64,
    pub vesting_entry: VestingEntry,
    pub authority_key: Key,
    pub authority: Authority,
    pub authority_token_amount: u64,
}

impl VestingEntry {
    /// Nothing beyond the allocation has been released.
    pub open spec fn wf(self) -> bool {
        self.released_amount <= self.total_amount
    }
}

/// The namespace of the reward pool's authority: the ASCII bytes of `authority`.
pub open spec fn authority_namespace() -> Seq<u8> {
    seq![97u8, 117, 116, 104, 111, 114, 105, 116, 121]
}

fn authority_namespace_bytes() -> (r: Vec<u8>)
    ensures
        r@ == authority_namespace(),
{
    let r: Vec<u8> = vec![97u8, 117, 116, 104, 111, 114, 105, 116, 121];
    assert(r@ =~= authority_namespace());
    r
}

/// The tracker after one more grant at `now`: a new day starts a count of one;
/// on the same day the count goes up and may not pass the daily limit.
pub open spec fn tracker_after(t: RewardTracker, now: i64) -> Result<RewardTracker, CustomError> {
    if t.last_reward_day == day_of(now) {
        if t.daily_count + 1 > DAILY_REWARD_LIMIT {
            Err(CustomError::DailyLimitExceeded)
        } else {
            Ok(RewardTracker { daily_count: (t.daily_count + 1) as u64, ..t })
        }
    } else {
        Ok(RewardTracker { last_reward_day: day_of(now) as i64, daily_count: 1 })
    }
}

/// Why a grant at `now` is refused, if it is.
pub open spec fn distribute_error(c: DistributeReward, now: i64) -> Option<CustomError> {
    match tracker_after(c.reward_tracker, now) {
        Err(e) => Some(e),
        Ok(_) => if now + SECONDS_PER_DAY > i64::MAX {
            Some(CustomError::Overflow)
        } else {
            None
        },
    }
}

/// The records after a successful grant of `reward_amount` at `now`: vesting starts a
/// day later and runs for the fixed duration.
pub open spec fn distribute_effect(c: DistributeReward, reward_amount: u64, now: i64) -> DistributeReward {
    DistributeReward {
        reward_tracker: tracker_after(c.reward_tracker, now)->Ok_0,
        vesting_entry: VestingEntry {
            beneficiary: c.user,
            total_amount: reward_amount,
            released_amount: 0,
            start_time: (now + SECONDS_PER_DAY) as i64,
            duration: VESTING_DURATION,
        },
        ..c
    }
}

/// What a grant does: the effect when nothing refuses it, else no change.
pub open spec fn distribute_step(c: DistributeReward, reward_amount: u64, now: i64) -> DistributeReward {
    if distribute_error(c, now) is None {
        distribute_effect(c, reward_amount, now)
    } else {
        c
    }
}

/// Grants `reward_amount` to the user as a new vesting entry, at most five times per
/// calendar day.
pub fn distribute_reward(ctx: &mut DistributeReward, reward_amount: u64, now: i64) -> (r: Result<(), CustomError>)
    ensures
        match r {
            Ok(()) => distribute_error(*old(ctx), now) is None && *final(ctx) == distribute_effect(
                *old(ctx),
                reward_amount,
                now,
            ),
            Err(e) => distribute_error(*old(ctx), now) == Some(e) && *final(ctx) == *old(ctx),
        },
{
    let day = current_day(now);
    let tracker = if ctx.reward_tracker.last_reward_day == day {
        if ctx.reward_tracker.daily_count >= DAILY_REWARD_LIMIT {
            return Err(CustomError::DailyLimitExceeded);
        }
        RewardTracker { last_reward_day: day, daily_count: ctx.reward_tracker.daily_count + 1 }
    } else {
        RewardTracker { last_reward_day: day, daily_count: 1 }
    };
    if now > i64::MAX - SECONDS_PER_DAY {
        return Err(CustomError::Overflow);
    }
    ctx.reward_tracker = tracker;
    ctx.vesting_entry = VestingEntry {
        beneficiary: ctx.user,
        total_amount: reward_amount,
        released_amount: 0,
        start_time: now + SECONDS_PER_DAY,
        duration: VESTING_DURATION,
    };
    Ok(())
}

/// What the schedule has vested by `now`: the linear share of the total, truncated,
/// and the whole total once the duration has passed.
pub open spec fn vested_amount(e: VestingEntry, now: i64) -> int {
    if now - e.start_time >= e.duration {
        e.total_amount as int
    } else {
        (e.total_amount as int * (now - e.start_time)) / e.duration as int
    }
}

/// What a release at `now` hands out: vested but not yet released.
pub open spec fn releasable(e: VestingEntry, now: i64) -> int {
    vested_amount(e, now) - e.released_amount
}

/// Why a release at `now` is refused, if it is.
pub open spec fn release_error(c: ReleaseVestedReward, now: i64) -> Option<CustomError> {
    let amount = releasable(c.vesting_entry, now);
    if now < c.vesting_entry.start_time {
        Some(CustomError::VestingNotStarted)
    } else if amount <= 0 {
        Some(CustomError::NoRewardsToRelease)
    } else if certified_address(authority_namespace(), seq![], c.authority.bump, c.program_id@) != Some(
        c.authority_key@,
    ) {
        Some(CustomError::AuthorityMismatch)
    } else if c.authority_token_amount < amount {
        Some(CustomError::InsufficientFunds)
    } else if c.beneficiary_token_amount + amount > u64::MAX {
        Some(CustomError::Overflow)
    } else {
        None
    }
}

/// The records after a successful release at `now`.
pub open spec fn release_effect(c: ReleaseVestedReward, now: i64) -> ReleaseVestedReward {
    let amount = releasable(c.vesting_entry, now);
    ReleaseVestedReward {
        beneficiary_token_amount: (c.beneficiary_token_amount + amount) as u64,
        authority_token_amount: (c.authority_token_amount - amount) as u64,
        vesting_entry: VestingEntry {
            released_amount: (c.vesting_entry.released_amount + amount) as u64,
            ..c.vesting_entry
        },
        ..c
    }
}

/// What a release does: the effect when nothing refuses it, else no change.
pub open spec fn release_step(c: ReleaseVestedReward, now: i64) -> ReleaseVestedReward {
    if release_error(c, now) is None {
        release_effect(c, now)
    } else {
        c
    }
}

/// The amount vested by `now`, for a schedule that has started.
fn vested_at(e: &VestingEntry, now: i64) -> (r: u64)
    requires
        now >= e.start_time,
    ensures
        r == vested_amount(*e, now),
{
    let elapsed: i128 = now as i128 - e.start_time as i128;
    if elapsed >= e.duration as i128 {
        e.total_amount
    } else {
        let total = e.total_amount as u128;
        let el = elapsed as u128;
        let dur = e.duration as u128;
        assert(total * el <= 0xffff_ffff_ffff_ffffu128 * 0x1_0000_0000_0000_0000u128) by (nonlinear_arith)
            requires
                total <= 0xffff_ffff_ffff_ffffu128,
                el <= 0x1_0000_0000_0000_0000u128,
        ;
        let v = total * el / dur;
        assert(v <= total) by (nonlinear_arith)
            requires
                el < dur,
                v as int == (total as int * el as int) / (dur as int),
                0 < dur,
        ;
        v as u64
    }
}

/// Releases to the beneficiary what has vested and was not yet released, signed for by
/// the reward pool's derived authority.
pub fn release_vested_reward(ctx: &mut ReleaseVestedReward, now: i64) -> (r: Result<(), CustomError>)
    ensures
        match r {
            Ok(()) => release_error(*old(ctx), now) is None && *final(ctx) == release_effect(*old(ctx), now),
            Err(e) => release_error(*old(ctx), now) == Some(e) && *final(ctx) == *old(ctx),
        },
{
    if now < ctx.vesting_entry.start_time {
        return Err(CustomError::VestingNotStarted);
    }
    let vested = vested_at(&ctx.vesting_entry, now);
    if vested <= ctx.vesting_entry.released_amount {
        return Err(CustomError::NoRewardsToRelease);
    }
    let amount = vested - ctx.vesting_entry.released_amount;
    let namespace = authority_namespace_bytes();
    let owners: Vec<Key> = Vec::new();
    proof {
        assert(derivable(namespace@, owners@));
        assert(owners@ =~= seq![]);
    }
    if !verify_authority(&namespace, &owners, ctx.authority.bump, &ctx.program_id, &ctx.authority_key) {
        return Err(CustomError::AuthorityMismatch);
    }
    if ctx.authority_token_amount < amount {
        return Err(CustomError::InsufficientFunds);
    }
    if ctx.beneficiary_token_amount > u64::MAX - amount {
        return Err(CustomError::Overflow);
    }
    ctx.authority_token_amount = ctx.authority_token_amount - amount;
    ctx.beneficiary_token_amount = ctx.beneficiary_token_amount + amount;
    ctx.vesting_entry.released_amount = vested;
    Ok(())
}

proof fn lemma_vested_bounded(e: VestingEntry, now: i64)
    requires
        now >= e.start_time,
    ensures
        0 <= vested_amount(e, now) <= e.total_amount,
{
    if now - e.start_time < e.duration {
        let t = e.total_amount as int;
        let el = now - e.start_time;
        let d = e.duration as int;
        assert(0 <= (t * el) / d <= t) by (nonlinear_arith)
            requires
                0 <= t,
                0 <= el < d,
        ;
    }
}

/// One release keeps what was released, never passes the allocation, and pays the
/// beneficiary exactly what it adds to the released amount.
pub proof fn lemma_release_step(c: ReleaseVestedReward, now: i64)
    requires
        c.vesting_entry.wf(),
    ensures
        release_step(c, now).vesting_entry.wf(),
        release_step(c, now).vesting_entry.total_amount == c.vesting_entry.total_amount,
        release_step(c, now).vesting_entry.released_amount >= c.vesting_entry.released_amount,
        release_step(c, now).beneficiary_token_amount - c.beneficiary_token_amount == release_step(
            c,
            now,
        ).vesting_entry.released_amount - c.vesting_entry.released_amount,
{
    if now >= c.vesting_entry.start_time {
        lemma_vested_bounded(c.vesting_entry, now);
    }
}

/// The records after successive releases at `times`.
pub open spec fn release_run(c: ReleaseVestedReward, times: Seq<i64>) -> ReleaseVestedReward
    decreases times.len(),
{
    if times.len() == 0 {
        c
    } else {
        release_step(release_run(c, times.drop_last()), times.last())
    }
}

/// Releases at any times, in any number, never lower the released amount, and all that
/// they pay the beneficiary together never exceeds the allocation left unreleased.
pub proof fn lemma_release_run(c: ReleaseVestedReward, times: Seq<i64>)
    requires
        c.vesting_entry.wf(),
    ensures
        release_run(c, times).vesting_entry.wf(),
        release_run(c, times).vesting_entry.total_amount == c.vesting_entry.total_amount,
        release_run(c, times).vesting_entry.released_amount >= c.vesting_entry.released_amount,
        release_run(c, times).beneficiary_token_amount - c.beneficiary_token_amount == release_run(
            c,
            times,
        ).vesting_entry.released_amount - c.vesting_entry.released_amount,
        release_run(c, times).beneficiary_token_amount - c.beneficiary_token_amount <= c.vesting_entry.total_amount
            - c.vesting_entry.released_amount,
    decreases times.len(),
{
    if times.len() > 0 {
        lemma_release_run(c, times.drop_last());
        lemma_release_step(release_run(c, times.drop_last()), times.last());
    }
}

/// The records after successive grants of `reward_amount` at `times`, with whether
/// each grant succeeded.
pub open spec fn distribute_run(c: DistributeReward, reward_amount: u64, times: Seq<i64>) -> (
    DistributeReward,
    Seq<bool>,
)
    decreases times.len(),
{
    if times.len() == 0 {
        (c, seq![])
    } else {
        let (d, outcomes) = distribute_run(c, reward_amount, times.drop_last());
        (
            distribute_step(d, reward_amount, times.last()),
            outcomes.push(distribute_error(d, times.last()) is None),
        )
    }
}

/// Five grants per calendar day: of successive grants within one day, begun on a day
/// other than the tracker's, the first five succeed and every later one is refused
/// with `DailyLimitExceeded`; a grant on any other day then succeeds again.
pub proof fn lemma_daily_limit(c: DistributeReward, reward_amount: u64, times: Seq<i64>, later: i64)
    requires
        times.len() > 0,
        forall|i: int| 0 <= i < times.len() ==> day_of(#[trigger] times[i]) == day_of(times[0]),
        forall|i: int| 0 <= i < times.len() ==> #[trigger] times[i] <= i64::MAX - SECONDS_PER_DAY,
        c.reward_tracker.last_reward_day != day_of(times[0]),
        day_of(later) != day_of(times[0]),
        later <= i64::MAX - SECONDS_PER_DAY,
    ensures
        distribute_run(c, reward_amount, times).1.len() == times.len(),
        forall|i: int| 0 <= i < times.len() ==> #[trigger] distribute_run(c, reward_amount, times).1[i] == (i < 5),
        distribute_error(distribute_run(c, reward_amount, times).0, later) is None,
{
    lemma_daily_run(c, reward_amount, times);
}

proof fn lemma_daily_run(c: DistributeReward, reward_amount: u64, times: Seq<i64>)
    requires
        times.len() > 0,
        forall|i: int| 0 <= i < times.len() ==> day_of(#[trigger] times[i]) == day_of(times[0]),
        forall|i: int| 0 <= i < times.len() ==> #[trigger] times[i] <= i64::MAX - SECONDS_PER_DAY,
        c.reward_tracker.last_reward_day != day_of(times[0]),
    ensures
        distribute_run(c, reward_amount, times).1.len() == times.len(),
        forall|i: int| 0 <= i < times.len() ==> #[trigger] distribute_run(c, reward_amount, times).1[i] == (i < 5),
        distribute_run(c, reward_amount, times).0.reward_tracker.last_reward_day == day_of(times[0]),
        distribute_run(c, reward_amount, times).0.reward_tracker.daily_count == if times.len() < 5 {
            times.len() as int
        } else {
            5
        },
    decreases times.len(),
{
    let n = times.len();
    let prev = times.drop_last();
    if n > 1 {
        assert forall|i: int| 0 <= i < prev.len() implies day_of(#[trigger] prev[i]) == day_of(prev[0]) by {
            assert(prev[i] == times[i]);
        }
        assert forall|i: int| 0 <= i < prev.len() implies #[trigger] prev[i] <= i64::MAX - SECONDS_PER_DAY by {
            assert(prev[i] == times[i]);
        }
        lemma_daily_run(c, reward_amount, prev);
        assert(times.last() == times[n - 1]);
    } else {
        assert(times.last() == times[0]);
        assert(distribute_run(c, reward_amount, prev).1 =~= seq![]);
    }
    let (d, outcomes) = distribute_run(c, reward_amount, prev);
    assert(day_of(times.last()) == day_of(times[0]));
    assert(day_of(times[0]) < 0x1_0000_0000_0000_0000) by {
        assert(times[0] <= i64::MAX);
    }
    assert forall|i: int| 0 <= i < n implies #[trigger] distribute_run(c, reward_amount, times).1[i] == (i < 5) by {
        if i < n - 1 {
            assert(distribute_run(c, reward_amount, times).1[i] == outcomes[i]);
        }
    }
}

} // verus!
