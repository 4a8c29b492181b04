use vstd::prelude::*;

use crate::authority::{certified_address, derive_authority, derived, verify_authority, Key};
use crate::clock::{days_between, elapsed_days};
use crate::error::CustomError;

verus! {

/// The stake of one staker and the rewards paid out to them.
#[derive(Debug, Clone, Copy)]
pub struct StakeEntry {
    pub staker: Key,
    pub amount: u64,
    pub stake_start_time: i64,
    pub duration_days: u64,
    pub claimed_rewards: u64,
}

/// The certifying bump of the derived authority that holds a staker's tokens.
#[derive(Debug, Clone, Copy, PartialEq, Eq, Structural)]
pub struct StakeAuthority {
    pub bump: u8,
}

/// The records that staking reads and writes: the staker's and the stake account's
/// token balances, the stake authority and the stake entry.
#[derive(Debug, Clone, Copy)]
pub struct Stake {
    pub program_id: Key,
    pub staker: Key,
    pub staker_token_amount: u64,
    pub stake_account_amount: u64,
    pub stake_authority: StakeAuthority,
    pub stake_entry: StakeEntry,
}

/// The records that unstaking reads and writes: both token balances, the stake
/// authority with its address, and the stake entry.
#[derive(Debug, Clone, Copy)]
pub struct Unstake {
    pub program_id: Key,
    pub staker: Key,
    pub staker_token_amount: u64,
    pub stake_account_amount: u64,
    pub stake_authority_key: Key,
    pub stake_authority: StakeAuthority,
    pub stake_entry: StakeEntry,
}

/// The namespace of stake authorities: the ASCII bytes of `stake_authority`.
pub open spec fn stake_namespace() -> Seq<u8> {
    seq![115u8, 116, 97, 107, 101, 95, 97, 117, 116, 104, 111, 114, 105, 116, 121]
}

fn stake_namespace_bytes() -> (r: Vec<u8>)
    ensures
        r@ == stake_namespace(),
{
    let r: Vec<u8> = vec![115u8, 116, 97, 107, 101, 95, 97, 117, 116, 104, 111, 114, 105, 116, 121];
    assert(r@ =~= stake_namespace());
    r
}

/// One percent of the principal per whole elapsed day, not compounded, truncated.
pub open spec fn stake_rewards(amount: u64, start: i64, now: i64) -> int {
    amount as int * elapsed_days(start, now) / 100
}

/// The entry after staking `amount` more at `now`: the amounts add up, and the reward
/// clock and the duration start over for the whole balance.
pub open spec fn entry_after_stake(e: StakeEntry, staker: Key, amount: u64, duration_days: u64, now: i64) -> StakeEntry {
    StakeEntry {
        staker,
        amount: (e.amount + amount) as u64,
        stake_start_time: now,
        duration_days,
        claimed_rewards: 0,
    }
}

/// Why staking `amount` is refused, if it is.
pub open spec fn stake_error(c: Stake, amount: u64) -> Option<CustomError> {
    if c.staker_token_amount < amount {
        Some(CustomError::InsufficientFunds)
    } else if c.stake_account_amount + amount > u64::MAX {
        Some(CustomError::Overflow)
    } else if c.stake_entry.amount + amount > u64::MAX {
        Some(CustomError::Overflow)
    } else if derived(stake_namespace(), seq![c.staker], c.program_id@) is None {
        Some(CustomError::DerivationFailed)
    } else {
        None
    }
}

/// The records after staking `amount` at `now`, with the stake authority's bump.
pub open spec fn stake_effect(c: Stake, amount: u64, duration_days: u64, now: i64, bump: u8) -> Stake {
    Stake {
        staker_token_amount: (c.staker_token_amount - amount) as u64,
        stake_account_amount: (c.stake_account_amount + amount) as u64,
        stake_authority: StakeAuthority { bump },
        stake_entry: entry_after_stake(c.stake_entry, c.staker, amount, duration_days, now),
        ..c
    }
}

/// Locks `amount` of the staker's tokens under the staker's derived stake authority and
/// restarts the reward clock.
pub fn stake(ctx: &mut Stake, amount: u64, duration_days: u64, now: i64) -> (r: Result<(), CustomError>)
    ensures
        match r {
            Ok(()) => {
                &&& stake_error(*old(ctx), amount) is None
                &&& derived(stake_namespace(), seq![old(ctx).staker], old(ctx).program_id@) matches Some(
                    (_, b),
                ) && b == final(ctx).stake_authority.bump
                &&& *final(ctx) == stake_effect(
                    *old(ctx),
                    amount,
                    duration_days,
                    now,
                    final(ctx).stake_authority.bump,
                )
            },
            Err(e) => stake_error(*old(ctx), amount) == Some(e) && *final(ctx) == *old(ctx),
        },
{
    if ctx.staker_token_amount < amount {
        return Err(CustomError::InsufficientFunds);
    }
    if ctx.stake_account_amount > u64::MAX - amount {
        return Err(CustomError::Overflow);
    }
    if ctx.stake_entry.amount > u64::MAX - amount {
        return Err(CustomError::Overflow);
    }
    let namespace = stake_namespace_bytes();
    let mut owners: Vec<Key> = Vec::new();
    owners.push(ctx.staker);
    proof {
        assert(owners@ =~= seq![ctx.staker]);
    }
    let bump = match derive_authority(&namespace, &owners, &ctx.program_id) {
        Some((_, b)) => b,
        None => {
            return Err(CustomError::DerivationFailed);
        },
    };
    ctx.staker_token_amount = ctx.staker_token_amount - amount;
    ctx.stake_account_amount = ctx.stake_account_amount + amount;
    ctx.stake_authority = StakeAuthority { bump };
    ctx.stake_entry = StakeEntry {
        staker: ctx.staker,
        amount: ctx.stake_entry.amount + amount,
        stake_start_time: now,
        duration_days,
        claimed_rewards: 0,
    };
    Ok(())
}

/// What unstaking at `now` pays out: the principal and its rewards.
pub open spec fn unstake_payout(e: StakeEntry, now: i64) -> int {
    e.amount + stake_rewards(e.amount, e.stake_start_time, now)
}

/// Why unstaking at `now` is refused, if it is.
pub open spec fn unstake_error(c: Unstake, now: i64) -> Option<CustomError> {
    let rewards = stake_rewards(c.stake_entry.amount, c.stake_entry.stake_start_time, now);
    let payout = unstake_payout(c.stake_entry, now);
    if payout > u64::MAX {
        Some(CustomError::Overflow)
    } else if certified_address(stake_namespace(), seq![c.staker], c.stake_authority.bump, c.program_id@)
        != Some(c.stake_authority_key@) {
        Some(CustomError::AuthorityMismatch)
    } else if c.stake_account_amount < payout {
        Some(CustomError::InsufficientFunds)
    } else if c.staker_token_amount + payout > u64::MAX {
        Some(CustomError::Overflow)
    } else if c.stake_entry.claimed_rewards + rewards > u64::MAX {
        Some(CustomError::Overflow)
    } else {
        None
    }
}

/// The records after unstaking at `now`: the payout goes back to the staker, the stake
/// drops to zero and the rewards are counted as claimed.
pub open spec fn unstake_effect(c: Unstake, now: i64) -> Unstake {
    let rewards = stake_rewards(c.stake_entry.amount, c.stake_entry.stake_start_time, now);
    let payout = unstake_payout(c.stake_entry, now);
    Unstake {
        staker_token_amount: (c.staker_token_amount + payout) as u64,
        stake_account_amount: (c.stake_account_amount - payout) as u64,
        stake_entry: StakeEntry {
            amount: 0,
            claimed_rewards: (c.stake_entry.claimed_rewards + rewards) as u64,
            ..c.stake_entry
        },
        ..c
    }
}

/// The rewards that `amount` has earned from `start` to `now`.
pub fn compute_rewards(amount: u64, start: i64, now: i64) -> (r: u128)
    ensures
        r == stake_rewards(amount, start, now),
{
    let days = days_between(start, now);
    let a = amount as u128;
    let d = days as u128;
    assert(a * d <= 0xffff_ffff_ffff_ffffu128 * 0xffff_ffff_ffff_ffffu128) by (nonlinear_arith)
        requires
            a <= 0xffff_ffff_ffff_ffffu128,
            d <= 0xffff_ffff_ffff_ffffu128,
    ;
    let product = a * d;
    product / 100
}

/// Returns the stake and its rewards to the staker, signed for by the staker's derived
/// stake authority, and empties the stake.
pub fn unstake(ctx: &mut Unstake, now: i64) -> (r: Result<(), CustomError>)
    ensures
        match r {
            Ok(()) => unstake_error(*old(ctx), now) is None && *final(ctx) == unstake_effect(*old(ctx), now),
            Err(e) => unstake_error(*old(ctx), now) == Some(e) && *final(ctx) == *old(ctx),
        },
{
    let earned = compute_rewards(ctx.stake_entry.amount, ctx.stake_entry.stake_start_time, now);
    if earned > (u64::MAX - ctx.stake_entry.amount) as u128 {
        return Err(CustomError::Overflow);
    }
    let rewards = earned as u64;
    let payout = ctx.stake_entry.amount + rewards;
    let namespace = stake_namespace_bytes();
    let mut owners: Vec<Key> = Vec::new();
    owners.push(ctx.staker);
    proof {
        assert(owners@ =~= seq![ctx.staker]);
    }
    if !verify_authority(&namespace, &owners, ctx.stake_authority.bump, &ctx.program_id, &ctx.stake_authority_key) {
        return Err(CustomError::AuthorityMismatch);
    }
    if ctx.stake_account_amount < payout {
        return Err(CustomError::InsufficientFunds);
    }
    if ctx.staker_token_amount > u64::MAX - payout {
        return Err(CustomError::Overflow);
    }
    if ctx.stake_entry.claimed_rewards > u64::MAX - rewards {
        return Err(CustomError::Overflow);
    }
    ctx.stake_account_amount = ctx.stake_account_amount - payout;
    ctx.staker_token_amount = ctx.staker_token_amount + payout;
    ctx.stake_entry.amount = 0;
    ctx.stake_entry.claimed_rewards = ctx.stake_entry.claimed_rewards + rewards;
    Ok(())
}

/// The sum of a sequence of amounts.
pub open spec fn sum_amounts(amounts: Seq<u64>) -> int
    decreases amounts.len(),
{
    if amounts.len() == 0 {
        0
    } else {
        sum_amounts(amounts.drop_last()) + amounts.last()
    }
}

/// The entry after successive stakes of `amounts[i]` for `durations[i]` days at `times[i]`.
pub open spec fn stake_run(
    e: StakeEntry,
    staker: Key,
    amounts: Seq<u64>,
    durations: Seq<u64>,
    times: Seq<i64>,
) -> StakeEntry
    decreases amounts.len(),
{
    if amounts.len() == 0 {
        e
    } else {
        entry_after_stake(
            stake_run(e, staker, amounts.drop_last(), durations.drop_last(), times.drop_last()),
            staker,
            amounts.last(),
            durations.last(),
            times.last(),
        )
    }
}

proof fn lemma_stake_run(e: StakeEntry, staker: Key, amounts: Seq<u64>, durations: Seq<u64>, times: Seq<i64>)
    requires
        durations.len() == amounts.len(),
        times.len() == amounts.len(),
        e.amount + sum_amounts(amounts) <= u64::MAX,
    ensures
        stake_run(e, staker, amounts, durations, times).amount == e.amount + sum_amounts(amounts),
        amounts.len() > 0 ==> stake_run(e, staker, amounts, durations, times).stake_start_time == times.last(),
    decreases amounts.len(),
{
    if amounts.len() > 0 {
        lemma_stake_run(e, staker, amounts.drop_last(), durations.drop_last(), times.drop_last());
    }
}

/// Stakes add up, and the last one restarts the reward clock for all of them: after
/// any run of stakes on an empty entry, an unstake pays back the sum of the amounts and
/// one percent of that sum per whole day since the last stake, and empties the stake.
pub proof fn lemma_stakes_then_unstake(
    e: StakeEntry,
    staker: Key,
    amounts: Seq<u64>,
    durations: Seq<u64>,
    times: Seq<i64>,
    u: Unstake,
    now: i64,
)
    requires
        e.amount == 0,
        amounts.len() > 0,
        durations.len() == amounts.len(),
        times.len() == amounts.len(),
        sum_amounts(amounts) <= u64::MAX,
        u.stake_entry == stake_run(e, staker, amounts, durations, times),
        unstake_error(u, now) is None,
    ensures
        unstake_effect(u, now).staker_token_amount - u.staker_token_amount == sum_amounts(amounts) + sum_amounts(
            amounts,
        ) * elapsed_days(times.last(), now) / 100,
        unstake_effect(u, now).stake_entry.amount == 0,
{
    lemma_stake_run(e, staker, amounts, durations, times);
}

} // verus!
