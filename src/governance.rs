use vstd::prelude::*;
use vstd::slice::slice_to_vec;

use crate::authority::{found_address, seed_views, try_find_program_address, Key, MAX_SEED_LEN};
use crate::error::CustomError;
use crate::marketplace::byte_len;
use crate::staking::StakeEntry;

verus! {

/// Most bytes of a proposal's title: the title is a seed of the proposal's address.
pub const MAX_TITLE_LEN: usize = 32;

/// Most bytes of a proposal's description.
pub const MAX_DESCRIPTION_LEN: usize = 1024;

/// A governance proposal and its stake-weighted tally.
#[derive(Debug, Clone)]
pub struct Proposal {
    pub proposer: Key,
    pub title: String,
    pub description: String,
    pub start_time: i64,
    pub end_time: i64,
    pub yes_votes: u64,
    pub no_votes: u64,
    pub executed: bool,
    pub bump: u8,
}

/// One voter's ballot on one proposal, with the voting power it carried.
#[derive(Debug, Clone, Copy)]
pub struct VoteRecord {
    pub voter: Key,
    pub proposal: Key,
    pub vote_yes: bool,
    pub voting_power: u64,
}

/// The records that opening a proposal writes.
#[derive(Debug, Clone)]
pub struct CreateProposal {
    pub program_id: Key,
    pub proposer: Key,
    pub proposal: Proposal,
}

/// The records that a vote reads and writes: the proposal, the voter's stake entry,
/// read for its amount, and the new vote record.
#[derive(Debug, Clone)]
pub struct Vote {
    pub voter: Key,
    pub proposal_key: Key,
    pub proposal: Proposal,
    pub stake_entry: StakeEntry,
    pub vote_record: VoteRecord,
}

/// The namespace of proposals: the ASCII bytes of `proposal`.
pub open spec fn proposal_namespace() -> Seq<u8> {
    seq![112u8, 114, 111, 112, 111, 115, 97, 108]
}

/// The seeds of a proposal's address: namespace, proposer and title.
pub open spec fn proposal_seeds(proposer: Key, title: Seq<char>) -> Seq<Seq<u8>> {
    seq![proposal_namespace(), proposer@, vstd::utf8::encode_utf8(title)]
}

/// Why opening a proposal is refused, if it is.
pub open spec fn create_proposal_error(
    c: CreateProposal,
    title: Seq<char>,
    description: Seq<char>,
    voting_period: i64,
    now: i64,
) -> Option<CustomError> {
    if byte_len(title) > MAX_TITLE_LEN || byte_len(description) > MAX_DESCRIPTION_LEN {
        Some(CustomError::FieldTooLong)
    } else if now + voting_period > i64::MAX || now + voting_period < i64::MIN {
        Some(CustomError::Overflow)
    } else if found_address(proposal_seeds(c.proposer, title), c.program_id@) is None {
        Some(CustomError::DerivationFailed)
    } else {
        None
    }
}

/// Opens a proposal that takes votes from `now` until `now + voting_period`, with empty
/// tallies.
pub fn create_proposal(
    ctx: &mut CreateProposal,
    title: String,
    description: String,
    voting_period: i64,
    now: i64,
) -> (r: Result<(), CustomError>)
    ensures
        match r {
            Ok(()) => {
                let p = final(ctx).proposal;
                &&& create_proposal_error(*old(ctx), title@, description@, voting_period, now) is None
                &&& final(ctx).program_id == old(ctx).program_id
                &&& final(ctx).proposer == old(ctx).proposer
                &&& p.proposer == old(ctx).proposer
                &&& p.title@ == title@
                &&& p.description@ == description@
                &&& p.start_time == now
                &&& p.end_time == now + voting_period
                &&& p.yes_votes == 0
                &&& p.no_votes == 0
                &&& !p.executed
                &&& found_address(proposal_seeds(old(ctx).proposer, title@), old(ctx).program_id@)
                    matches Some((_, b)) && b == p.bump
            },
            Err(e) => create_proposal_error(*old(ctx), title@, description@, voting_period, now) == Some(e)
                && *final(ctx) == *old(ctx),
        },
{
    let title_bytes = slice_to_vec(title.as_str().as_bytes());
    let description_len = description.as_str().as_bytes().len();
    if title_bytes.len() > MAX_TITLE_LEN || description_len > MAX_DESCRIPTION_LEN {
        return Err(CustomError::FieldTooLong);
    }
    let end_time = match now.checked_add(voting_period) {
        Some(t) => t,
        None => {
            return Err(CustomError::Overflow);
        },
    };
    let namespace: Vec<u8> = vec![112u8, 114, 111, 112, 111, 115, 97, 108];
    let mut proposer_bytes: Vec<u8> = Vec::new();
    let mut i: usize = 0;
    while i < 32
        invariant
            0 <= i <= 32,
            ctx.proposer@.len() == 32,
            proposer_bytes@ == ctx.proposer@.take(i as int),
        decreases 32 - i,
    {
        proposer_bytes.push(ctx.proposer[i]);
        i = i + 1;
        assert(proposer_bytes@ =~= ctx.proposer@.take(i as int));
    }
    let mut seeds: Vec<Vec<u8>> = Vec::new();
    seeds.push(namespace);
    seeds.push(proposer_bytes);
    seeds.push(title_bytes);
    proof {
        assert(ctx.proposer@.take(32) =~= ctx.proposer@);
        assert(seed_views(seeds@) =~= proposal_seeds(ctx.proposer, title@));
        assert forall|j: int| 0 <= j < seeds@.len() implies (#[trigger] seeds@[j])@.len() <= MAX_SEED_LEN by {
            assert(seed_views(seeds@)[j] == seeds@[j]@);
        }
    }
    let bump = match try_find_program_address(&seeds, &ctx.program_id) {
        Some((_, b)) => b,
        None => {
            return Err(CustomError::DerivationFailed);
        },
    };
    ctx.proposal = Proposal {
        proposer: ctx.proposer,
        title,
        description,
        start_time: now,
        end_time,
        yes_votes: 0,
        no_votes: 0,
        executed: false,
        bump,
    };
    Ok(())
}

/// Why a ballot of `power` at `now` is refused, if it is.
pub open spec fn ballot_error(p: Proposal, vote_yes: bool, power: u64, now: i64) -> Option<CustomError> {
    if now >= p.end_time {
        Some(CustomError::VotingClosed)
    } else if vote_yes && p.yes_votes + power > u64::MAX {
        Some(CustomError::Overflow)
    } else if !vote_yes && p.no_votes + power > u64::MAX {
        Some(CustomError::Overflow)
    } else {
        None
    }
}

/// The proposal with `power` added to the chosen side.
pub open spec fn tally_after(p: Proposal, vote_yes: bool, power: u64) -> Proposal {
    if vote_yes {
        Proposal { yes_votes: (p.yes_votes + power) as u64, ..p }
    } else {
        Proposal { no_votes: (p.no_votes + power) as u64, ..p }
    }
}

/// Why a vote at `now` is refused, if it is.
pub open spec fn vote_error(c: Vote, vote_yes: bool, now: i64) -> Option<CustomError> {
    ballot_error(c.proposal, vote_yes, c.stake_entry.amount, now)
}

/// The records after a vote: the voter's current stake is added to the chosen side
/// and recorded with the ballot.
pub open spec fn vote_effect(c: Vote, vote_yes: bool) -> Vote {
    Vote {
        proposal: tally_after(c.proposal, vote_yes, c.stake_entry.amount),
        vote_record: VoteRecord {
            voter: c.voter,
            proposal: c.proposal_key,
            vote_yes,
            voting_power: c.stake_entry.amount,
        },
        ..c
    }
}

/// Casts a ballot weighted by the voter's stake at this moment, while voting is open.
pub fn vote(ctx: &mut Vote, vote_yes: bool, now: i64) -> (r: Result<(), CustomError>)
    ensures
        match r {
            Ok(()) => vote_error(*old(ctx), vote_yes, now) is None && *final(ctx) == vote_effect(*old(ctx), vote_yes),
            Err(e) => vote_error(*old(ctx), vote_yes, now) == Some(e) && *final(ctx) == *old(ctx),
        },
{
    if now >= ctx.proposal.end_time {
        return Err(CustomError::VotingClosed);
    }
    let voting_power = ctx.stake_entry.amount;
    if vote_yes {
        if ctx.proposal.yes_votes > u64::MAX - voting_power {
            return Err(CustomError::Overflow);
        }
        ctx.proposal.yes_votes = ctx.proposal.yes_votes + voting_power;
    } else {
        if ctx.proposal.no_votes > u64::MAX - voting_power {
            return Err(CustomError::Overflow);
        }
        ctx.proposal.no_votes = ctx.proposal.no_votes + voting_power;
    }
    ctx.vote_record = VoteRecord { voter: ctx.voter, proposal: ctx.proposal_key, vote_yes, voting_power };
    Ok(())
}

/// The proposal after successive ballots `(vote_yes, power, now)`, with the voting
/// power recorded for each ballot that was accepted.
pub open spec fn tally_run(p: Proposal, ballots: Seq<(bool, u64, i64)>) -> (Proposal, Seq<u64>)
    decreases ballots.len(),
{
    if ballots.len() == 0 {
        (p, seq![])
    } else {
        let (q, recorded) = tally_run(p, ballots.drop_last());
        let (yes, power, now) = ballots.last();
        if ballot_error(q, yes, power, now) is None {
            (tally_after(q, yes, power), recorded.push(power))
        } else {
            (q, recorded)
        }
    }
}

/// The sum of recorded voting powers.
pub open spec fn sum_powers(powers: Seq<u64>) -> int
    decreases powers.len(),
{
    if powers.len() == 0 {
        0
    } else {
        sum_powers(powers.drop_last()) + powers.last()
    }
}

/// The tally is the sum of the recorded ballots: over any ballots, yes and no votes
/// together grow by exactly the voting power recorded, and the voting window stays.
pub proof fn lemma_tally_sums_records(p: Proposal, ballots: Seq<(bool, u64, i64)>)
    ensures
        tally_run(p, ballots).0.yes_votes + tally_run(p, ballots).0.no_votes == p.yes_votes + p.no_votes
            + sum_powers(tally_run(p, ballots).1),
        tally_run(p, ballots).0.end_time == p.end_time,
    decreases ballots.len(),
{
    if ballots.len() > 0 {
        lemma_tally_sums_records(p, ballots.drop_last());
        let (q, recorded) = tally_run(p, ballots.drop_last());
        let (yes, power, now) = ballots.last();
        if ballot_error(q, yes, power, now) is None {
            assert(recorded.push(power).drop_last() =~= recorded);
        }
    }
}

/// A ballot at or after the end time is refused with `VotingClosed` and leaves the
/// tallies as they were.
pub proof fn lemma_closed_vote_refused(c: Vote, vote_yes: bool, now: i64)
    requires
        now >= c.proposal.end_time,
    ensures
        vote_error(c, vote_yes, now) == Some(CustomError::VotingClosed),
{
}

} // verus!
