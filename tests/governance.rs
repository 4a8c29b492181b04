use cfish_contract::error::CustomError;
use cfish_contract::governance::{create_proposal, vote, CreateProposal, Proposal, Vote, VoteRecord};
use cfish_contract::staking::StakeEntry;
use anchor_lang::prelude::Pubkey;

const PROGRAM: [u8; 32] = [9u8; 32];
const PROPOSER: [u8; 32] = [7u8; 32];
const T0: i64 = 1_700_000_000;

fn blank_proposal() -> Proposal {
    Proposal {
        proposer: [0u8; 32],
        title: String::new(),
        description: String::new(),
        start_time: 0,
        end_time: 0,
        yes_votes: 0,
        no_votes: 0,
        executed: false,
        bump: 0,
    }
}

fn opened(period: i64) -> Proposal {
    let mut c = CreateProposal { program_id: PROGRAM, proposer: PROPOSER, proposal: blank_proposal() };
    assert_eq!(create_proposal(&mut c, "Fees".to_string(), "Lower fees".to_string(), period, T0), Ok(()));
    c.proposal
}

fn ballot(p: Proposal, voter: u8, power: u64) -> Vote {
    Vote {
        voter: [voter; 32],
        proposal_key: [11u8; 32],
        proposal: p,
        stake_entry: StakeEntry {
            staker: [voter; 32],
            amount: power,
            stake_start_time: T0,
            duration_days: 1,
            claimed_rewards: 0,
        },
        vote_record: VoteRecord { voter: [0u8; 32], proposal: [0u8; 32], vote_yes: false, voting_power: 0 },
    }
}

#[test]
fn proposal_opens_with_empty_tally() {
    let p = opened(1000);
    assert_eq!(p.proposer, PROPOSER);
    assert_eq!(p.title, "Fees");
    assert_eq!(p.description, "Lower fees");
    assert_eq!(p.start_time, T0);
    assert_eq!(p.end_time, T0 + 1000);
    assert_eq!(p.yes_votes, 0);
    assert_eq!(p.no_votes, 0);
    assert!(!p.executed);
    let (_, bump) = Pubkey::find_program_address(
        &[b"proposal", &PROPOSER, b"Fees"],
        &Pubkey::new_from_array(PROGRAM),
    );
    assert_eq!(p.bump, bump);
}

#[test]
fn proposal_title_longer_than_a_seed_fails() {
    let mut c = CreateProposal { program_id: PROGRAM, proposer: PROPOSER, proposal: blank_proposal() };
    let title = "x".repeat(33);
    assert_eq!(create_proposal(&mut c, title, String::new(), 10, T0), Err(CustomError::FieldTooLong));
    assert_eq!(c.proposal.title, "");
}

#[test]
fn proposal_end_time_overflow_fails() {
    let mut c = CreateProposal { program_id: PROGRAM, proposer: PROPOSER, proposal: blank_proposal() };
    assert_eq!(create_proposal(&mut c, "t".to_string(), String::new(), i64::MAX, T0), Err(CustomError::Overflow));
}

#[test]
fn tally_equals_recorded_power() {
    let mut p = opened(1000);
    let mut recorded: u64 = 0;
    let ballots = [(21u8, 300u64, true), (22, 500, false), (23, 0, true), (24, 45, true)];
    for (voter, power, yes) in ballots {
        let mut v = ballot(p.clone(), voter, power);
        assert_eq!(vote(&mut v, yes, T0 + 10), Ok(()));
        assert_eq!(v.vote_record.voter, [voter; 32]);
        assert_eq!(v.vote_record.proposal, [11u8; 32]);
        assert_eq!(v.vote_record.vote_yes, yes);
        assert_eq!(v.vote_record.voting_power, power);
        recorded += v.vote_record.voting_power;
        p = v.proposal;
    }
    assert_eq!(p.yes_votes, 345);
    assert_eq!(p.no_votes, 500);
    assert_eq!(p.yes_votes + p.no_votes, recorded);
}

#[test]
fn vote_after_end_fails_and_keeps_tally() {
    let p = opened(1000);
    let mut v = ballot(p, 21, 300);
    assert_eq!(vote(&mut v, true, T0 + 1000), Err(CustomError::VotingClosed));
    assert_eq!(v.proposal.yes_votes, 0);
    assert_eq!(v.proposal.no_votes, 0);
    assert_eq!(v.vote_record.voting_power, 0);
}

#[test]
fn vote_tally_overflow_fails() {
    let mut p = opened(1000);
    p.no_votes = u64::MAX;
    let mut v = ballot(p, 21, 1);
    assert_eq!(vote(&mut v, false, T0), Err(CustomError::Overflow));
    assert_eq!(v.proposal.no_votes, u64::MAX);
}
