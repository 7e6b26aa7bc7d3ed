use ledger_engines::governance::{
    cast_vote, create_proposal, execute_proposal, initialize_dao, CastVote, CreateProposal, Dao,
    ExecuteProposal, GovernanceError, InitializeDao, Proposal, VoteRegistry,
};
use ledger_engines::ledger::{settle, Address, Transfer};

fn addr(n: u128) -> Address {
    Address { hi: 0, lo: n }
}

fn dao_with_period(period: i64) -> Dao {
    let ctx = InitializeDao { authority: addr(1), token_mint: addr(2) };
    initialize_dao(&ctx, "dao".to_string(), 10, period, 50).unwrap()
}

fn open_proposal(dao: &mut Dao, now: i64, amount: u64) -> Proposal {
    let ctx = CreateProposal { dao: addr(100), proposer: addr(3), now };
    create_proposal(&ctx, dao, "t".to_string(), "d".to_string(), addr(9), amount).unwrap()
}

fn vote_ctx(voter: u128, balance: u64, now: i64) -> CastVote {
    CastVote { proposal: addr(500), voter: addr(voter), voter_balance: balance, now }
}

#[test]
fn initialize_dao_records_parameters() {
    let dao = dao_with_period(100);
    assert_eq!(dao.name, "dao");
    assert_eq!(dao.authority, addr(1));
    assert_eq!(dao.token_mint, addr(2));
    assert_eq!(dao.min_tokens_to_propose, 10);
    assert_eq!(dao.voting_period, 100);
    assert_eq!(dao.quorum_percentage, 50);
    assert_eq!(dao.proposal_count, 0);
}

#[test]
fn initialize_dao_rejects_non_positive_period() {
    let ctx = InitializeDao { authority: addr(1), token_mint: addr(2) };
    let zero = initialize_dao(&ctx, "d".to_string(), 0, 0, 0);
    assert_eq!(zero.unwrap_err(), GovernanceError::InvalidVotingPeriod);
    let negative = initialize_dao(&ctx, "d".to_string(), 0, -5, 0);
    assert_eq!(negative.unwrap_err(), GovernanceError::InvalidVotingPeriod);
}

#[test]
fn proposal_ids_are_dense_and_window_is_one_period() {
    let mut dao = dao_with_period(100);
    let first = open_proposal(&mut dao, 7, 0);
    let second = open_proposal(&mut dao, 20, 0);
    assert_eq!(first.id, 0);
    assert_eq!(second.id, 1);
    assert_eq!(dao.proposal_count, 2);
    assert_eq!(first.start_time, 7);
    assert_eq!(first.end_time, 107);
    assert_eq!(second.end_time, second.start_time + dao.voting_period);
    assert_eq!(first.for_votes, 0);
    assert_eq!(first.against_votes, 0);
    assert!(!first.executed);
    assert_eq!(first.dao, addr(100));
    assert_eq!(first.proposer, addr(3));
    assert_eq!(first.target, addr(9));
}

#[test]
fn create_proposal_overflowing_end_time_fails() {
    let mut dao = dao_with_period(100);
    let ctx = CreateProposal { dao: addr(100), proposer: addr(3), now: i64::MAX - 50 };
    let r = create_proposal(&ctx, &mut dao, "t".to_string(), "d".to_string(), addr(9), 0);
    assert_eq!(r.unwrap_err(), GovernanceError::Overflow);
    assert_eq!(dao.proposal_count, 0);
}

#[test]
fn create_proposal_exhausted_counter_fails() {
    let mut dao = dao_with_period(100);
    dao.proposal_count = u64::MAX;
    let ctx = CreateProposal { dao: addr(100), proposer: addr(3), now: 0 };
    let r = create_proposal(&ctx, &mut dao, "t".to_string(), "d".to_string(), addr(9), 0);
    assert_eq!(r.unwrap_err(), GovernanceError::Overflow);
    assert_eq!(dao.proposal_count, u64::MAX);
}

#[test]
fn full_proposal_lifecycle() {
    let mut dao = dao_with_period(100);
    let mut proposal = open_proposal(&mut dao, 0, 40);
    assert_eq!(proposal.end_time, 100);
    let mut votes = VoteRegistry::new();

    let yes = cast_vote(&vote_ctx(11, 50, 10), &mut proposal, &mut votes, true).unwrap();
    assert_eq!(yes.weight, 50);
    assert!(yes.side);
    cast_vote(&vote_ctx(12, 10, 50), &mut proposal, &mut votes, false).unwrap();
    assert_eq!(proposal.for_votes, 50);
    assert_eq!(proposal.against_votes, 10);
    assert_eq!(votes.len(), 2);

    let early = execute_proposal(&ExecuteProposal { treasury_balance: 1000, now: 99 }, &proposal);
    assert_eq!(early.unwrap_err(), GovernanceError::VotingNotEnded);

    let outcome =
        execute_proposal(&ExecuteProposal { treasury_balance: 1000, now: 101 }, &proposal).unwrap();
    assert_eq!(outcome.transfers, vec![Transfer { from: addr(100), to: addr(9), amount: 40 }]);
    assert!(outcome.next.executed);
    assert!(settle(&mut proposal, outcome, Ok(())).is_ok());
    assert!(proposal.executed);

    let again = execute_proposal(&ExecuteProposal { treasury_balance: 1000, now: 200 }, &proposal);
    assert_eq!(again.unwrap_err(), GovernanceError::AlreadyExecuted);
}

#[test]
fn execute_exactly_at_end_time_is_too_early() {
    let mut dao = dao_with_period(100);
    let proposal = open_proposal(&mut dao, 0, 0);
    let r = execute_proposal(&ExecuteProposal { treasury_balance: 0, now: 100 }, &proposal);
    assert_eq!(r.unwrap_err(), GovernanceError::VotingNotEnded);
}

#[test]
fn tie_does_not_pass() {
    let mut dao = dao_with_period(100);
    let mut proposal = open_proposal(&mut dao, 0, 0);
    let mut votes = VoteRegistry::new();
    cast_vote(&vote_ctx(11, 5, 1), &mut proposal, &mut votes, true).unwrap();
    cast_vote(&vote_ctx(12, 5, 1), &mut proposal, &mut votes, false).unwrap();
    let r = execute_proposal(&ExecuteProposal { treasury_balance: 0, now: 101 }, &proposal);
    assert_eq!(r.unwrap_err(), GovernanceError::ProposalNotPassed);
}

#[test]
fn zero_amount_proposal_moves_nothing() {
    let mut dao = dao_with_period(10);
    let mut proposal = open_proposal(&mut dao, 0, 0);
    let mut votes = VoteRegistry::new();
    cast_vote(&vote_ctx(11, 1, 0), &mut proposal, &mut votes, true).unwrap();
    let outcome =
        execute_proposal(&ExecuteProposal { treasury_balance: 0, now: 11 }, &proposal).unwrap();
    assert!(outcome.transfers.is_empty());
    assert!(outcome.next.executed);
}

#[test]
fn treasury_short_of_amount_fails() {
    let mut dao = dao_with_period(10);
    let mut proposal = open_proposal(&mut dao, 0, 500);
    let mut votes = VoteRegistry::new();
    cast_vote(&vote_ctx(11, 1, 0), &mut proposal, &mut votes, true).unwrap();
    let r = execute_proposal(&ExecuteProposal { treasury_balance: 499, now: 11 }, &proposal);
    assert_eq!(r.unwrap_err(), GovernanceError::InsufficientFunds);
    let ok = execute_proposal(&ExecuteProposal { treasury_balance: 500, now: 11 }, &proposal);
    assert!(ok.is_ok());
}

#[test]
fn failed_payout_leaves_proposal_unexecuted() {
    let mut dao = dao_with_period(10);
    let mut proposal = open_proposal(&mut dao, 0, 5);
    let mut votes = VoteRegistry::new();
    cast_vote(&vote_ctx(11, 1, 0), &mut proposal, &mut votes, true).unwrap();
    let outcome =
        execute_proposal(&ExecuteProposal { treasury_balance: 5, now: 11 }, &proposal).unwrap();
    let failure = ledger_engines::ledger::TransferError { code: 1 };
    assert_eq!(settle(&mut proposal, outcome, Err(failure)), Err(failure));
    assert!(!proposal.executed);
    let retry = execute_proposal(&ExecuteProposal { treasury_balance: 5, now: 12 }, &proposal);
    assert!(retry.is_ok());
}

#[test]
fn second_ballot_of_same_voter_is_rejected() {
    let mut dao = dao_with_period(100);
    let mut proposal = open_proposal(&mut dao, 0, 0);
    let mut votes = VoteRegistry::new();
    cast_vote(&vote_ctx(11, 30, 1), &mut proposal, &mut votes, true).unwrap();
    let r = cast_vote(&vote_ctx(11, 30, 2), &mut proposal, &mut votes, false);
    assert_eq!(r.unwrap_err(), GovernanceError::DuplicateVote);
    assert_eq!(proposal.for_votes, 30);
    assert_eq!(proposal.against_votes, 0);
    assert_eq!(votes.len(), 1);
    let found = votes.find(addr(500), addr(11)).unwrap();
    assert_eq!(found.weight, 30);
    assert!(votes.find(addr(500), addr(12)).is_none());
}

#[test]
fn same_voter_may_vote_on_another_proposal() {
    let mut dao = dao_with_period(100);
    let mut first = open_proposal(&mut dao, 0, 0);
    let mut second = open_proposal(&mut dao, 0, 0);
    let mut votes = VoteRegistry::new();
    cast_vote(&vote_ctx(11, 3, 1), &mut first, &mut votes, true).unwrap();
    let other = CastVote { proposal: addr(501), voter: addr(11), voter_balance: 3, now: 1 };
    assert!(cast_vote(&other, &mut second, &mut votes, true).is_ok());
    assert_eq!(votes.len(), 2);
}

#[test]
fn vote_after_end_fails() {
    let mut dao = dao_with_period(100);
    let mut proposal = open_proposal(&mut dao, 0, 0);
    let mut votes = VoteRegistry::new();
    assert!(cast_vote(&vote_ctx(11, 1, 100), &mut proposal, &mut votes, true).is_ok());
    let r = cast_vote(&vote_ctx(12, 1, 101), &mut proposal, &mut votes, true);
    assert_eq!(r.unwrap_err(), GovernanceError::VotingEnded);
    assert_eq!(votes.len(), 1);
}

#[test]
fn vote_without_tokens_fails() {
    let mut dao = dao_with_period(100);
    let mut proposal = open_proposal(&mut dao, 0, 0);
    let mut votes = VoteRegistry::new();
    let r = cast_vote(&vote_ctx(11, 0, 1), &mut proposal, &mut votes, true);
    assert_eq!(r.unwrap_err(), GovernanceError::NoVotingPower);
    assert_eq!(votes.len(), 0);
}

#[test]
fn tally_overflow_fails_without_recording() {
    let mut dao = dao_with_period(100);
    let mut proposal = open_proposal(&mut dao, 0, 0);
    let mut votes = VoteRegistry::new();
    cast_vote(&vote_ctx(11, u64::MAX, 1), &mut proposal, &mut votes, false).unwrap();
    let r = cast_vote(&vote_ctx(12, 1, 1), &mut proposal, &mut votes, false);
    assert_eq!(r.unwrap_err(), GovernanceError::Overflow);
    assert_eq!(proposal.against_votes, u64::MAX);
    assert_eq!(votes.len(), 1);
}
