//! DAO registry, proposal lifecycle, vote tally and treasury execution.

use vstd::prelude::*;
use crate::ledger::{Address, Outcome, Transfer, outcome_view};

verus! {

/// A governed organisation: its voting parameters and the counter that
/// numbers its proposals.
#[derive(Debug)]
pub struct Dao {
    pub name: String,
    pub authority: Address,
    pub token_mint: Address,
    pub min_tokens_to_propose: u64,
    pub voting_period: i64,
    pub quorum_percentage: u64,
    pub proposal_count: u64,
}

/// A time-boxed request to move `amount` from the DAO's treasury to `target`.
#[derive(Debug)]
pub struct Proposal {
    pub id: u64,
    pub dao: Address,
    pub proposer: Address,
    pub title: String,
    pub description: String,
    pub target: Address,
    pub amount: u64,
    pub start_time: i64,
    pub end_time: i64,
    pub for_votes: u64,
    pub against_votes: u64,
    pub executed: bool,
}

/// The record of one voter's ballot on one proposal.
#[derive(Clone, Copy, Debug, PartialEq, Eq, Structural)]
pub struct VoteRecord {
    pub proposal: Address,
    pub voter: Address,
    pub side: bool,
    pub weight: u64,
}

#[derive(Clone, Copy, Debug, PartialEq, Eq, Structural)]
pub enum GovernanceError {
    VotingEnded,
    NoVotingPower,
    AlreadyExecuted,
    VotingNotEnded,
    ProposalNotPassed,
    /// Part of the error vocabulary; no operation raises it, since quorum
    /// against total supply is not enforced.
    QuorumNotMet,
    InsufficientFunds,
    DuplicateVote,
    Overflow,
    InvalidVotingPeriod,
}

/// The identities that `initialize_dao` records.
#[derive(Clone, Copy, Debug, PartialEq, Eq, Structural)]
pub struct InitializeDao {
    pub authority: Address,
    pub token_mint: Address,
}

/// The DAO account's address, the proposer, and the time of creation.
#[derive(Clone, Copy, Debug, PartialEq, Eq, Structural)]
pub struct CreateProposal {
    pub dao: Address,
    pub proposer: Address,
    pub now: i64,
}

/// The proposal's address, the voter, the voter's governed-token balance and
/// the time of the vote.
#[derive(Clone, Copy, Debug, PartialEq, Eq, Structural)]
pub struct CastVote {
    pub proposal: Address,
    pub voter: Address,
    pub voter_balance: u64,
    pub now: i64,
}

/// The treasury's current balance and the time of execution. The treasury
/// is the DAO account that the proposal names.
#[derive(Clone, Copy, Debug, PartialEq, Eq, Structural)]
pub struct ExecuteProposal {
    pub treasury_balance: u64,
    pub now: i64,
}

pub open spec fn initialize_dao_spec(
    ctx: InitializeDao,
    name: String,
    min_tokens_to_propose: u64,
    voting_period: i64,
    quorum_percentage: u64,
) -> Result<Dao, GovernanceError> {
    if voting_period <= 0 {
        Err(GovernanceError::InvalidVotingPeriod)
    } else {
        Ok(
            Dao {
                name,
                authority: ctx.authority,
                token_mint: ctx.token_mint,
                min_tokens_to_propose,
                voting_period,
                quorum_percentage,
                proposal_count: 0,
            },
        )
    }
}

/// Creates a DAO with no proposals; the voting period must be positive.
pub fn initialize_dao(
    ctx: &InitializeDao,
    name: String,
    min_tokens_to_propose: u64,
    voting_period: i64,
    quorum_percentage: u64,
) -> (r: Result<Dao, GovernanceError>)
    ensures
        r == initialize_dao_spec(*ctx, name, min_tokens_to_propose, voting_period, quorum_percentage),
{
    if voting_period <= 0 {
        return Err(GovernanceError::InvalidVotingPeriod);
    }
    Ok(
        Dao {
            name,
            authority: ctx.authority,
            token_mint: ctx.token_mint,
            min_tokens_to_propose,
            voting_period,
            quorum_percentage,
            proposal_count: 0,
        },
    )
}

/// The DAO after a proposal is created, with the new proposal; `Overflow` when
/// the end of the window or the next identifier does not fit.
pub open spec fn create_proposal_spec(
    ctx: CreateProposal,
    dao: Dao,
    title: String,
    description: String,
    target: Address,
    amount: u64,
) -> Result<(Dao, Proposal), GovernanceError> {
    let end = ctx.now + dao.voting_period;
    if end < i64::MIN || end > i64::MAX || dao.proposal_count == u64::MAX {
        Err(GovernanceError::Overflow)
    } else {
        Ok(
            (
                Dao { proposal_count: (dao.proposal_count + 1) as u64, ..dao },
                Proposal {
                    id: dao.proposal_count,
                    dao: ctx.dao,
                    proposer: ctx.proposer,
                    title,
                    description,
                    target,
                    amount,
                    start_time: ctx.now,
                    end_time: end as i64,
                    for_votes: 0,
                    against_votes: 0,
                    executed: false,
                },
            ),
        )
    }
}

/// Opens a proposal numbered by the DAO's counter, which then advances; the
/// DAO is left unchanged on failure.
pub fn create_proposal(
    ctx: &CreateProposal,
    dao: &mut Dao,
    title: String,
    description: String,
    target: Address,
    amount: u64,
) -> (r: Result<Proposal, GovernanceError>)
    ensures
        match r {
            Ok(p) => create_proposal_spec(*ctx, *old(dao), title, description, target, amount)
                == Ok::<(Dao, Proposal), GovernanceError>((*final(dao), p)),
            Err(e) => create_proposal_spec(*ctx, *old(dao), title, description, target, amount)
                == Err::<(Dao, Proposal), GovernanceError>(e) && *final(dao) == *old(dao),
        },
{
    let end_time = match ctx.now.checked_add(dao.voting_period) {
        Some(t) => t,
        None => {
            return Err(GovernanceError::Overflow);
        },
    };
    if dao.proposal_count == u64::MAX {
        return Err(GovernanceError::Overflow);
    }
    let id = dao.proposal_count;
    dao.proposal_count = id + 1;
    Ok(
        Proposal {
            id,
            dao: ctx.dao,
            proposer: ctx.proposer,
            title,
            description,
            target,
            amount,
            start_time: ctx.now,
            end_time,
            for_votes: 0,
            against_votes: 0,
            executed: false,
        },
    )
}

/// Whether `votes` holds a ballot of `voter` on the proposal at `proposal`.
pub open spec fn has_vote(votes: Seq<VoteRecord>, proposal: Address, voter: Address) -> bool {
    exists|i: int|
        0 <= i < votes.len() && #[trigger] votes[i].proposal == proposal && votes[i].voter == voter
}

/// No (proposal, voter) pair occurs twice.
pub open spec fn unique_ballots(votes: Seq<VoteRecord>) -> bool {
    forall|i: int, j: int|
        0 <= i < j < votes.len() ==> !(#[trigger] votes[i].proposal == #[trigger] votes[j].proposal
            && votes[i].voter == votes[j].voter)
}

/// The ballots cast so far, at most one per (proposal, voter) pair.
pub struct VoteRegistry {
    records: Vec<VoteRecord>,
}

impl View for VoteRegistry {
    type V = Seq<VoteRecord>;

    closed spec fn view(&self) -> Seq<VoteRecord> {
        self.records@
    }
}

impl VoteRegistry {
    pub open spec fn wf(&self) -> bool {
        unique_ballots(self@)
    }

    pub fn new() -> (r: VoteRegistry)
        ensures
            r@ == Seq::<VoteRecord>::empty(),
            r.wf(),
    {
        VoteRegistry { records: Vec::new() }
    }

    pub fn len(&self) -> (r: usize)
        ensures
            r == self@.len(),
    {
        self.records.len()
    }

    /// The ballot of `voter` on the proposal at `proposal`, if one was cast.
    pub fn find(&self, proposal: Address, voter: Address) -> (r: Option<VoteRecord>)
        ensures
            r is Some <==> has_vote(self@, proposal, voter),
            r matches Some(v) ==> self@.contains(v) && v.proposal == proposal && v.voter == voter,
    {
        let mut i: usize = 0;
        while i < self.records.len()
            invariant
                i <= self.records@.len(),
                forall|k: int|
                    0 <= k < i ==> !(#[trigger] self.records@[k].proposal == proposal
                        && self.records@[k].voter == voter),
            decreases self.records@.len() - i,
        {
            let v = self.records[i];
            if v.proposal == proposal && v.voter == voter {
                assert(self@[i as int] == v);
                return Some(v);
            }
            i = i + 1;
        }
        None
    }

    /// Stores `v` unless a ballot for the same pair is already there; says
    /// whether it did.
    pub fn insert_if_absent(&mut self, v: VoteRecord) -> (r: bool)
        requires
            old(self).wf(),
        ensures
            r == !has_vote(old(self)@, v.proposal, v.voter),
            r ==> final(self)@ == old(self)@.push(v),
            !r ==> final(self)@ == old(self)@,
            final(self).wf(),
    {
        if self.find(v.proposal, v.voter).is_some() {
            return false;
        }
        self.records.push(v);
        assert(unique_ballots(self@)) by {
            assert forall|i: int, j: int| 0 <= i < j < self@.len() implies !(
            #[trigger] self@[i].proposal == #[trigger] self@[j].proposal && self@[i].voter
                == self@[j].voter) by {
                if j == self@.len() - 1 {
                    assert(old(self)@[i] == self@[i]);
                }
            }
        }
        true
    }
}

/// The proposal after a ballot of `weight` on `side`.
pub open spec fn tallied(p: Proposal, side: bool, weight: u64) -> Proposal {
    if side {
        Proposal { for_votes: (p.for_votes + weight) as u64, ..p }
    } else {
        Proposal { against_votes: (p.against_votes + weight) as u64, ..p }
    }
}

/// The proposal after the vote, with the ballot recorded for it.
pub open spec fn cast_vote_spec(
    ctx: CastVote,
    p: Proposal,
    votes: Seq<VoteRecord>,
    side: bool,
) -> Result<(Proposal, VoteRecord), GovernanceError> {
    let w = ctx.voter_balance;
    if has_vote(votes, ctx.proposal, ctx.voter) {
        Err(GovernanceError::DuplicateVote)
    } else if ctx.now > p.end_time {
        Err(GovernanceError::VotingEnded)
    } else if w == 0 {
        Err(GovernanceError::NoVotingPower)
    } else if (side && p.for_votes + w > u64::MAX) || (!side && p.against_votes + w > u64::MAX) {
        Err(GovernanceError::Overflow)
    } else {
        Ok(
            (
                tallied(p, side, w),
                VoteRecord { proposal: ctx.proposal, voter: ctx.voter, side, weight: w },
            ),
        )
    }
}

/// Adds the voter's whole balance to one side of the tally and records the
/// ballot, both or neither: a second ballot on the same proposal by the same
/// voter fails with `DuplicateVote`.
pub fn cast_vote(
    ctx: &CastVote,
    proposal: &mut Proposal,
    votes: &mut VoteRegistry,
    side: bool,
) -> (r: Result<VoteRecord, GovernanceError>)
    requires
        old(votes).wf(),
    ensures
        final(votes).wf(),
        match r {
            Ok(v) => cast_vote_spec(*ctx, *old(proposal), old(votes)@, side) == Ok::<
                (Proposal, VoteRecord),
                GovernanceError,
            >((*final(proposal), v)) && final(votes)@ == old(votes)@.push(v),
            Err(e) => cast_vote_spec(*ctx, *old(proposal), old(votes)@, side) == Err::<
                (Proposal, VoteRecord),
                GovernanceError,
            >(e) && *final(proposal) == *old(proposal) && final(votes)@ == old(votes)@,
        },
{
    if votes.find(ctx.proposal, ctx.voter).is_some() {
        return Err(GovernanceError::DuplicateVote);
    }
    if ctx.now > proposal.end_time {
        return Err(GovernanceError::VotingEnded);
    }
    let weight = ctx.voter_balance;
    if weight == 0 {
        return Err(GovernanceError::NoVotingPower);
    }
    let tally = if side {
        proposal.for_votes
    } else {
        proposal.against_votes
    };
    let new_tally = match tally.checked_add(weight) {
        Some(t) => t,
        None => {
            return Err(GovernanceError::Overflow);
        },
    };
    let record = VoteRecord { proposal: ctx.proposal, voter: ctx.voter, side, weight };
    let inserted = votes.insert_if_absent(record);
    assert(inserted);
    if side {
        proposal.for_votes = new_tally;
    } else {
        proposal.against_votes = new_tally;
    }
    Ok(record)
}

/// The proposal marked executed, with the treasury payout it calls for.
pub open spec fn execute_proposal_spec(ctx: ExecuteProposal, p: Proposal) -> Result<
    (Proposal, Seq<Transfer>),
    GovernanceError,
> {
    if p.executed {
        Err(GovernanceError::AlreadyExecuted)
    } else if ctx.now <= p.end_time {
        Err(GovernanceError::VotingNotEnded)
    } else if p.for_votes <= p.against_votes {
        Err(GovernanceError::ProposalNotPassed)
    } else if p.amount > 0 && ctx.treasury_balance < p.amount {
        Err(GovernanceError::InsufficientFunds)
    } else {
        Ok(
            (
                Proposal { executed: true, ..p },
                if p.amount > 0 {
                    seq![Transfer { from: p.dao, to: p.target, amount: p.amount }]
                } else {
                    Seq::empty()
                },
            ),
        )
    }
}

/// Executes a passed proposal once its voting window has closed: the
/// treasury pays the target, and only then is the proposal marked executed.
pub fn execute_proposal(ctx: &ExecuteProposal, proposal: &Proposal) -> (r: Result<
    Outcome<Proposal>,
    GovernanceError,
>)
    ensures
        outcome_view(r) == execute_proposal_spec(*ctx, *proposal),
{
    if proposal.executed {
        return Err(GovernanceError::AlreadyExecuted);
    }
    if ctx.now <= proposal.end_time {
        return Err(GovernanceError::VotingNotEnded);
    }
    if proposal.for_votes <= proposal.against_votes {
        return Err(GovernanceError::ProposalNotPassed);
    }
    let amount = proposal.amount;
    let mut transfers: Vec<Transfer> = Vec::new();
    if amount > 0 {
        if ctx.treasury_balance < amount {
            return Err(GovernanceError::InsufficientFunds);
        }
        transfers.push(Transfer { from: proposal.dao, to: proposal.target, amount });
        assert(transfers@ =~= seq![Transfer { from: proposal.dao, to: proposal.target, amount }]);
    }
    let next = Proposal {
        id: proposal.id,
        dao: proposal.dao,
        proposer: proposal.proposer,
        title: proposal.title.clone(),
        description: proposal.description.clone(),
        target: proposal.target,
        amount,
        start_time: proposal.start_time,
        end_time: proposal.end_time,
        for_votes: proposal.for_votes,
        against_votes: proposal.against_votes,
        executed: true,
    };
    Ok(Outcome { next, transfers })
}

/// Every proposal that `create_proposal` opens ends exactly one voting period
/// after it starts, and takes the DAO's counter as its identifier.
pub proof fn lemma_proposal_window(
    ctx: CreateProposal,
    dao: Dao,
    title: String,
    description: String,
    target: Address,
    amount: u64,
)
    ensures
        create_proposal_spec(ctx, dao, title, description, target, amount) matches Ok((d, p)) ==> {
            &&& p.end_time == p.start_time + dao.voting_period
            &&& p.start_time == ctx.now
            &&& p.id == dao.proposal_count
            &&& d.proposal_count == dao.proposal_count + 1
            &&& d == Dao { proposal_count: d.proposal_count, ..dao }
            &&& !p.executed
            &&& p.for_votes == 0 && p.against_votes == 0
        },
{
}

/// Voting never moves a proposal's window or its executed flag, and the
/// tallies only grow.
pub proof fn lemma_vote_keeps_window(ctx: CastVote, p: Proposal, votes: Seq<VoteRecord>, side: bool)
    ensures
        cast_vote_spec(ctx, p, votes, side) matches Ok((q, v)) ==> {
            &&& q.start_time == p.start_time
            &&& q.end_time == p.end_time
            &&& q.executed == p.executed
            &&& q.for_votes >= p.for_votes
            &&& q.against_votes >= p.against_votes
            &&& q.for_votes + q.against_votes == p.for_votes + p.against_votes + v.weight
        },
{
}

/// A proposal becomes executed only from not executed, only when it passed
/// and its window has closed, and an executed proposal is never executed
/// again, whatever the time or the treasury holds.
pub proof fn lemma_execute_at_most_once(ctx: ExecuteProposal, p: Proposal, later: ExecuteProposal)
    ensures
        execute_proposal_spec(ctx, p) matches Ok((q, ts)) ==> {
            &&& !p.executed
            &&& q.executed
            &&& p.for_votes > p.against_votes
            &&& ctx.now > p.end_time
            &&& q == Proposal { executed: true, ..p }
            &&& execute_proposal_spec(later, q) == Err::<(Proposal, Seq<Transfer>), GovernanceError>(
                GovernanceError::AlreadyExecuted,
            )
        },
        p.executed ==> execute_proposal_spec(ctx, p) == Err::<
            (Proposal, Seq<Transfer>),
            GovernanceError,
        >(GovernanceError::AlreadyExecuted),
{
}

/// Once a ballot of a voter on a proposal is recorded, every further ballot of
/// that voter on that proposal fails with `DuplicateVote`, whatever the
/// proposal's state, the side, the balance or the time.
pub proof fn lemma_single_ballot(
    ctx: CastVote,
    p: Proposal,
    votes: Seq<VoteRecord>,
    side: bool,
    again: CastVote,
    later_state: Proposal,
    later_side: bool,
)
    requires
        again.proposal == ctx.proposal,
        again.voter == ctx.voter,
    ensures
        cast_vote_spec(ctx, p, votes, side) matches Ok((q, v)) ==> cast_vote_spec(
            again,
            later_state,
            votes.push(v),
            later_side,
        ) == Err::<(Proposal, VoteRecord), GovernanceError>(GovernanceError::DuplicateVote),
{
    if let Ok((q, v)) = cast_vote_spec(ctx, p, votes, side) {
        let s = votes.push(v);
        assert(s[votes.len() as int].proposal == again.proposal);
        assert(has_vote(s, again.proposal, again.voter));
    }
}

/// One call on an open proposal: a ballot on a side, or an execution whose
/// payout did or did not settle.
#[derive(Clone, Copy, Debug, PartialEq, Eq, Structural)]
pub enum ProposalCall {
    Vote(CastVote, bool),
    Execute(ExecuteProposal, bool),
}

/// Whether `call` executes the proposal: an execution that succeeds and whose
/// payout settles.
pub open spec fn executes(p: Proposal, call: ProposalCall) -> bool {
    match call {
        ProposalCall::Vote(_, _) => false,
        ProposalCall::Execute(c, settled) => settled && execute_proposal_spec(c, p) is Ok,
    }
}

/// The proposal and the ballots after `call`; a failed call, or an execution
/// whose payout failed, leaves both as they were.
pub open spec fn apply_proposal_call(
    state: (Proposal, Seq<VoteRecord>),
    call: ProposalCall,
) -> (Proposal, Seq<VoteRecord>) {
    match call {
        ProposalCall::Vote(c, side) => match cast_vote_spec(c, state.0, state.1, side) {
            Ok((q, v)) => (q, state.1.push(v)),
            Err(_) => state,
        },
        ProposalCall::Execute(c, _) => match execute_proposal_spec(c, state.0) {
            Ok((q, _)) => if executes(state.0, call) {
                (q, state.1)
            } else {
                state
            },
            Err(_) => state,
        },
    }
}

/// The proposal and the ballots after each call of `calls` in turn.
pub open spec fn apply_proposal_calls(
    state: (Proposal, Seq<VoteRecord>),
    calls: Seq<ProposalCall>,
) -> (Proposal, Seq<VoteRecord>)
    decreases calls.len(),
{
    if calls.len() == 0 {
        state
    } else {
        apply_proposal_call(apply_proposal_calls(state, calls.drop_last()), calls.last())
    }
}

/// How many calls of `calls` execute the proposal.
pub open spec fn execution_count(state: (Proposal, Seq<VoteRecord>), calls: Seq<ProposalCall>) -> nat
    decreases calls.len(),
{
    if calls.len() == 0 {
        0
    } else {
        execution_count(state, calls.drop_last()) + if executes(
            apply_proposal_calls(state, calls.drop_last()).0,
            calls.last(),
        ) {
            1nat
        } else {
            0nat
        }
    }
}

/// Over any sequence of ballots and executions on a proposal: its window,
/// identity and payout never change, its tallies never fall, at most one call
/// executes it and only if it was not executed before, it is executed at the
/// end exactly when it was before or one call executed it, and no
/// (proposal, voter) pair ever holds two ballots.
pub proof fn lemma_proposal_history(
    p: Proposal,
    votes: Seq<VoteRecord>,
    calls: Seq<ProposalCall>,
)
    requires
        unique_ballots(votes),
    ensures
        ({
            let (q, ballots) = apply_proposal_calls((p, votes), calls);
            &&& q.start_time == p.start_time
            &&& q.end_time == p.end_time
            &&& q.id == p.id && q.dao == p.dao && q.target == p.target && q.amount == p.amount
            &&& q.for_votes >= p.for_votes
            &&& q.against_votes >= p.against_votes
            &&& execution_count((p, votes), calls) <= 1
            &&& p.executed ==> q.executed && execution_count((p, votes), calls) == 0
            &&& q.executed <==> (p.executed || execution_count((p, votes), calls) == 1)
            &&& unique_ballots(ballots)
        }),
    decreases calls.len(),
{
    if calls.len() > 0 {
        let prev = calls.drop_last();
        lemma_proposal_history(p, votes, prev);
        let (q, ballots) = apply_proposal_calls((p, votes), prev);
        match calls.last() {
            ProposalCall::Vote(c, side) => {
                if let Ok((r, v)) = cast_vote_spec(c, q, ballots, side) {
                    let s = ballots.push(v);
                    assert(unique_ballots(s)) by {
                        assert forall|i: int, j: int| 0 <= i < j < s.len() implies !(
                        #[trigger] s[i].proposal == #[trigger] s[j].proposal && s[i].voter
                            == s[j].voter) by {
                            if j == ballots.len() {
                                assert(s[i] == ballots[i]);
                                if s[i].proposal == v.proposal && s[i].voter == v.voter {
                                    assert(ballots[i].proposal == c.proposal);
                                    assert(has_vote(ballots, c.proposal, c.voter));
                                }
                            }
                        }
                    }
                }
            },
            ProposalCall::Execute(_, _) => {},
        }
    }
}

/// For a DAO that `initialize_dao` creates: its voting period is positive,
/// every proposal opened on it, or on the DAO that any number of earlier
/// creations left, ends exactly one voting period after it starts, begins
/// unexecuted with empty tallies, and over any later sequence of ballots and
/// executions keeps that window and is executed at most once.
pub proof fn lemma_initialize_dao_proposals(
    ctx: InitializeDao,
    name: String,
    min_tokens_to_propose: u64,
    voting_period: i64,
    quorum_percentage: u64,
    earlier: Dao,
    create: CreateProposal,
    title: String,
    description: String,
    target: Address,
    amount: u64,
    calls: Seq<ProposalCall>,
)
    requires
        initialize_dao_spec(ctx, name, min_tokens_to_propose, voting_period, quorum_percentage) is Ok,
        earlier == (Dao {
            proposal_count: earlier.proposal_count,
            ..initialize_dao_spec(
                ctx,
                name,
                min_tokens_to_propose,
                voting_period,
                quorum_percentage,
            )->Ok_0
        }),
    ensures
        voting_period > 0,
        initialize_dao_spec(
            ctx,
            name,
            min_tokens_to_propose,
            voting_period,
            quorum_percentage,
        )->Ok_0.proposal_count == 0,
        create_proposal_spec(create, earlier, title, description, target, amount) matches Ok((d, p))
            ==> {
            let (q, _) = apply_proposal_calls((p, Seq::empty()), calls);
            &&& p.start_time == create.now
            &&& p.end_time == p.start_time + voting_period
            &&& !p.executed
            &&& d.voting_period == voting_period
            &&& q.start_time == p.start_time
            &&& q.end_time == p.end_time
            &&& execution_count((p, Seq::empty()), calls) <= 1
            &&& q.executed <==> execution_count((p, Seq::empty()), calls) == 1
        },
{
    if let Ok((d, p)) = create_proposal_spec(create, earlier, title, description, target, amount) {
        lemma_proposal_history(p, Seq::empty(), calls);
    }
}

} // verus!
