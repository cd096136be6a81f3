//! A vote tally: proposals are created, and each voter casts one vote for or
//! against a proposal.

use vstd::prelude::*;
use crate::address::Address;
use crate::store::Store;

verus! {

/// A proposal and the votes cast on it so far.
#[derive(Clone, Debug, PartialEq, Eq)]
pub struct Proposal {
    pub description: String,
    pub yes_votes: i128,
    pub no_votes: i128,
}

/// Why an operation of the tally was rejected.
#[derive(Clone, Copy, Debug, PartialEq, Eq, Structural)]
pub enum VotingError {
    /// The voter did not prove its identity.
    Unauthorized,
    /// The voter has voted on the proposal before.
    AlreadyVoted,
    /// No proposal has the given id.
    NotFound,
}

/// A notification that the tally records for outside watchers.
#[derive(Clone, Debug, PartialEq, Eq)]
pub enum VotingEvent {
    ProposalCreated { proposal_id: u32, description: String },
    VoteCast { proposal_id: u32, voter: Address, support: bool },
}

impl VotingEvent {
    /// The topic under which the event is published, as characters.
    pub open spec fn topic_name(self) -> Seq<char> {
        match self {
            VotingEvent::ProposalCreated { .. } => "proposal_created"@,
            VotingEvent::VoteCast { .. } => "vote_cast"@,
        }
    }

    /// The topic under which the event is published.
    pub fn topic(&self) -> (name: &'static str)
        ensures
            name@ == self.topic_name(),
    {
        match self {
            VotingEvent::ProposalCreated { .. } => "proposal_created",
            VotingEvent::VoteCast { .. } => "vote_cast",
        }
    }
}

/// The proposal `proposal` with one more vote, for it or against it.
pub open spec fn with_vote(proposal: Proposal, support: bool) -> Proposal {
    if support {
        Proposal { yes_votes: (proposal.yes_votes + 1) as i128, ..proposal }
    } else {
        Proposal { no_votes: (proposal.no_votes + 1) as i128, ..proposal }
    }
}

/// The tally's state as mathematics.
pub struct VotingState {
    /// The id that the next proposal gets.
    pub next_proposal_id: u32,
    /// The proposals, by id.
    pub proposals: Map<u32, Proposal>,
    /// The vote that each voter cast on each proposal.
    pub votes: Map<(u32, Address), bool>,
    /// The events recorded so far, oldest first.
    pub events: Seq<VotingEvent>,
}

impl VotingState {
    /// The state after creating a proposal: it is stored under the next id
    /// with no votes, and the next id moves on by one.
    pub open spec fn after_create(self, description: String) -> VotingState {
        VotingState {
            next_proposal_id: (self.next_proposal_id + 1) as u32,
            proposals: self.proposals.insert(
                self.next_proposal_id,
                Proposal { description, yes_votes: 0, no_votes: 0 },
            ),
            events: self.events.push(
                VotingEvent::ProposalCreated { proposal_id: self.next_proposal_id, description },
            ),
            ..self
        }
    }

    /// What casting a vote returns. The checks come in this order: the voter
    /// has proved its identity, it has not voted on the proposal before, and
    /// the proposal exists.
    pub open spec fn vote_result(self, voter: Address, authorized: bool, proposal_id: u32) -> Result<
        (),
        VotingError,
    > {
        if !authorized {
            Err(VotingError::Unauthorized)
        } else if self.votes.contains_key((proposal_id, voter)) {
            Err(VotingError::AlreadyVoted)
        } else if !self.proposals.contains_key(proposal_id) {
            Err(VotingError::NotFound)
        } else {
            Ok(())
        }
    }

    /// The state after casting a vote: on success the vote is written down and
    /// counted on the proposal; on failure nothing changes.
    pub open spec fn after_vote(
        self,
        voter: Address,
        authorized: bool,
        proposal_id: u32,
        support: bool,
    ) -> VotingState {
        if self.vote_result(voter, authorized, proposal_id) is Ok {
            VotingState {
                proposals: self.proposals.insert(
                    proposal_id,
                    with_vote(self.proposals[proposal_id], support),
                ),
                votes: self.votes.insert((proposal_id, voter), support),
                events: self.events.push(VotingEvent::VoteCast { proposal_id, voter, support }),
                ..self
            }
        } else {
            self
        }
    }

    /// What asking for the number of votes returns: votes for and against
    /// together, or `NotFound`.
    pub open spec fn votes_result(self, proposal_id: u32) -> Result<i128, VotingError> {
        if self.proposals.contains_key(proposal_id) {
            Ok(
                (self.proposals[proposal_id].yes_votes
                    + self.proposals[proposal_id].no_votes) as i128,
            )
        } else {
            Err(VotingError::NotFound)
        }
    }

    /// What asking for the outcome returns: whether more votes are for the
    /// proposal than against it, or `NotFound`.
    pub open spec fn outcome_result(self, proposal_id: u32) -> Result<bool, VotingError> {
        if self.proposals.contains_key(proposal_id) {
            Ok(self.proposals[proposal_id].yes_votes > self.proposals[proposal_id].no_votes)
        } else {
            Err(VotingError::NotFound)
        }
    }
}

/// The tally: the id allocator, the proposals, the votes and the event log.
pub struct Voting {
    pub next_proposal_id: u32,
    pub proposals: Store<u32, Proposal>,
    pub votes: Store<(u32, Address), bool>,
    pub events: Vec<VotingEvent>,
}

impl View for Voting {
    type V = VotingState;

    open spec fn view(&self) -> VotingState {
        VotingState {
            next_proposal_id: self.next_proposal_id,
            proposals: self.proposals@,
            votes: self.votes@,
            events: self.events@,
        }
    }
}

impl Voting {
    /// A tally without proposals.
    pub fn new() -> (tally: Voting)
        ensures
            tally@ == (VotingState {
                next_proposal_id: 0,
                proposals: Map::empty(),
                votes: Map::empty(),
                events: Seq::empty(),
            }),
    {
        Voting {
            next_proposal_id: 0,
            proposals: Store::new(),
            votes: Store::new(),
            events: Vec::new(),
        }
    }

    /// Starts the ids again at 0. Proposals and votes from before stay.
    pub fn init(&mut self)
        ensures
            final(self)@ == (VotingState { next_proposal_id: 0, ..old(self)@ }),
    {
        self.next_proposal_id = 0;
    }

    /// Creates a proposal with the given description and returns its id.
    pub fn create_proposal(&mut self, description: String) -> (proposal_id: u32)
        requires
            old(self)@.next_proposal_id < u32::MAX,
        ensures
            proposal_id == old(self)@.next_proposal_id,
            final(self)@ == old(self)@.after_create(description),
    {
        let proposal_id = self.next_proposal_id;
        self.next_proposal_id = proposal_id + 1;
        let noted = description.clone();
        self.proposals.set(proposal_id, Proposal { description, yes_votes: 0, no_votes: 0 });
        self.events.push(VotingEvent::ProposalCreated { proposal_id, description: noted });
        proposal_id
    }

    /// Casts the vote of `voter` on the proposal `proposal_id`: for it where
    /// `support` holds, against it otherwise. `authorized` says whether `voter`
    /// has proved its identity for this call.
    pub fn vote(&mut self, voter: Address, authorized: bool, proposal_id: u32, support: bool) -> (result:
        Result<(), VotingError>)
        requires
            old(self)@.vote_result(voter, authorized, proposal_id) is Ok ==> {
                &&& support ==> old(self)@.proposals[proposal_id].yes_votes < i128::MAX
                &&& !support ==> old(self)@.proposals[proposal_id].no_votes < i128::MAX
            },
        ensures
            result == old(self)@.vote_result(voter, authorized, proposal_id),
            final(self)@ == old(self)@.after_vote(voter, authorized, proposal_id, support),
    {
        if !authorized {
            return Err(VotingError::Unauthorized);
        }
        if self.votes.contains_key(&(proposal_id, voter)) {
            return Err(VotingError::AlreadyVoted);
        }
        let counted = match self.proposals.get(&proposal_id) {
            Some(proposal) => {
                if support {
                    Proposal {
                        description: proposal.description.clone(),
                        yes_votes: proposal.yes_votes + 1,
                        no_votes: proposal.no_votes,
                    }
                } else {
                    Proposal {
                        description: proposal.description.clone(),
                        yes_votes: proposal.yes_votes,
                        no_votes: proposal.no_votes + 1,
                    }
                }
            },
            None => {
                return Err(VotingError::NotFound);
            },
        };
        self.votes.set((proposal_id, voter), support);
        self.proposals.set(proposal_id, counted);
        self.events.push(VotingEvent::VoteCast { proposal_id, voter, support });
        Ok(())
    }

    /// The number of votes cast on the proposal `proposal_id`, for and against
    /// together.
    pub fn get_votes(&self, proposal_id: u32) -> (result: Result<i128, VotingError>)
        requires
            self@.proposals.contains_key(proposal_id) ==> i128::MIN
                <= self@.proposals[proposal_id].yes_votes + self@.proposals[proposal_id].no_votes
                <= i128::MAX,
        ensures
            result == self@.votes_result(proposal_id),
    {
        match self.proposals.get(&proposal_id) {
            Some(proposal) => Ok(proposal.yes_votes + proposal.no_votes),
            None => Err(VotingError::NotFound),
        }
    }

    /// Whether more votes are for the proposal `proposal_id` than against it.
    pub fn get_result(&self, proposal_id: u32) -> (result: Result<bool, VotingError>)
        ensures
            result == self@.outcome_result(proposal_id),
    {
        match self.proposals.get(&proposal_id) {
            Some(proposal) => Ok(proposal.yes_votes > proposal.no_votes),
            None => Err(VotingError::NotFound),
        }
    }

    /// The events recorded so far, oldest first.
    pub fn events(&self) -> (events: &Vec<VotingEvent>)
        ensures
            events@ == self@.events,
    {
        &self.events
    }
}

/// A voter's second vote on a proposal is rejected as `AlreadyVoted` and
/// changes nothing, whichever way either vote goes.
pub proof fn lemma_one_vote_each(
    state: VotingState,
    voter: Address,
    proposal_id: u32,
    first: bool,
    second: bool,
)
    requires
        state.vote_result(voter, true, proposal_id) is Ok,
    ensures
        state.after_vote(voter, true, proposal_id, first).vote_result(voter, true, proposal_id)
            == Err::<(), VotingError>(VotingError::AlreadyVoted),
        state.after_vote(voter, true, proposal_id, first).after_vote(
            voter,
            true,
            proposal_id,
            second,
        ) == state.after_vote(voter, true, proposal_id, first),
{
}

} // verus!
