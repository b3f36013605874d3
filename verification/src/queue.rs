use vstd::prelude::*;
use std::collections::HashMap;
use crate::errors::Error;

verus! {

broadcast use vstd::std_specs::hash::group_hash_axioms;

/// A funding proposal. Counters and final flags are mutated only through the
/// queue; a proposal is immutable once `processed` is set. The `aborted`
/// flag is a hook for a flow that is not part of this library: no operation
/// ever sets it.
#[derive(Clone, Copy, PartialEq, Eq, Structural, Debug)]
pub struct Proposal {
    pub proposer: u64,
    pub applicant: u64,
    pub shares_requested: u64,
    pub starting_period: u64,
    pub yes_votes: u32,
    pub no_votes: u32,
    pub processed: bool,
    pub did_pass: bool,
    pub aborted: bool,
}

/// The key under which a ballot of `voter` on proposal `index` is stored:
/// the voter id in the high bits, the index in the low 32 bits. Distinct
/// (voter, index) pairs give distinct keys.
pub open spec fn ballot_key(voter: u64, index: u32) -> u128 {
    (voter as u128 * 0x1_0000_0000 + index as u128) as u128
}

/// Distinct (voter, index) pairs are stored under distinct ballot keys.
pub proof fn lemma_ballot_key_injective(v1: u64, i1: u32, v2: u64, i2: u32)
    ensures
        ballot_key(v1, i1) == ballot_key(v2, i2) ==> v1 == v2 && i1 == i2,
{
}

/// Abstract state of the proposal queue: the index-ordered proposals and the
/// per-(voter, proposal) ballot records.
#[verifier::ext_equal]
pub ghost struct QueueModel {
    pub proposals: Seq<Proposal>,
    pub ballots: Map<u128, u8>,
}

impl QueueModel {
    /// Whether `voter` has a recorded ballot on proposal `index`.
    pub open spec fn has_voted(self, voter: u64, index: u32) -> bool {
        self.ballots.contains_key(ballot_key(voter, index))
    }
}

/// The append-only, index-ordered proposal queue, together with the ballot
/// records that prevent double voting.
pub struct ProposalQueue {
    proposals: Vec<Proposal>,
    ballots: HashMap<u128, u8>,
}

impl View for ProposalQueue {
    type V = QueueModel;

    closed spec fn view(&self) -> QueueModel {
        QueueModel { proposals: self.proposals@, ballots: self.ballots@ }
    }
}

impl ProposalQueue {
    /// An empty queue.
    pub fn new() -> (q: ProposalQueue)
        ensures
            q@.proposals == Seq::<Proposal>::empty(),
            q@.ballots == Map::<u128, u8>::empty(),
    {
        let q = ProposalQueue { proposals: Vec::new(), ballots: HashMap::new() };
        proof {
            assert(q@.proposals =~= Seq::<Proposal>::empty());
        }
        q
    }

    /// How many proposals have ever been submitted.
    pub fn len(&self) -> (n: usize)
        ensures
            n == self@.proposals.len(),
    {
        self.proposals.len()
    }

    /// Appends a proposal at the next index and returns that index.
    pub fn append(&mut self, p: Proposal) -> (index: u32)
        requires
            old(self)@.proposals.len() < u32::MAX,
        ensures
            index == old(self)@.proposals.len(),
            final(self)@.proposals == old(self)@.proposals.push(p),
            final(self)@.ballots == old(self)@.ballots,
    {
        let index: usize = self.proposals.len();
        self.proposals.push(p);
        index as u32
    }

    /// The proposal at `index`; fails with `ProposalNotFound` exactly when
    /// the index is past the end of the queue.
    pub fn get(&self, index: u32) -> (r: Result<Proposal, Error>)
        ensures
            (index as int) < self@.proposals.len() ==> r == Ok::<Proposal, Error>(
                self@.proposals[index as int],
            ),
            (index as int) >= self@.proposals.len() ==> r == Err::<Proposal, Error>(
                Error::ProposalNotFound,
            ),
    {
        if (index as usize) < self.proposals.len() {
            Ok(self.proposals[index as usize])
        } else {
            Err(Error::ProposalNotFound)
        }
    }

    /// The proposal at a position the caller has already checked.
    pub fn at(&self, index: usize) -> (p: Proposal)
        requires
            (index as int) < self@.proposals.len(),
        ensures
            p == self@.proposals[index as int],
    {
        self.proposals[index]
    }

    /// Marks the proposal at `index` as processed with the given outcome;
    /// everything else about it is kept.
    pub fn mark_processed(&mut self, index: u32, did_pass: bool)
        requires
            (index as int) < old(self)@.proposals.len(),
        ensures
            final(self)@.proposals == old(self)@.proposals.update(
                index as int,
                Proposal {
                    processed: true,
                    did_pass,
                    ..old(self)@.proposals[index as int]
                },
            ),
            final(self)@.ballots == old(self)@.ballots,
    {
        let p: Proposal = self.proposals[index as usize];
        self.proposals.set(
            index as usize,
            Proposal { processed: true, did_pass, ..p },
        );
    }

    /// Adds one yes vote to the proposal at `index`.
    pub fn add_yes_vote(&mut self, index: u32)
        requires
            (index as int) < old(self)@.proposals.len(),
            old(self)@.proposals[index as int].yes_votes < u32::MAX,
        ensures
            final(self)@.proposals == old(self)@.proposals.update(
                index as int,
                Proposal {
                    yes_votes: (old(self)@.proposals[index as int].yes_votes + 1) as u32,
                    ..old(self)@.proposals[index as int]
                },
            ),
            final(self)@.ballots == old(self)@.ballots,
    {
        let p: Proposal = self.proposals[index as usize];
        self.proposals.set(
            index as usize,
            Proposal { yes_votes: p.yes_votes + 1, ..p },
        );
    }

    /// Adds one no vote to the proposal at `index`.
    pub fn add_no_vote(&mut self, index: u32)
        requires
            (index as int) < old(self)@.proposals.len(),
            old(self)@.proposals[index as int].no_votes < u32::MAX,
        ensures
            final(self)@.proposals == old(self)@.proposals.update(
                index as int,
                Proposal {
                    no_votes: (old(self)@.proposals[index as int].no_votes + 1) as u32,
                    ..old(self)@.proposals[index as int]
                },
            ),
            final(self)@.ballots == old(self)@.ballots,
    {
        let p: Proposal = self.proposals[index as usize];
        self.proposals.set(
            index as usize,
            Proposal { no_votes: p.no_votes + 1, ..p },
        );
    }

    /// Whether `voter` has already cast a ballot on proposal `index`.
    pub fn has_voted(&self, voter: u64, index: u32) -> (r: bool)
        ensures
            r == self@.has_voted(voter, index),
    {
        let key: u128 = (voter as u128) * 0x1_0000_0000 + (index as u128);
        self.ballots.contains_key(&key)
    }

    /// Records the ballot of `voter` on proposal `index`. Double voting is a
    /// hard precondition failure, checked by the caller beforehand.
    pub fn record_vote(&mut self, voter: u64, index: u32, ballot: u8)
        requires
            !old(self)@.has_voted(voter, index),
        ensures
            final(self)@.proposals == old(self)@.proposals,
            final(self)@.ballots == old(self)@.ballots.insert(ballot_key(voter, index), ballot),
    {
        let key: u128 = (voter as u128) * 0x1_0000_0000 + (index as u128);
        self.ballots.insert(key, ballot);
    }
}

} // verus!
