use vstd::prelude::*;
use crate::errors::Error;
use crate::events::Event;
use crate::ledger::{Ledger, LedgerModel};
use crate::queue::{ballot_key, Proposal, ProposalQueue};
use crate::registry::{member_record, spec_is_member, yes_vote_post, Member, Registry};

verus! {

/// Immutable configuration supplied when the engine is constructed.
#[derive(Clone, Copy, PartialEq, Eq, Structural, Debug)]
pub struct Config {
    /// Offset added to the scheduling base to obtain a new proposal's
    /// starting period.
    pub starting_period_offset: u64,
    /// Length of the voting window that opens after the starting period.
    pub voting_period_length: u64,
    /// Deposit a proposer must lock when submitting.
    pub minimum_deposit: u64,
    /// Amount paid by the proposer to whoever processes the proposal.
    pub processing_reward: u64,
    /// The one account allowed to run the one-time initialization.
    pub owner: u64,
}

impl Config {
    /// The reward is paid out of the deposit, so it can never exceed it.
    pub open spec fn wf(self) -> bool {
        self.processing_reward <= self.minimum_deposit
    }
}

/// Abstract state of the governance engine: the configuration, the ledger,
/// the membership records, the proposal queue with its ballot records, the
/// two global counters and the event log.
#[verifier::ext_equal]
pub ghost struct DaoModel {
    pub cfg: Config,
    pub ledger: LedgerModel,
    pub members: Map<u64, Member>,
    pub proposals: Seq<Proposal>,
    pub ballots: Map<u128, u8>,
    pub total_shares: u64,
    pub total_shares_requested: u64,
    pub events: Seq<Event>,
}

impl DaoModel {
    /// The state a freshly constructed engine is in.
    pub open spec fn genesis(cfg: Config) -> DaoModel {
        DaoModel {
            cfg,
            ledger: LedgerModel::empty(),
            members: Map::empty(),
            proposals: Seq::empty(),
            ballots: Map::empty(),
            total_shares: 0,
            total_shares_requested: 0,
            events: Seq::empty(),
        }
    }

    /// Nothing has happened yet: no shares, no balance records, no
    /// proposals. This is the only state the engine can be in before the
    /// one-time initialization.
    pub open spec fn pristine(self) -> bool {
        &&& self.total_shares == 0
        &&& self.proposals.len() == 0
        &&& forall|a: u64| !self.ledger.balances.contains_key(a)
    }

    /// The engine's invariant: the configuration is sound, proposal indices
    /// fit the index type, starting periods never decrease along the queue,
    /// the processed flags form a prefix of the queue, and before the
    /// initialization the state is pristine.
    pub open spec fn wf(self) -> bool {
        &&& self.cfg.wf()
        &&& self.proposals.len() <= u32::MAX
        &&& forall|i: int, j: int|
            0 <= i <= j < self.proposals.len() ==> #[trigger] self.proposals[i].starting_period
                <= #[trigger] self.proposals[j].starting_period
        &&& forall|k: int|
            0 < k < self.proposals.len() && #[trigger] self.proposals[k].processed
                ==> self.proposals[k - 1].processed
        &&& !self.ledger.initialized ==> self.pristine()
    }

    /// Whether `voter` has a recorded ballot on proposal `index`.
    pub open spec fn has_voted(self, voter: u64, index: u32) -> bool {
        self.ballots.contains_key(ballot_key(voter, index))
    }

    /// Whether `a` is a recognized member.
    pub open spec fn is_member(self, a: u64) -> bool {
        spec_is_member(self.members, a)
    }

    /// `init` succeeds exactly when the owner calls it first.
    pub open spec fn init_ok(self, caller: u64) -> bool {
        caller == self.cfg.owner && !self.ledger.initialized
    }

    /// The error a failing `init` reports, in check order.
    pub open spec fn init_err(self, caller: u64) -> Error {
        if caller != self.cfg.owner {
            Error::NotOwner
        } else {
            Error::AlreadyInitialized
        }
    }

    /// The starting period a proposal submitted at time `now` would get, as
    /// an unbounded integer: the offset past `now`, or past the most recent
    /// proposal's starting period when that lies at or after `now`, so that
    /// starting periods are chained forward and never decrease.
    pub open spec fn scheduled_start(self, now: u64) -> int {
        if self.proposals.len() == 0 {
            now + self.cfg.starting_period_offset
        } else if now > self.proposals.last().starting_period {
            now + self.cfg.starting_period_offset
        } else {
            self.proposals.last().starting_period + self.cfg.starting_period_offset
        }
    }

    /// `submit_proposal` succeeds exactly when the proposer's spendable
    /// balance covers the deposit, the scheduled starting period fits, the
    /// deposit can be locked (which demands strictly more balance than the
    /// deposit), the proposal index fits, and the requested-shares counter
    /// does not overflow.
    pub open spec fn submit_ok(self, proposer: u64, shares_requested: u64, now: u64) -> bool {
        &&& self.ledger.bal(proposer) >= self.cfg.minimum_deposit
        &&& self.scheduled_start(now) <= u64::MAX
        &&& self.ledger.lock_ok(proposer, self.cfg.minimum_deposit)
        &&& self.proposals.len() < u32::MAX
        &&& self.total_shares_requested + shares_requested <= u64::MAX
    }

    /// The error a failing `submit_proposal` reports, in check order.
    pub open spec fn submit_err(self, proposer: u64, shares_requested: u64, now: u64) -> Error {
        if self.ledger.bal(proposer) < self.cfg.minimum_deposit {
            Error::InsufficientBalance
        } else if self.scheduled_start(now) > u64::MAX {
            Error::ArithmeticOverflow
        } else if !self.ledger.lock_ok(proposer, self.cfg.minimum_deposit) {
            self.ledger.lock_err(proposer, self.cfg.minimum_deposit)
        } else {
            Error::ArithmeticOverflow
        }
    }

    /// State after a successful `submit_proposal`: the deposit is locked,
    /// the new proposal sits at the next index with zeroed counters, the
    /// requested-shares counter has grown, and the submission is logged.
    pub open spec fn submit_post(
        self,
        proposer: u64,
        applicant: u64,
        shares_requested: u64,
        now: u64,
    ) -> DaoModel {
        let starting_period = self.scheduled_start(now) as u64;
        let p = Proposal {
            proposer,
            applicant,
            shares_requested,
            starting_period,
            yes_votes: 0,
            no_votes: 0,
            processed: false,
            did_pass: false,
            aborted: false,
        };
        DaoModel {
            ledger: self.ledger.lock_post(proposer, self.cfg.minimum_deposit),
            proposals: self.proposals.push(p),
            total_shares_requested: (self.total_shares_requested + shares_requested) as u64,
            events: self.events.push(
                Event::ProposalSubmitted {
                    index: self.proposals.len() as u32,
                    proposer,
                    applicant,
                    shares_requested,
                    starting_period,
                },
            ),
            ..self
        }
    }

    /// `submit_vote` succeeds exactly when the proposal exists, the ballot
    /// is 0 (yes) or 1 (no), the end of the voting window fits, the current
    /// time lies strictly inside the window, the voter has not voted on this
    /// proposal before, the proposal is not aborted, and the chosen vote
    /// counter can still grow.
    pub open spec fn vote_ok(self, voter: u64, index: u32, ballot: u8, now: u64) -> bool {
        let p = self.proposals[index as int];
        &&& (index as int) < self.proposals.len()
        &&& (ballot == 0 || ballot == 1)
        &&& p.starting_period + self.cfg.voting_period_length <= u64::MAX
        &&& now > p.starting_period
        &&& now < p.starting_period + self.cfg.voting_period_length
        &&& !self.has_voted(voter, index)
        &&& !p.aborted
        &&& if ballot == 0 {
            p.yes_votes < u32::MAX
        } else {
            p.no_votes < u32::MAX
        }
    }

    /// The error a failing `submit_vote` reports, in check order.
    pub open spec fn vote_err(self, voter: u64, index: u32, ballot: u8, now: u64) -> Error {
        let p = self.proposals[index as int];
        if (index as int) >= self.proposals.len() {
            Error::ProposalNotFound
        } else if !(ballot == 0 || ballot == 1) {
            Error::InvalidBallot
        } else if p.starting_period + self.cfg.voting_period_length > u64::MAX {
            Error::ArithmeticOverflow
        } else if now <= p.starting_period {
            Error::VotingNotStarted
        } else if now >= p.starting_period + self.cfg.voting_period_length {
            Error::VotingExpired
        } else if self.has_voted(voter, index) {
            Error::AlreadyVoted
        } else if p.aborted {
            Error::ProposalAborted
        } else {
            Error::ArithmeticOverflow
        }
    }

    /// State after a successful `submit_vote`: the matching counter has
    /// grown by one, a yes vote raises the voter's membership high-water
    /// mark, the ballot is recorded against re-voting, and the vote is
    /// logged.
    pub open spec fn vote_post(self, voter: u64, index: u32, ballot: u8, now: u64) -> DaoModel {
        let p = self.proposals[index as int];
        let voted = if ballot == 0 {
            Proposal { yes_votes: (p.yes_votes + 1) as u32, ..p }
        } else {
            Proposal { no_votes: (p.no_votes + 1) as u32, ..p }
        };
        DaoModel {
            proposals: self.proposals.update(index as int, voted),
            members: if ballot == 0 {
                yes_vote_post(self.members, voter, index)
            } else {
                self.members
            },
            ballots: self.ballots.insert(ballot_key(voter, index), ballot),
            events: self.events.push(Event::VoteSubmitted { index, voter, ballot }),
            ..self
        }
    }

    /// Whether the proposal at `index` passes when processed: more yes than
    /// no votes, and not aborted.
    pub open spec fn decision(self, index: u32) -> bool {
        let p = self.proposals[index as int];
        p.yes_votes > p.no_votes && !p.aborted
    }

    /// The part of the deposit returned to the proposer at processing; the
    /// rest is the processing reward.
    pub open spec fn refund(self) -> u64 {
        (self.cfg.minimum_deposit - self.cfg.processing_reward) as u64
    }

    /// The ledger after the minting step of processing: a passing proposal
    /// credits the applicant with the requested shares.
    pub open spec fn process_ledger_1(self, index: u32) -> LedgerModel {
        let p = self.proposals[index as int];
        if self.decision(index) {
            self.ledger.mint_post(p.applicant, p.shares_requested)
        } else {
            self.ledger
        }
    }

    /// The ledger after minting and unlocking: the proposer gets the refund
    /// part of the deposit back into the spendable balance.
    pub open spec fn process_ledger_2(self, index: u32) -> LedgerModel {
        let p = self.proposals[index as int];
        self.process_ledger_1(index).unlock_post(p.proposer, self.refund())
    }

    /// The ledger after minting, unlocking and paying the caller the
    /// processing reward out of the proposer's balance.
    pub open spec fn process_ledger_3(self, caller: u64, index: u32) -> LedgerModel {
        let p = self.proposals[index as int];
        self.process_ledger_2(index).transfer_post(p.proposer, caller, self.cfg.processing_reward)
    }

    /// `process_proposal` succeeds exactly when the proposal exists, the end
    /// of its voting window fits and lies strictly before `now`, it was not
    /// processed before, every earlier proposal was, and the three ledger
    /// steps — mint on a pass, refund unlock, reward transfer — all go
    /// through in sequence, the minted total included.
    pub open spec fn process_ok(self, caller: u64, index: u32, now: u64) -> bool {
        let p = self.proposals[index as int];
        &&& (index as int) < self.proposals.len()
        &&& p.starting_period + self.cfg.voting_period_length <= u64::MAX
        &&& now > p.starting_period + self.cfg.voting_period_length
        &&& !p.processed
        &&& (index == 0 || self.proposals[index as int - 1].processed)
        &&& self.decision(index) ==> {
            &&& self.ledger.mint_ok(p.applicant, p.shares_requested)
            &&& self.total_shares + p.shares_requested <= u64::MAX
        }
        &&& self.process_ledger_1(index).unlock_ok(p.proposer, self.refund())
        &&& self.process_ledger_2(index).transfer_ok(
            p.proposer,
            caller,
            self.cfg.processing_reward,
        )
    }

    /// The error a failing `process_proposal` reports, in check order.
    pub open spec fn process_err(self, caller: u64, index: u32, now: u64) -> Error {
        let p = self.proposals[index as int];
        if (index as int) >= self.proposals.len() {
            Error::ProposalNotFound
        } else if p.starting_period + self.cfg.voting_period_length > u64::MAX {
            Error::ArithmeticOverflow
        } else if now <= p.starting_period + self.cfg.voting_period_length {
            Error::VotingNotEnded
        } else if p.processed {
            Error::AlreadyProcessed
        } else if index > 0 && !self.proposals[index as int - 1].processed {
            Error::PreviousUnprocessed
        } else if self.decision(index) && !self.ledger.mint_ok(p.applicant, p.shares_requested) {
            Error::ArithmeticOverflow
        } else if self.decision(index) && self.total_shares + p.shares_requested > u64::MAX {
            Error::ArithmeticOverflow
        } else if !self.process_ledger_1(index).unlock_ok(p.proposer, self.refund()) {
            self.process_ledger_1(index).unlock_err(p.proposer, self.refund())
        } else {
            self.process_ledger_2(index).transfer_err(
                p.proposer,
                caller,
                self.cfg.processing_reward,
            )
        }
    }

    /// State after a successful `process_proposal`: the ledger has gone
    /// through mint, unlock and reward transfer; a passing proposal's
    /// applicant is registered as a member if new; the proposal carries its
    /// final flags; the minted total has grown on a pass; and the transfer
    /// and the outcome are logged, in that order.
    pub open spec fn process_post(self, caller: u64, index: u32, now: u64) -> DaoModel {
        let p = self.proposals[index as int];
        let did_pass = self.decision(index);
        DaoModel {
            ledger: self.process_ledger_3(caller, index),
            members: if did_pass && !self.is_member(p.applicant) {
                self.members.insert(
                    p.applicant,
                    Member { exists: true, highest_index_yes_vote: index },
                )
            } else {
                self.members
            },
            proposals: self.proposals.update(
                index as int,
                Proposal { processed: true, did_pass, ..p },
            ),
            total_shares: if did_pass {
                (self.total_shares + p.shares_requested) as u64
            } else {
                self.total_shares
            },
            events: self.events.push(
                Event::Transferred {
                    from: p.proposer,
                    to: caller,
                    amount: self.cfg.processing_reward,
                },
            ).push(
                Event::ProposalProcessed {
                    index,
                    applicant: p.applicant,
                    proposer: p.proposer,
                    shares_requested: p.shares_requested,
                    did_pass,
                },
            ),
            ..self
        }
    }

    /// State after a successful `init`: the owner is credited and becomes
    /// the first member, and the minted total rises by the initial amount.
    pub open spec fn init_post(self, caller: u64, amount: u64) -> DaoModel {
        DaoModel {
            ledger: self.ledger.init_post(caller, amount),
            members: self.members.insert(
                caller,
                Member { exists: true, highest_index_yes_vote: 0 },
            ),
            total_shares: (self.total_shares + amount) as u64,
            ..self
        }
    }
}

/// The governance engine: the single owned store of ledger, membership,
/// queue and counters, driven one operation at a time. Logical time is
/// passed in by the caller; successful operations append to the event log;
/// failed operations change nothing.
pub struct Dao {
    cfg: Config,
    ledger: Ledger,
    registry: Registry,
    queue: ProposalQueue,
    total_shares: u64,
    total_shares_requested: u64,
    events: Vec<Event>,
}

impl View for Dao {
    type V = DaoModel;

    closed spec fn view(&self) -> DaoModel {
        DaoModel {
            cfg: self.cfg,
            ledger: self.ledger@,
            members: self.registry@,
            proposals: self.queue@.proposals,
            ballots: self.queue@.ballots,
            total_shares: self.total_shares,
            total_shares_requested: self.total_shares_requested,
            events: self.events@,
        }
    }
}

impl Dao {
    /// A fresh engine with the given configuration and nothing else. The
    /// reward may not exceed the deposit it is paid from; a configuration
    /// violating that would make processing subtract below zero.
    pub fn new(cfg: Config) -> (d: Dao)
        requires
            cfg.wf(),
        ensures
            d@ == DaoModel::genesis(cfg),
            d@.wf(),
    {
        let d = Dao {
            cfg,
            ledger: Ledger::new(),
            registry: Registry::new(),
            queue: ProposalQueue::new(),
            total_shares: 0,
            total_shares_requested: 0,
            events: Vec::new(),
        };
        proof {
            assert(d@ =~= DaoModel::genesis(cfg));
        }
        d
    }

    /// One-time initialization: credits the owner with `amount`, registers
    /// the owner as the first member and sets the minted total. Only the
    /// configured owner may call it, and only once.
    pub fn init(&mut self, caller: u64, amount: u64) -> (r: Result<(), Error>)
        requires
            old(self)@.wf(),
        ensures
            final(self)@.wf(),
            r is Ok <==> old(self)@.init_ok(caller),
            r is Ok ==> final(self)@ == old(self)@.init_post(caller, amount),
            r is Err ==> final(self)@ == old(self)@ && r == Err::<(), Error>(
                old(self)@.init_err(caller),
            ),
            final(self)@.total_shares >= old(self)@.total_shares,
            final(self)@.ballots == old(self)@.ballots,
    {
        if caller != self.cfg.owner {
            return Err(Error::NotOwner);
        }
        match self.ledger.init(caller, amount) {
            Ok(()) => {},
            Err(e) => {
                return Err(e);
            },
        }
        self.registry.register(caller, 0);
        proof {
            assert(old(self)@.total_shares == 0);
        }
        self.total_shares = self.total_shares + amount;
        proof {
            assert(self@ =~= old(self)@.init_post(caller, amount));
        }
        Ok(())
    }

    /// Submits a funding proposal: the proposer locks the minimum deposit,
    /// the proposal is appended at the next index with its voting window
    /// scheduled forward of every earlier one, the requested-shares counter
    /// grows, and the submission is logged. On any failure nothing changes.
    pub fn submit_proposal(
        &mut self,
        proposer: u64,
        applicant: u64,
        shares_requested: u64,
        now: u64,
    ) -> (r: Result<(), Error>)
        requires
            old(self)@.wf(),
        ensures
            final(self)@.wf(),
            r is Ok <==> old(self)@.submit_ok(proposer, shares_requested, now),
            r is Ok ==> final(self)@ == old(self)@.submit_post(
                proposer,
                applicant,
                shares_requested,
                now,
            ),
            r is Err ==> final(self)@ == old(self)@ && r == Err::<(), Error>(
                old(self)@.submit_err(proposer, shares_requested, now),
            ),
            final(self)@.total_shares == old(self)@.total_shares,
            final(self)@.ballots == old(self)@.ballots,
    {
        let md: u64 = self.cfg.minimum_deposit;
        let off: u64 = self.cfg.starting_period_offset;
        let balance: u64 = self.ledger.balance_of(proposer);
        if balance < md {
            return Err(Error::InsufficientBalance);
        }
        let n: usize = self.queue.len();
        let starting_period: u64;
        if n == 0 {
            if now > u64::MAX - off {
                return Err(Error::ArithmeticOverflow);
            }
            starting_period = now + off;
        } else {
            let last: Proposal = self.queue.at(n - 1);
            let base: u64 = if now > last.starting_period {
                now
            } else {
                last.starting_period
            };
            if base > u64::MAX - off {
                return Err(Error::ArithmeticOverflow);
            }
            starting_period = base + off;
        }
        if !self.ledger.has_record(proposer) {
            return Err(Error::InsufficientBalance);
        }
        if balance <= md {
            return Err(Error::InsufficientBalance);
        }
        let deposit: u64 = self.ledger.locked_deposits(proposer);
        if md > u64::MAX - deposit {
            return Err(Error::ArithmeticOverflow);
        }
        if n >= u32::MAX as usize {
            return Err(Error::ArithmeticOverflow);
        }
        if shares_requested > u64::MAX - self.total_shares_requested {
            return Err(Error::ArithmeticOverflow);
        }
        self.ledger.apply_lock(proposer, md);
        let index: u32 = self.queue.append(
            Proposal {
                proposer,
                applicant,
                shares_requested,
                starting_period,
                yes_votes: 0,
                no_votes: 0,
                processed: false,
                did_pass: false,
                aborted: false,
            },
        );
        self.total_shares_requested = self.total_shares_requested + shares_requested;
        self.events.push(
            Event::ProposalSubmitted {
                index,
                proposer,
                applicant,
                shares_requested,
                starting_period,
            },
        );
        proof {
            let m0 = old(self)@;
            let m1 = self@;
            assert(m1 =~= m0.submit_post(proposer, applicant, shares_requested, now));
            assert forall|i: int, j: int| 0 <= i <= j < m1.proposals.len() implies #[trigger] m1
                .proposals[i].starting_period <= #[trigger] m1.proposals[j].starting_period by {
                if j < m0.proposals.len() as int {
                    assert(m0.proposals[i].starting_period <= m0.proposals[j].starting_period);
                } else if i < m0.proposals.len() as int {
                    assert(m0.proposals[i].starting_period <= m0.proposals[m0.proposals.len()
                        - 1].starting_period);
                }
            }
        }
        Ok(())
    }

    /// Casts a ballot on a proposal: 0 is yes, 1 is no. The vote must fall
    /// strictly inside the proposal's voting window, and each voter may vote
    /// at most once per proposal, ever. On any failure nothing changes.
    pub fn submit_vote(&mut self, voter: u64, index: u32, ballot: u8, now: u64) -> (r: Result<
        (),
        Error,
    >)
        requires
            old(self)@.wf(),
        ensures
            final(self)@.wf(),
            r is Ok <==> old(self)@.vote_ok(voter, index, ballot, now),
            r is Ok ==> final(self)@ == old(self)@.vote_post(voter, index, ballot, now),
            r is Ok ==> final(self)@.has_voted(voter, index),
            r is Err ==> final(self)@ == old(self)@ && r == Err::<(), Error>(
                old(self)@.vote_err(voter, index, ballot, now),
            ),
            final(self)@.total_shares == old(self)@.total_shares,
            forall|v: u64, i: u32|
                old(self)@.has_voted(v, i) ==> #[trigger] final(self)@.has_voted(v, i),
    {
        let n: usize = self.queue.len();
        if index as usize >= n {
            return Err(Error::ProposalNotFound);
        }
        let p: Proposal = self.queue.at(index as usize);
        if !(ballot == 0 || ballot == 1) {
            return Err(Error::InvalidBallot);
        }
        let vpl: u64 = self.cfg.voting_period_length;
        if p.starting_period > u64::MAX - vpl {
            return Err(Error::ArithmeticOverflow);
        }
        let expiry: u64 = p.starting_period + vpl;
        if now <= p.starting_period {
            return Err(Error::VotingNotStarted);
        }
        if now >= expiry {
            return Err(Error::VotingExpired);
        }
        if self.queue.has_voted(voter, index) {
            return Err(Error::AlreadyVoted);
        }
        if p.aborted {
            return Err(Error::ProposalAborted);
        }
        if ballot == 0 {
            if p.yes_votes == u32::MAX {
                return Err(Error::ArithmeticOverflow);
            }
            self.queue.add_yes_vote(index);
            self.registry.record_yes_vote(voter, index);
        } else {
            if p.no_votes == u32::MAX {
                return Err(Error::ArithmeticOverflow);
            }
            self.queue.add_no_vote(index);
        }
        self.queue.record_vote(voter, index, ballot);
        self.events.push(Event::VoteSubmitted { index, voter, ballot });
        proof {
            let m0 = old(self)@;
            let m1 = self@;
            assert(m1 =~= m0.vote_post(voter, index, ballot, now));
            assert forall|i: int, j: int| 0 <= i <= j < m1.proposals.len() implies #[trigger] m1
                .proposals[i].starting_period <= #[trigger] m1.proposals[j].starting_period by {
                assert(m0.proposals[i].starting_period <= m0.proposals[j].starting_period);
            }
            assert forall|k: int|
                0 < k < m1.proposals.len() && #[trigger] m1.proposals[k].processed implies m1
                .proposals[k - 1].processed by {
                assert(m0.proposals[k].processed);
            }
        }
        Ok(())
    }

    /// Finalizes the proposal at `index` once its voting window has closed
    /// and every earlier proposal is processed. A pass mints the requested
    /// shares to the applicant, registering them as a member if new. Win or
    /// lose, the proposer gets the deposit back minus the processing
    /// reward, which is transferred to the caller. All checks run before
    /// any mutation: on any failure nothing changes.
    pub fn process_proposal(&mut self, caller: u64, index: u32, now: u64) -> (r: Result<
        (),
        Error,
    >)
        requires
            old(self)@.wf(),
        ensures
            final(self)@.wf(),
            r is Ok <==> old(self)@.process_ok(caller, index, now),
            r is Ok ==> final(self)@ == old(self)@.process_post(caller, index, now),
            r is Err ==> final(self)@ == old(self)@ && r == Err::<(), Error>(
                old(self)@.process_err(caller, index, now),
            ),
            final(self)@.total_shares >= old(self)@.total_shares,
            r is Ok && old(self)@.decision(index) ==> final(self)@.total_shares == old(
                self,
            )@.total_shares + old(self)@.proposals[index as int].shares_requested,
            !(r is Ok && old(self)@.decision(index)) ==> final(self)@.total_shares == old(
                self,
            )@.total_shares,
            final(self)@.ballots == old(self)@.ballots,
    {
        let n: usize = self.queue.len();
        if index as usize >= n {
            return Err(Error::ProposalNotFound);
        }
        let p: Proposal = self.queue.at(index as usize);
        let vpl: u64 = self.cfg.voting_period_length;
        if p.starting_period > u64::MAX - vpl {
            return Err(Error::ArithmeticOverflow);
        }
        let expiry: u64 = p.starting_period + vpl;
        if now <= expiry {
            return Err(Error::VotingNotEnded);
        }
        if p.processed {
            return Err(Error::AlreadyProcessed);
        }
        if index > 0 {
            let prev: Proposal = self.queue.at((index - 1) as usize);
            if !prev.processed {
                return Err(Error::PreviousUnprocessed);
            }
        }
        let did_pass: bool = p.yes_votes > p.no_votes && !p.aborted;
        let pr: u64 = self.cfg.processing_reward;
        let refund: u64 = self.cfg.minimum_deposit - pr;
        let applicant_bal: u64 = self.ledger.balance_of(p.applicant);
        if did_pass {
            if p.shares_requested > u64::MAX - applicant_bal {
                return Err(Error::ArithmeticOverflow);
            }
            if p.shares_requested > u64::MAX - self.total_shares {
                return Err(Error::ArithmeticOverflow);
            }
        }
        let proposer_bal_1: u64 = if did_pass && p.proposer == p.applicant {
            applicant_bal + p.shares_requested
        } else {
            self.ledger.balance_of(p.proposer)
        };
        proof {
            assert(proposer_bal_1 == old(self)@.process_ledger_1(index).bal(p.proposer));
            assert(old(self)@.process_ledger_1(index).locked_of(p.proposer) == old(
                self,
            )@.ledger.locked_of(p.proposer));
        }
        if refund > u64::MAX - proposer_bal_1 {
            return Err(Error::ArithmeticOverflow);
        }
        let proposer_locked: u64 = self.ledger.locked_deposits(p.proposer);
        if proposer_locked < refund {
            return Err(Error::ArithmeticUnderflow);
        }
        let proposer_bal_2: u64 = proposer_bal_1 + refund;
        proof {
            assert(proposer_bal_2 == old(self)@.process_ledger_2(index).bal(p.proposer));
            assert(old(self)@.process_ledger_2(index).has_record(p.proposer));
        }
        if proposer_bal_2 < pr {
            return Err(Error::InsufficientBalance);
        }
        let caller_bal: u64 = if caller == p.proposer {
            proposer_bal_2 - pr
        } else if did_pass && caller == p.applicant {
            applicant_bal + p.shares_requested
        } else {
            self.ledger.balance_of(caller)
        };
        proof {
            assert(caller_bal == old(self)@.process_ledger_2(index).transfer_mid(
                p.proposer,
                pr,
            ).bal(caller));
        }
        if pr > u64::MAX - caller_bal {
            return Err(Error::ArithmeticOverflow);
        }
        if did_pass {
            if !self.registry.is_member(p.applicant) {
                self.registry.register(p.applicant, index);
            }
            self.ledger.apply_mint(p.applicant, p.shares_requested);
            self.total_shares = self.total_shares + p.shares_requested;
        }
        self.ledger.apply_unlock(p.proposer, refund);
        self.ledger.apply_transfer(p.proposer, caller, pr);
        self.queue.mark_processed(index, did_pass);
        self.events.push(Event::Transferred { from: p.proposer, to: caller, amount: pr });
        self.events.push(
            Event::ProposalProcessed {
                index,
                applicant: p.applicant,
                proposer: p.proposer,
                shares_requested: p.shares_requested,
                did_pass,
            },
        );
        proof {
            let m0 = old(self)@;
            let m1 = self@;
            assert(m1 =~= m0.process_post(caller, index, now));
            assert forall|i: int, j: int| 0 <= i <= j < m1.proposals.len() implies #[trigger] m1
                .proposals[i].starting_period <= #[trigger] m1.proposals[j].starting_period by {
                assert(m0.proposals[i].starting_period <= m0.proposals[j].starting_period);
            }
            assert forall|k: int|
                0 < k < m1.proposals.len() && #[trigger] m1.proposals[k].processed implies m1
                .proposals[k - 1].processed by {
                if k != index as int {
                    assert(m0.proposals[k].processed);
                    assert(m0.proposals[k - 1].processed);
                }
            }
        }
        Ok(())
    }

    /// The configuration the engine was constructed with.
    pub fn config(&self) -> (c: Config)
        ensures
            c == self@.cfg,
    {
        self.cfg
    }

    /// Whether the one-time initialization has happened.
    pub fn is_init(&self) -> (r: bool)
        ensures
            r == self@.ledger.initialized,
    {
        self.ledger.is_init()
    }

    /// Sum of all shares ever minted, the initial credit included.
    pub fn total_shares(&self) -> (n: u64)
        ensures
            n == self@.total_shares,
    {
        self.total_shares
    }

    /// Sum of the requested shares over all proposals ever submitted.
    pub fn total_shares_requested(&self) -> (n: u64)
        ensures
            n == self@.total_shares_requested,
    {
        self.total_shares_requested
    }

    /// How many proposals have ever been submitted.
    pub fn proposal_count(&self) -> (n: usize)
        ensures
            n == self@.proposals.len(),
    {
        self.queue.len()
    }

    /// The proposal at `index`; fails with `ProposalNotFound` exactly when
    /// no proposal has that index.
    pub fn proposal(&self, index: u32) -> (r: Result<Proposal, Error>)
        ensures
            (index as int) < self@.proposals.len() ==> r == Ok::<Proposal, Error>(
                self@.proposals[index as int],
            ),
            (index as int) >= self@.proposals.len() ==> r == Err::<Proposal, Error>(
                Error::ProposalNotFound,
            ),
    {
        self.queue.get(index)
    }

    /// The spendable balance of an account, zero when it has no record.
    pub fn balance_of(&self, a: u64) -> (b: u64)
        ensures
            b == self@.ledger.bal(a),
    {
        self.ledger.balance_of(a)
    }

    /// The locked deposit of an account, zero when it has none.
    pub fn locked_deposits(&self, a: u64) -> (b: u64)
        ensures
            b == self@.ledger.locked_of(a),
    {
        self.ledger.locked_deposits(a)
    }

    /// Whether the account is a recognized member.
    pub fn is_member(&self, a: u64) -> (r: bool)
        ensures
            r == self@.is_member(a),
    {
        self.registry.is_member(a)
    }

    /// The membership record of an account, absent-record defaults included.
    pub fn member(&self, a: u64) -> (m: Member)
        ensures
            m == member_record(self@.members, a),
    {
        self.registry.member(a)
    }

    /// Whether `voter` has a recorded ballot on proposal `index`.
    pub fn has_voted(&self, voter: u64, index: u32) -> (r: bool)
        ensures
            r == self@.has_voted(voter, index),
    {
        self.queue.has_voted(voter, index)
    }

    /// The event log, in operation invocation order.
    pub fn events(&self) -> (e: &Vec<Event>)
        ensures
            e@ == self@.events,
    {
        &self.events
    }
}

/// Law: proposals finalize strictly in ascending index order. In any
/// well-formed engine state the processed proposals form a prefix of the
/// queue: every proposal at or below a processed one is itself processed.
pub proof fn lemma_processing_in_order(m: DaoModel, i: int, j: int)
    requires
        m.wf(),
        0 <= i <= j < m.proposals.len(),
        m.proposals[j].processed,
    ensures
        m.proposals[i].processed,
    decreases j - i,
{
    if i < j {
        assert(m.proposals[j - 1].processed);
        lemma_processing_in_order(m, i, j - 1);
    }
}

/// Law: attempting to process a proposal whose predecessor is not yet
/// processed always fails, whoever calls and whatever the time.
pub proof fn lemma_out_of_order_processing_fails(m: DaoModel, caller: u64, index: u32, now: u64)
    requires
        0 < index,
        (index as int) < m.proposals.len(),
        !m.proposals[index as int - 1].processed,
    ensures
        !m.process_ok(caller, index, now),
{
}

/// Law: at most one `submit_vote` ever succeeds for a given (voter,
/// proposal) pair. Once a ballot is recorded — and every operation's
/// contract keeps recorded ballots — no later vote on that pair can
/// succeed, whatever the ballot value or the time.
pub proof fn lemma_vote_at_most_once(m: DaoModel, voter: u64, index: u32, ballot: u8, now: u64)
    requires
        m.has_voted(voter, index),
    ensures
        !m.vote_ok(voter, index, ballot, now),
{
}

} // verus!
