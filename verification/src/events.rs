use vstd::prelude::*;

verus! {

/// A notification appended to the engine's event log when an operation
/// succeeds. Log order matches operation invocation order.
#[derive(Clone, Copy, PartialEq, Eq, Structural, Debug)]
pub enum Event {
    /// A new proposal entered the queue.
    ProposalSubmitted {
        index: u32,
        proposer: u64,
        applicant: u64,
        shares_requested: u64,
        starting_period: u64,
    },
    /// A ballot was recorded on a proposal.
    VoteSubmitted { index: u32, voter: u64, ballot: u8 },
    /// A proposal was finalized with the given outcome.
    ProposalProcessed {
        index: u32,
        applicant: u64,
        proposer: u64,
        shares_requested: u64,
        did_pass: bool,
    },
    /// Tokens moved between two spendable balances.
    Transferred { from: u64, to: u64, amount: u64 },
}

} // verus!
