use vstd::prelude::*;

verus! {

/// Why an operation was rejected. Every operation either succeeds or returns
/// exactly one of these, and a rejected operation leaves the state unchanged.
#[derive(Clone, Copy, PartialEq, Eq, Structural, Debug)]
pub enum Error {
    /// The one-time ledger initialization was attempted a second time.
    AlreadyInitialized,
    /// An account other than the configured owner called the initializer.
    NotOwner,
    /// A spendable balance was missing or too small for the operation.
    InsufficientBalance,
    /// A checked addition would have exceeded the representable range.
    ArithmeticOverflow,
    /// A checked subtraction would have gone below zero.
    ArithmeticUnderflow,
    /// The given proposal index is not in the queue.
    ProposalNotFound,
    /// A ballot value other than 0 (yes) or 1 (no) was submitted.
    InvalidBallot,
    /// Voting was attempted at or before the proposal's starting period.
    VotingNotStarted,
    /// Voting was attempted at or after the end of the voting window.
    VotingExpired,
    /// The voter has already cast a ballot on this proposal.
    AlreadyVoted,
    /// The proposal was aborted and can no longer be voted on.
    ProposalAborted,
    /// Processing was attempted before the voting window had closed.
    VotingNotEnded,
    /// The proposal has already been processed.
    AlreadyProcessed,
    /// The proposal at the previous index has not been processed yet.
    PreviousUnprocessed,
}

} // verus!
